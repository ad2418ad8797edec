use cargo_dist::config::ZipStyle;
use cargo_dist::platform::support::PlatformSupport;
use cargo_dist::platform::{
    FetchableArchive, FetchableUpdater, LibcVersion, RuntimeConditions, SupportQuality,
};

fn conds(glibc: Option<LibcVersion>) -> RuntimeConditions {
    RuntimeConditions {
        min_glibc_version: glibc,
        min_musl_version: None,
        rosetta2: false,
    }
}

fn archive(id: &str, target: &str, c: RuntimeConditions, updater: Option<usize>) -> FetchableArchive {
    FetchableArchive {
        id: id.to_owned(),
        native_runtime_conditions: c,
        target_triple: String::new(),
        target_triples: vec![target.to_owned()],
        sha256sum: None,
        executables: vec!["app".to_owned()],
        cdylibs: vec![],
        cstaticlibs: vec![],
        zip_style: ZipStyle::Zip,
        updater,
    }
}

fn sample() -> PlatformSupport {
    let glibc = Some(LibcVersion::glibc_from_parts(2, 28));
    PlatformSupport::from_archives(
        vec![
            archive("app-x86_64-unknown-linux-musl.tar.xz", "x86_64-unknown-linux-musl", conds(None), None),
            archive("app-x86_64-unknown-linux-gnu.tar.xz", "x86_64-unknown-linux-gnu", conds(glibc), Some(0)),
        ],
        vec![FetchableUpdater {
            id: "app-update".to_owned(),
            binary: "app-update".to_owned(),
        }],
    )
}

#[test]
fn archives_take_their_first_supported_target() {
    let support = sample();
    assert_eq!(support.archives[0].target_triple, "x86_64-unknown-linux-musl-static");
    assert_eq!(support.archives[1].target_triple, "x86_64-unknown-linux-gnu");
    assert_eq!(support.updaters.len(), 1);
}

#[test]
fn platforms_are_by_target_best_first() {
    let support = sample();
    let targets: Vec<&str> = support.platforms.iter().map(|(t, _)| t.as_str()).collect();
    assert_eq!(
        targets,
        vec![
            "x86_64-unknown-linux-gnu",
            "x86_64-unknown-linux-musl-dynamic",
            "x86_64-unknown-linux-musl-static",
        ]
    );
    let (_, gnu) = &support.platforms[0];
    assert_eq!(gnu.len(), 2);
    // the native gnu build beats the static musl one
    assert_eq!(gnu[0].quality, SupportQuality::HostNative);
    assert_eq!(gnu[0].archive_idx, 1);
    assert_eq!(gnu[1].quality, SupportQuality::ImperfectNative);
    assert_eq!(gnu[1].archive_idx, 0);
}

#[test]
fn equal_options_are_ordered_by_archive_id() {
    let support = PlatformSupport::from_archives(
        vec![
            archive("b-archive", "x86_64-apple-darwin", conds(None), None),
            archive("a-archive", "x86_64-apple-darwin", conds(None), None),
        ],
        vec![],
    );
    let (target, options) = &support.platforms[0];
    assert_eq!(target, "aarch64-apple-darwin");
    assert_eq!(options[0].archive_idx, 1);
    assert_eq!(options[1].archive_idx, 0);
}

#[test]
fn conflated_conditions_merge_best_options() {
    let support = sample();
    let c = support.conflated_runtime_conditions();
    assert_eq!(c.min_glibc_version, Some(LibcVersion::glibc_from_parts(2, 28)));
    let empty = PlatformSupport::from_archives(vec![], vec![]);
    assert_eq!(empty.conflated_runtime_conditions(), conds(None));
    assert_eq!(
        empty.safe_conflated_runtime_conditions(),
        conds(Some(LibcVersion::default_glibc()))
    );
}

#[test]
fn fragments_pick_the_best_option() {
    let support = sample();
    let fragments = support.fragments();
    assert_eq!(fragments.len(), 3);
    assert_eq!(fragments[0].target_triple, "x86_64-unknown-linux-gnu");
    assert_eq!(fragments[0].id, "app-x86_64-unknown-linux-gnu.tar.xz");
    let updater = fragments[0].updater.as_ref().unwrap();
    assert_eq!(updater.binary, "app-update");
    assert_eq!(fragments[2].target_triple, "x86_64-unknown-linux-musl-static");
    assert_eq!(fragments[2].id, "app-x86_64-unknown-linux-musl.tar.xz");
    assert!(fragments[2].updater.is_none());
}

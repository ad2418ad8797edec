use cargo_dist::platform::github_runners::target_for_github_runner;
use cargo_dist::platform::native::{
    native_glibc_version, native_runtime_conditions_for_artifact, native_runtime_conditions_for_asset,
    AssetLinkage,
};
use cargo_dist::platform::targets as t;
use cargo_dist::platform::{
    max_of_min_libc_versions, supports, FetchableArchive, LibcVersion, PlatformEntry,
    RuntimeConditions, SupportQuality,
};
use cargo_dist::config::ZipStyle;

fn archive(targets: &[&str], conditions: RuntimeConditions) -> FetchableArchive {
    FetchableArchive {
        id: "app.tar.xz".to_owned(),
        native_runtime_conditions: conditions,
        target_triple: targets[0].to_owned(),
        target_triples: targets.iter().map(|s| s.to_string()).collect(),
        sha256sum: None,
        executables: vec![],
        cdylibs: vec![],
        cstaticlibs: vec![],
        zip_style: ZipStyle::Zip,
        updater: None,
    }
}

fn no_conditions() -> RuntimeConditions {
    RuntimeConditions {
        min_glibc_version: None,
        min_musl_version: None,
        rosetta2: false,
    }
}

fn entry(quality: SupportQuality, conditions: RuntimeConditions, idx: usize) -> PlatformEntry {
    PlatformEntry {
        quality,
        runtime_conditions: conditions,
        archive_idx: idx,
    }
}

#[test]
fn test_target_for_github_runner() {
    assert_eq!(
        target_for_github_runner("ubuntu-20.04"),
        Some(t::TARGET_X64_LINUX_GNU)
    );
    assert_eq!(
        target_for_github_runner("buildjet-8vcpu-ubuntu-2204-arm"),
        Some(t::TARGET_ARM64_LINUX_GNU)
    );
}

#[test]
fn unknown_runners_have_no_target() {
    assert_eq!(target_for_github_runner("my-runner"), None);
    assert_eq!(target_for_github_runner("buildjet-8vcpu-debian"), None);
    assert_eq!(
        target_for_github_runner("buildjet-2vcpu-ubuntu-2204"),
        Some(t::TARGET_X64_LINUX_GNU)
    );
    assert_eq!(target_for_github_runner("macos-14"), Some(t::TARGET_ARM64_MAC));
    assert_eq!(target_for_github_runner("windows-2022"), Some(t::TARGET_X64_WINDOWS));
}

#[test]
fn musl_archive_supports_any_linux() {
    let conds = no_conditions();
    let res = supports(3, &archive(&["x86_64-unknown-linux-musl"], conds));
    assert_eq!(
        res,
        vec![
            (
                "x86_64-unknown-linux-musl-static".to_owned(),
                entry(SupportQuality::HostNative, conds, 3)
            ),
            (
                "x86_64-unknown-linux-gnu".to_owned(),
                entry(SupportQuality::ImperfectNative, conds, 3)
            ),
            (
                "x86_64-unknown-linux-musl-dynamic".to_owned(),
                entry(SupportQuality::ImperfectNative, conds, 3)
            ),
        ]
    );
}

#[test]
fn intel_mac_archive_runs_under_rosetta() {
    let conds = no_conditions();
    let res = supports(0, &archive(&["x86_64-apple-darwin"], conds));
    let mut rosetta = conds;
    rosetta.rosetta2 = true;
    assert_eq!(
        res,
        vec![
            (
                "x86_64-apple-darwin".to_owned(),
                entry(SupportQuality::HostNative, conds, 0)
            ),
            (
                "aarch64-apple-darwin".to_owned(),
                entry(SupportQuality::Emulated, rosetta, 0)
            ),
        ]
    );
}

#[test]
fn windows_archive_covers_arm_and_mingw() {
    let conds = no_conditions();
    let res = supports(1, &archive(&["x86_64-pc-windows-msvc"], conds));
    assert_eq!(
        res,
        vec![
            (
                "x86_64-pc-windows-msvc".to_owned(),
                entry(SupportQuality::HostNative, conds, 1)
            ),
            (
                "aarch64-pc-windows-msvc".to_owned(),
                entry(SupportQuality::Emulated, conds, 1)
            ),
            (
                "x86_64-pc-windows-gnu".to_owned(),
                entry(SupportQuality::ImperfectNative, conds, 1)
            ),
        ]
    );
}

#[test]
fn runtime_conditions_merge_takes_newest_libc() {
    let v228 = LibcVersion::glibc_from_parts(2, 28);
    let v231 = LibcVersion::glibc_from_parts(2, 31);
    assert_eq!(max_of_min_libc_versions(&Some(v228), &Some(v231)), Some(v231));
    assert_eq!(max_of_min_libc_versions(&Some(v231), &Some(v228)), Some(v231));
    assert_eq!(max_of_min_libc_versions(&None, &Some(v228)), Some(v228));
    assert_eq!(max_of_min_libc_versions(&None, &None), None);

    let mut a = RuntimeConditions {
        min_glibc_version: Some(v228),
        min_musl_version: None,
        rosetta2: false,
    };
    let b = RuntimeConditions {
        min_glibc_version: Some(v231),
        min_musl_version: Some(LibcVersion::glibc_from_parts(1, 2)),
        rosetta2: true,
    };
    a.merge(&b);
    assert_eq!(a, b);
    // merging again changes nothing
    let before = a;
    a.merge(&before);
    assert_eq!(a, before);
}

#[test]
fn default_glibc_is_ubuntu_20_04() {
    let v = LibcVersion::default_glibc();
    assert_eq!((v.major, v.series), (2, 31));
}

#[test]
fn glibc_binaries_need_their_build_glibc() {
    let built = AssetLinkage {
        links_glibc: true,
        build_glibc: Some(LibcVersion { major: 2, series: 35 }),
    };
    assert_eq!(
        native_glibc_version(&built),
        Some(LibcVersion { major: 2, series: 35 })
    );
    let unknown = AssetLinkage {
        links_glibc: true,
        build_glibc: None,
    };
    assert_eq!(
        native_glibc_version(&unknown),
        Some(LibcVersion { major: 2, series: 31 })
    );
    let static_binary = AssetLinkage {
        links_glibc: false,
        build_glibc: Some(LibcVersion { major: 2, series: 35 }),
    };
    assert_eq!(native_glibc_version(&static_binary), None);
    assert_eq!(native_runtime_conditions_for_asset(&None), RuntimeConditions::default());
}

#[test]
fn artifact_conditions_take_the_newest_glibc() {
    let assets = vec![
        Some(AssetLinkage {
            links_glibc: true,
            build_glibc: Some(LibcVersion { major: 2, series: 28 }),
        }),
        None,
        Some(AssetLinkage {
            links_glibc: true,
            build_glibc: Some(LibcVersion { major: 2, series: 35 }),
        }),
    ];
    let c = native_runtime_conditions_for_artifact("app-x86_64-unknown-linux-gnu.tar.xz", &assets);
    assert_eq!(c.min_glibc_version, Some(LibcVersion { major: 2, series: 35 }));
    assert_eq!(c.min_musl_version, None);
    assert!(!c.rosetta2);
}

#[test]
fn linux_gnu_artifacts_default_to_ubuntu_glibc() {
    let c = native_runtime_conditions_for_artifact("app-x86_64-unknown-linux-gnu.tar.xz", &vec![]);
    assert_eq!(c.min_glibc_version, Some(LibcVersion { major: 2, series: 31 }));
    let musl = native_runtime_conditions_for_artifact("app-x86_64-unknown-linux-musl.tar.xz", &vec![]);
    assert_eq!(musl.min_glibc_version, None);
    let mac = native_runtime_conditions_for_artifact("app-aarch64-apple-darwin.tar.xz", &vec![None]);
    assert_eq!(mac, RuntimeConditions::default());
}

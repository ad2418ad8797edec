use cargo_dist::config::{
    ChecksumStyle, CiStyle, CompressionImpl, GithubRepoPair, HostingStyle, InstallPathStrategy,
    InstallerStyle, JobStyle, LibraryStyle, PublishStyle, ZipStyle, ConfigVersion,
};
use cargo_dist::commands::LinkageArgs;
use cargo_dist::config::v1::layer::BoolOr;
use cargo_dist::init::interactive::installer_wanted;
use cargo_dist::errors::DistError;
use cargo_dist::net::ClientSettings;

#[test]
fn ci_style_names() {
    assert_eq!(CiStyle::from_str("github").unwrap(), CiStyle::Github);
    assert_eq!(CiStyle::Github.to_string(), "github");
    let err = CiStyle::from_str("gitlab").unwrap_err();
    assert_eq!(err.to_string(), "gitlab is not a recognized ci provider");
}

#[test]
fn hosting_style_names_roundtrip() {
    for style in [HostingStyle::Github, HostingStyle::Axodotdev] {
        assert_eq!(HostingStyle::from_str(&style.to_string()).unwrap(), style);
    }
    assert!(matches!(
        HostingStyle::from_str("gitlab"),
        Err(DistError::UnrecognizedHostingStyle { .. })
    ));
}

#[test]
fn library_style_names_roundtrip() {
    for style in [LibraryStyle::CDynamic, LibraryStyle::CStatic] {
        assert_eq!(LibraryStyle::from_str(&style.to_string()).unwrap(), style);
    }
    assert_eq!(
        LibraryStyle::from_str("dll").unwrap_err().to_string(),
        "dll is not a recognized type of library"
    );
}

#[test]
fn job_and_publish_styles() {
    let job = JobStyle::from_str("./my-job").unwrap();
    assert_eq!(job.to_string(), "./my-job");
    assert!(JobStyle::from_str("my-job").is_err());
    assert!(matches!(PublishStyle::from_str("homebrew").unwrap(), PublishStyle::Homebrew));
    assert!(matches!(PublishStyle::from_str("npm").unwrap(), PublishStyle::Npm));
    match PublishStyle::from_str("./publish-it").unwrap() {
        PublishStyle::User(s) => assert_eq!(s, "publish-it"),
        _ => panic!("expected a user job"),
    }
    assert_eq!(PublishStyle::User("x".to_owned()).to_string(), "./x");
}

#[test]
fn zip_style_extensions() {
    assert_eq!(ZipStyle::Zip.ext(), ".zip");
    assert_eq!(ZipStyle::Tar(CompressionImpl::Gzip).ext(), ".tar.gz");
    assert_eq!(ZipStyle::Tar(CompressionImpl::Xzip).ext(), ".tar.xz");
    assert_eq!(ZipStyle::Tar(CompressionImpl::Zstd).ext(), ".tar.zst");
    assert_eq!(ZipStyle::TempDir.ext(), "");
    assert_eq!(
        ZipStyle::from_ext(".tar.zstd").unwrap(),
        ZipStyle::Tar(CompressionImpl::Zstd)
    );
    let err = ZipStyle::from_ext(".rar").unwrap_err();
    assert_eq!(
        err.to_string(),
        "unknown archive format .rar, expected one of: .zip, .tar.gz, .tar.xz, .tar.zstd, .tar.zst"
    );
}

#[test]
fn checksum_extensions() {
    assert_eq!(ChecksumStyle::Sha256.ext(), "sha256");
    assert_eq!(ChecksumStyle::Sha3_512.ext(), "sha3-512");
    assert_eq!(ChecksumStyle::Blake2b.ext(), "blake2b");
}

#[test]
fn install_paths() {
    assert!(matches!(
        InstallPathStrategy::default_list().as_slice(),
        [InstallPathStrategy::CargoHome]
    ));
    let p = InstallPathStrategy::from_str("~/.my-app/bin/").unwrap();
    assert_eq!(p.to_string(), "~/.my-app/bin");
    let p = InstallPathStrategy::from_str("$MY_HOME/bin").unwrap();
    assert_eq!(p.to_string(), "$MY_HOME/bin");
    assert!(matches!(
        InstallPathStrategy::from_str("$MY_HOME"),
        Err(DistError::InstallPathEnvSlash { .. })
    ));
    assert!(matches!(
        InstallPathStrategy::from_str("~/"),
        Err(DistError::InstallPathHomeSubdir { .. })
    ));
    assert!(matches!(
        InstallPathStrategy::from_str("/usr/bin"),
        Err(DistError::InstallPathInvalid { .. })
    ));
}

#[test]
fn github_repo_pairs() {
    let pair = GithubRepoPair::from_str("axodotdev/cargo-dist").unwrap();
    assert_eq!(pair.owner, "axodotdev");
    assert_eq!(pair.repo, "cargo-dist");
    assert_eq!(pair.to_string(), "axodotdev/cargo-dist");
    assert!(GithubRepoPair::from_str("no-slash").is_err());
}

#[test]
fn config_version_defaults_to_v1() {
    assert_eq!(ConfigVersion::default(), ConfigVersion::V1);
    assert_eq!(ConfigVersion::V1.to_string(), "1");
}

#[test]
fn client_settings_are_uniform() {
    assert_eq!(ClientSettings::new(), ClientSettings::default());
}

#[test]
fn linkage_prints_human_output_unless_json_is_asked_for() {
    let none = LinkageArgs::from_flags(false, false, None);
    assert!(none.print_output);
    assert!(!none.print_json);
    let json = LinkageArgs::from_flags(false, true, Some("linkage.json".to_string()));
    assert!(!json.print_output);
    assert!(json.print_json);
    assert_eq!(json.from_json.as_deref(), Some("linkage.json"));
    let both = LinkageArgs::from_flags(true, true, None);
    assert!(both.print_output && both.print_json);
}

#[test]
fn installer_wanted_follows_the_selection() {
    let known = [InstallerStyle::Shell, InstallerStyle::Powershell, InstallerStyle::Npm];
    let selected = vec![0, 2];
    assert!(matches!(installer_wanted::<()>(&selected, &known, "shell"), Some(BoolOr::Bool(true))));
    assert!(installer_wanted::<()>(&selected, &known, "powershell").is_none());
    assert!(matches!(installer_wanted::<()>(&selected, &known, "npm"), Some(BoolOr::Bool(true))));
    // An installer that is not offered is left unset.
    assert!(installer_wanted::<()>(&selected, &known, "msi").is_none());
}

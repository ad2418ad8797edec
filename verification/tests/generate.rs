use cargo_dist::config::{DirtyMode, GenerateMode};
use cargo_dist::errors::DistError;
use cargo_dist::generate::modes_to_generate;

#[test]
fn no_modes_means_every_mode_not_allowed_dirty() {
    let all = modes_to_generate(&vec![], &DirtyMode::AllowList(vec![])).ok().unwrap();
    assert_eq!(all, vec![GenerateMode::Ci, GenerateMode::Msi]);
    let no_ci = modes_to_generate(&vec![], &DirtyMode::AllowList(vec![GenerateMode::Ci]))
        .ok()
        .unwrap();
    assert_eq!(no_ci, vec![GenerateMode::Msi]);
    assert!(modes_to_generate(&vec![], &DirtyMode::AllowAll)
        .ok()
        .unwrap()
        .is_empty());
}

#[test]
fn explicit_modes_run_in_order() {
    let modes = vec![GenerateMode::Msi, GenerateMode::Ci];
    let r = modes_to_generate(&modes, &DirtyMode::AllowList(vec![])).ok().unwrap();
    assert_eq!(r, vec![GenerateMode::Msi, GenerateMode::Ci]);
    // Everything allowed to be dirty: nothing to run, and no contradiction.
    assert!(modes_to_generate(&modes, &DirtyMode::AllowAll)
        .ok()
        .unwrap()
        .is_empty());
}

#[test]
fn asking_for_an_allow_dirty_mode_is_a_contradiction() {
    let modes = vec![GenerateMode::Ci, GenerateMode::Msi];
    match modes_to_generate(&modes, &DirtyMode::AllowList(vec![GenerateMode::Msi])) {
        Err(e @ DistError::ContradictoryGenerateModes { .. }) => {
            assert!(matches!(
                e,
                DistError::ContradictoryGenerateModes {
                    generate_mode: GenerateMode::Msi
                }
            ));
            assert_eq!(
                e.to_string(),
                "'msi' is marked as allow-dirty in your dist config, refusing to run"
            );
        }
        other => panic!("unexpected {other:?}"),
    }
}

fn v(text: &str) -> semver::Version {
    semver::Version::parse(text).unwrap()
}

#[test]
fn preflight_refuses_a_mismatched_dist_version() {
    let allow = DirtyMode::AllowList(vec![]);
    match cargo_dist::generate::generate_preflight_checks(&Some(v("0.27.0")), &v("0.28.0"), &allow, true) {
        Err(DistError::MismatchedDistVersion {
            config_version,
            running_version,
        }) => {
            assert_eq!(config_version, "0.27.0");
            assert_eq!(running_version, "0.28.0");
        }
        other => panic!("unexpected {other:?}"),
    }
}

#[test]
fn preflight_accepts_testing_versions_and_allow_all() {
    let allow = DirtyMode::AllowList(vec![]);
    assert!(cargo_dist::generate::generate_preflight_checks(
        &Some(v("0.27.0-github-branch")),
        &v("0.28.0"),
        &allow,
        true
    )
    .is_ok());
    assert!(cargo_dist::generate::generate_preflight_checks(
        &Some(v("0.27.0")),
        &v("0.28.0"),
        &DirtyMode::AllowAll,
        true
    )
    .is_ok());
    assert!(
        cargo_dist::generate::generate_preflight_checks(&None, &v("0.28.0"), &allow, true).is_ok()
    );
}

#[test]
fn preflight_needs_init() {
    let allow = DirtyMode::AllowList(vec![]);
    assert!(matches!(
        cargo_dist::generate::generate_preflight_checks(&Some(v("0.28.0")), &v("0.28.0"), &allow, false),
        Err(DistError::NeedsInit)
    ));
}

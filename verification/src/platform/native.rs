//! The runtime conditions that built binaries put on the machines they run on

use vstd::prelude::*;

use super::{LibcVersion, RuntimeConditions};
use crate::strings::{seq_has_infix, str_contains};

verus! {

/// What the runtime conditions of a built binary are read from
#[derive(Debug, Clone, Copy, PartialEq, Eq, Structural)]
pub struct AssetLinkage {
    /// Whether it links against glibc
    pub links_glibc: bool,
    /// The glibc of the Linux machine it was built on, if that is known
    pub build_glibc: Option<LibcVersion>,
}

/// The glibc a binary needs: the one it was built against if known (else
/// Ubuntu 20.04's as a guess), and none if it does not link against glibc
pub open spec fn native_glibc_spec(linkage: AssetLinkage) -> Option<LibcVersion> {
    if linkage.links_glibc {
        match linkage.build_glibc {
            Some(v) => Some(v),
            None => Some(LibcVersion { major: 2, series: 31 }),
        }
    } else {
        None
    }
}

/// Get the native glibc version this binary links against, to the best of our ability
pub fn native_glibc_version(linkage: &AssetLinkage) -> (r: Option<LibcVersion>)
    ensures
        r == native_glibc_spec(*linkage),
{
    // If this links against glibc, then we need to require that
    if linkage.links_glibc {
        match linkage.build_glibc {
            // If there's a system libc, assume that's what it was built against
            Some(v) => Some(v),
            // If the system has no known libc version use Ubuntu 20.04's glibc as a guess
            None => Some(LibcVersion::default_glibc()),
        }
    } else {
        None
    }
}

/// The conditions of one binary (none when its linkage is not known)
pub open spec fn asset_conditions_spec(asset: Option<AssetLinkage>) -> RuntimeConditions {
    match asset {
        Some(linkage) => RuntimeConditions {
            min_glibc_version: native_glibc_spec(linkage),
            // The musl version is not known yet
            min_musl_version: None,
            // rosetta2 is never required to run a binary on its *host* platform
            rosetta2: false,
        },
        None => RuntimeConditions::none(),
    }
}

/// The conditions of one binary (none when its linkage is not known)
pub fn native_runtime_conditions_for_asset(asset: &Option<AssetLinkage>) -> (r: RuntimeConditions)
    ensures
        r == asset_conditions_spec(*asset),
{
    match asset {
        Some(linkage) => RuntimeConditions {
            min_glibc_version: native_glibc_version(linkage),
            min_musl_version: None,
            rosetta2: false,
        },
        None => RuntimeConditions::default(),
    }
}

/// The conditions of the binaries merged, in order
pub open spec fn assets_conditions_spec(assets: Seq<Option<AssetLinkage>>) -> RuntimeConditions
    decreases assets.len(),
{
    if assets.len() == 0 {
        RuntimeConditions::none()
    } else {
        assets_conditions_spec(assets.drop_last()).merged(asset_conditions_spec(assets.last()))
    }
}

/// The conditions of an artifact: those of its binaries merged, and for a
/// Linux GNU artifact with no known glibc, Ubuntu 20.04's glibc
pub open spec fn artifact_conditions_spec(artifact_id: Seq<char>, assets: Seq<Option<AssetLinkage>>) -> RuntimeConditions {
    let merged = assets_conditions_spec(assets);
    if seq_has_infix(artifact_id, "linux"@) && seq_has_infix(artifact_id, "-gnu"@)
        && merged.min_glibc_version is None {
        RuntimeConditions { min_glibc_version: Some(LibcVersion { major: 2, series: 31 }), ..merged }
    } else {
        merged
    }
}

/// The conditions of the artifact `artifact_id`, whose binaries have the
/// linkage `assets`
pub fn native_runtime_conditions_for_artifact(artifact_id: &str, assets: &Vec<Option<AssetLinkage>>) -> (r:
    RuntimeConditions)
    ensures
        r == artifact_conditions_spec(artifact_id@, assets@),
{
    let mut runtime_conditions = RuntimeConditions::default();
    let mut i: usize = 0;
    while i < assets.len()
        invariant
            i <= assets@.len(),
            runtime_conditions == assets_conditions_spec(assets@.take(i as int)),
        decreases assets.len() - i,
    {
        proof {
            assert(assets@.take(i + 1).drop_last() =~= assets@.take(i as int));
        }
        let asset_conditions = native_runtime_conditions_for_asset(&assets[i]);
        runtime_conditions.merge(&asset_conditions);
        i = i + 1;
    }
    assert(assets@.take(assets@.len() as int) =~= assets@);
    // FIXME: in our test suite we're running bare artifacts=global so we're missing
    // all artifact/linkage info, preventing basic glibc bounds
    if str_contains(artifact_id, "linux") && str_contains(artifact_id, "-gnu")
        && runtime_conditions.min_glibc_version.is_none() {
        runtime_conditions.min_glibc_version = Some(LibcVersion::default_glibc());
    }
    runtime_conditions
}

} // verus!

//! Decisions made before generating: the targets offered by default, and
//! whether generation may go ahead.

use vstd::prelude::*;

use crate::config::{DirtyMode, GenerateMode};
use crate::errors::{DistError, DistResult};
use crate::platform::targets::{
    TARGET_ARM64_LINUX_GNU, TARGET_ARM64_MAC, TARGET_ARM64_WINDOWS, TARGET_X64_LINUX_GNU,
    TARGET_X64_LINUX_MUSL, TARGET_X64_MAC, TARGET_X64_WINDOWS,
};
use crate::strings::{owned, str_strip_prefix};

verus! {

/// The parts a `semver::Version` holds: major, minor and patch numbers,
/// and the pre-release and build identifiers as text
pub uninterp spec fn version_parts(v: semver::Version) -> (u64, u64, u64, Seq<char>, Seq<char>);

/// A number in decimal digits
pub open spec fn decimal_text(n: nat) -> Seq<char>
    decreases n,
{
    if n < 10 {
        seq![((n + 48) as char)]
    } else {
        decimal_text(n / 10) + seq![(((n % 10) + 48) as char)]
    }
}

/// The text of a version in SemVer syntax (`semver::Version`'s `Display`):
/// `major.minor.patch`, then `-pre` and `+build` where they are not empty
pub open spec fn version_text(v: semver::Version) -> Seq<char> {
    let (major, minor, patch, pre, build) = version_parts(v);
    decimal_text(major as nat) + "."@ + decimal_text(minor as nat) + "."@ + decimal_text(
        patch as nat,
    ) + (if pre.len() > 0 {
        "-"@ + pre
    } else {
        Seq::empty()
    }) + (if build.len() > 0 {
        "+"@ + build
    } else {
        Seq::empty()
    })
}

/// Whether two versions are the same version (`semver::Version`'s `==`):
/// all their parts are the same
pub open spec fn same_version(a: semver::Version, b: semver::Version) -> bool {
    version_parts(a) == version_parts(b)
}

/// The pre-release part of a version, as text
pub open spec fn prerelease_text(v: semver::Version) -> Seq<char> {
    version_parts(v).3
}

/// `semver::Version::to_string`: `major.minor.patch` in decimal, then `-`
/// and the pre-release identifiers, and `+` and the build metadata, each
/// where it is not empty (semver's `Display`, without padding).
#[verifier::external_body]
pub(crate) fn version_to_string(v: &semver::Version) -> (r: String)
    ensures
        r@ == version_text(*v),
{
    v.to_string()
}

/// `semver::Version == semver::Version`: the derived `==` compares the
/// numbers, and the pre-release and build identifiers by their text, so two
/// versions are equal exactly when all their parts are.
#[verifier::external_body]
pub(crate) fn versions_equal(a: &semver::Version, b: &semver::Version) -> (r: bool)
    ensures
        r == (version_parts(*a) == version_parts(*b)),
        *a == *b ==> r,
{
    a == b
}

/// `semver::Version::pre` as text: the pre-release identifiers of the version.
#[verifier::external_body]
pub(crate) fn version_prerelease(v: &semver::Version) -> (r: String)
    ensures
        r@ == version_parts(*v).3,
{
    v.pre.as_str().to_owned()
}

/// The targets to offer by default
pub fn default_desktop_targets() -> (r: Vec<String>)
    ensures
        r@.map_values(|t: String| t@) == seq![
            TARGET_X64_LINUX_GNU@,
            TARGET_X64_WINDOWS@,
            TARGET_X64_MAC@,
            TARGET_ARM64_MAC@,
            TARGET_ARM64_LINUX_GNU@,
        ],
{
    // Everyone can build x64!
    let r = vec![
        owned(TARGET_X64_LINUX_GNU),
        owned(TARGET_X64_WINDOWS),
        owned(TARGET_X64_MAC),
        owned(TARGET_ARM64_MAC),
        owned(TARGET_ARM64_LINUX_GNU),
    ];
    assert(r@.map_values(|t: String| t@) =~= seq![
        TARGET_X64_LINUX_GNU@,
        TARGET_X64_WINDOWS@,
        TARGET_X64_MAC@,
        TARGET_ARM64_MAC@,
        TARGET_ARM64_LINUX_GNU@,
    ]);
    r
}

/// The targets we know how to build for
pub fn known_desktop_targets() -> (r: Vec<String>)
    ensures
        r@.map_values(|t: String| t@) == seq![
            TARGET_X64_LINUX_GNU@,
            TARGET_X64_LINUX_MUSL@,
            TARGET_X64_WINDOWS@,
            TARGET_X64_MAC@,
            TARGET_ARM64_MAC@,
            TARGET_ARM64_LINUX_GNU@,
            TARGET_ARM64_WINDOWS@,
        ],
{
    let r = vec![
        owned(TARGET_X64_LINUX_GNU),
        owned(TARGET_X64_LINUX_MUSL),
        owned(TARGET_X64_WINDOWS),
        owned(TARGET_X64_MAC),
        owned(TARGET_ARM64_MAC),
        owned(TARGET_ARM64_LINUX_GNU),
        owned(TARGET_ARM64_WINDOWS),
    ];
    assert(r@.map_values(|t: String| t@) =~= seq![
        TARGET_X64_LINUX_GNU@,
        TARGET_X64_LINUX_MUSL@,
        TARGET_X64_WINDOWS@,
        TARGET_X64_MAC@,
        TARGET_ARM64_MAC@,
        TARGET_ARM64_LINUX_GNU@,
        TARGET_ARM64_WINDOWS@,
    ]);
    r
}

/// What the preflight check needs to know of the configured dist version
#[derive(Debug)]
pub struct DesiredVersionFacts {
    /// Whether it is the version running
    pub same_as_running: bool,
    /// Its pre-release part
    pub prerelease: String,
    /// It, as written
    pub config_version: String,
    /// The running version, as written
    pub running_version: String,
}

/// Whether these facts about the configured version rule out generating:
/// it differs from the running one, is not a `github-` testing pre-release,
/// and dirtiness is not allowed everywhere
pub open spec fn facts_mismatch(desired: Option<DesiredVersionFacts>, allow_dirty: DirtyMode) -> bool {
    match desired {
        Some(d) => !d.same_as_running && !"github-"@.is_prefix_of(d.prerelease@)
            && !(allow_dirty is AllowAll),
        None => false,
    }
}

/// The verdict of the checks made before generating, from the facts about
/// the configured dist version (if one is configured)
pub fn check_preflight(desired: Option<DesiredVersionFacts>, allow_dirty: &DirtyMode, is_init: bool) -> (r:
    DistResult<()>)
    ensures
        facts_mismatch(desired, *allow_dirty) ==> (r matches Err(
            DistError::MismatchedDistVersion { config_version, running_version },
        ) && config_version == desired->0.config_version && running_version
            == desired->0.running_version),
        !facts_mismatch(desired, *allow_dirty) && !is_init ==> r matches Err(DistError::NeedsInit),
        !facts_mismatch(desired, *allow_dirty) && is_init ==> r is Ok,
{
    // Enforce cargo-dist-version, unless...
    //
    // * It's a magic vX.Y.Z-github-BRANCHNAME version,
    //   which we use for testing against a PR branch. In that case the current_version
    //   should be irrelevant (so sayeth the person who made and uses this feature).
    //
    // * The user passed --allow-dirty to the CLI (probably means it's our own tests)
    if let Some(facts) = desired {
        let is_github_pre = str_strip_prefix(facts.prerelease.as_str(), "github-").is_some();
        let allow_all = match allow_dirty {
            DirtyMode::AllowAll => true,
            DirtyMode::AllowList(_) => false,
        };
        if !facts.same_as_running && !is_github_pre && !allow_all {
            return Err(
                DistError::MismatchedDistVersion {
                    config_version: facts.config_version,
                    running_version: facts.running_version,
                },
            );
        }
    }
    if !is_init {
        return Err(DistError::NeedsInit);
    }
    Ok(())
}

/// Whether the configured dist version rules out generating with the
/// running one: it differs, is not a `github-` testing pre-release, and
/// dirtiness is not allowed everywhere
pub open spec fn version_mismatch(
    desired: Option<semver::Version>,
    current: semver::Version,
    allow_dirty: DirtyMode,
) -> bool {
    match desired {
        Some(d) => !same_version(d, current) && !"github-"@.is_prefix_of(prerelease_text(d))
            && !(allow_dirty is AllowAll),
        None => false,
    }
}

/// Checks made before generating: the configured dist version must be the
/// one running (unless it is a `vX.Y.Z-github-BRANCHNAME` testing version,
/// or everything may be dirty), and the workspace must have been initialized
pub fn generate_preflight_checks(
    desired: &Option<semver::Version>,
    current: &semver::Version,
    allow_dirty: &DirtyMode,
    is_init: bool,
) -> (r: DistResult<()>)
    ensures
        version_mismatch(*desired, *current, *allow_dirty) ==> (r matches Err(
            DistError::MismatchedDistVersion { config_version, running_version },
        ) && config_version@ == version_text(desired->0) && running_version@ == version_text(
            *current,
        )),
        !version_mismatch(*desired, *current, *allow_dirty) && !is_init ==> r matches Err(
            DistError::NeedsInit,
        ),
        !version_mismatch(*desired, *current, *allow_dirty) && is_init ==> r is Ok,
{
    let facts = match desired {
        Some(desired_version) => Some(
            DesiredVersionFacts {
                same_as_running: versions_equal(desired_version, current),
                prerelease: version_prerelease(desired_version),
                config_version: version_to_string(desired_version),
                running_version: version_to_string(current),
            },
        ),
        None => None,
    };
    check_preflight(facts, allow_dirty, is_init)
}


/// The modes `dist generate` considers: the ones asked for, or every mode
/// when none is asked for
pub open spec fn requested_modes(modes: Seq<GenerateMode>) -> Seq<GenerateMode> {
    if modes.len() == 0 {
        seq![GenerateMode::Ci, GenerateMode::Msi]
    } else {
        modes
    }
}

/// Whether asking for `mode` contradicts the config, which lists it as
/// allowed to be dirty
pub open spec fn contradicts(allow_dirty: DirtyMode, mode: GenerateMode) -> bool {
    !allow_dirty.should_run_spec(mode) && allow_dirty is AllowList
}

/// The first of `modes` that contradicts the config, if any
pub open spec fn first_contradiction(modes: Seq<GenerateMode>, allow_dirty: DirtyMode) -> Option<GenerateMode>
    decreases modes.len(),
{
    if modes.len() == 0 {
        None
    } else {
        match first_contradiction(modes.drop_last(), allow_dirty) {
            Some(m) => Some(m),
            None => if contradicts(allow_dirty, modes.last()) {
                Some(modes.last())
            } else {
                None
            },
        }
    }
}

/// The modes of `modes` that are not allowed to be dirty, in order
pub open spec fn runnable_modes(modes: Seq<GenerateMode>, allow_dirty: DirtyMode) -> Seq<GenerateMode>
    decreases modes.len(),
{
    if modes.len() == 0 {
        Seq::empty()
    } else {
        let rest = runnable_modes(modes.drop_last(), allow_dirty);
        if allow_dirty.should_run_spec(modes.last()) {
            rest.push(modes.last())
        } else {
            rest
        }
    }
}

/// The modes `dist generate` runs, in order: of the modes asked for (every
/// mode when none is), those not allowed to be dirty. Asking explicitly for
/// a mode that the config lists as allowed to be dirty is an error.
pub fn modes_to_generate(modes: &Vec<GenerateMode>, allow_dirty: &DirtyMode) -> (r: DistResult<Vec<GenerateMode>>)
    ensures
        modes@.len() > 0 && first_contradiction(modes@, *allow_dirty) is Some ==> (r matches Err(
            DistError::ContradictoryGenerateModes { generate_mode },
        ) && generate_mode == first_contradiction(modes@, *allow_dirty)->0),
        !(modes@.len() > 0 && first_contradiction(modes@, *allow_dirty) is Some) ==> (r matches Ok(v)
            && v@ == runnable_modes(requested_modes(modes@), *allow_dirty)),
{
    // If specific modes are specified, operate *only* on those modes
    // Otherwise, choose any modes that are appropriate
    let inferred = modes.len() == 0;
    let requested: Vec<GenerateMode> = if inferred {
        vec![GenerateMode::Ci, GenerateMode::Msi]
    } else {
        let allow_list = match allow_dirty {
            DirtyMode::AllowList(_) => true,
            DirtyMode::AllowAll => false,
        };
        // Check that we're not being told to do a contradiction
        let mut i: usize = 0;
        while i < modes.len()
            invariant
                i <= modes@.len(),
                allow_list == (*allow_dirty is AllowList),
                first_contradiction(modes@.take(i as int), *allow_dirty) is None,
            decreases modes.len() - i,
        {
            proof {
                assert(modes@.take(i + 1).drop_last() =~= modes@.take(i as int));
            }
            let mode = modes[i];
            if !allow_dirty.should_run(mode) && allow_list {
                proof {
                    assert(modes@.take(i + 1).last() == mode);
                    lemma_first_contradiction_prefix(modes@, *allow_dirty, i as int + 1);
                }
                return Err(DistError::ContradictoryGenerateModes { generate_mode: mode });
            }
            i = i + 1;
        }
        assert(modes@.take(modes@.len() as int) =~= modes@);
        let mut copy: Vec<GenerateMode> = Vec::new();
        let mut j: usize = 0;
        while j < modes.len()
            invariant
                j <= modes@.len(),
                copy@ =~= modes@.take(j as int),
            decreases modes.len() - j,
        {
            copy.push(modes[j]);
            j = j + 1;
        }
        copy
    };
    assert(requested@ =~= requested_modes(modes@));
    let mut out: Vec<GenerateMode> = Vec::new();
    let mut k: usize = 0;
    while k < requested.len()
        invariant
            k <= requested@.len(),
            out@ == runnable_modes(requested@.take(k as int), *allow_dirty),
        decreases requested.len() - k,
    {
        proof {
            assert(requested@.take(k + 1).drop_last() =~= requested@.take(k as int));
        }
        if allow_dirty.should_run(requested[k]) {
            out.push(requested[k]);
        }
        k = k + 1;
    }
    assert(requested@.take(requested@.len() as int) =~= requested@);
    Ok(out)
}

/// A contradiction found in a prefix is the first one of the whole list
proof fn lemma_first_contradiction_prefix(modes: Seq<GenerateMode>, allow_dirty: DirtyMode, n: int)
    requires
        0 < n <= modes.len(),
        first_contradiction(modes.take(n), allow_dirty) is Some,
    ensures
        first_contradiction(modes, allow_dirty) == first_contradiction(modes.take(n), allow_dirty),
    decreases modes.len() - n,
{
    if n < modes.len() {
        assert(modes.take(n + 1).drop_last() =~= modes.take(n));
        lemma_first_contradiction_prefix(modes, allow_dirty, n + 1);
    } else {
        assert(modes.take(n) =~= modes);
    }
}

} // verus!

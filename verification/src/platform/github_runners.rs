//! Statically-known information about various GitHub Actions runner names

use vstd::prelude::*;

use crate::strings::{str_contains, str_ends_with, str_eq, str_strip_prefix};

use super::targets::{TARGET_ARM64_LINUX_GNU, TARGET_ARM64_MAC, TARGET_X64_LINUX_GNU, TARGET_X64_MAC, TARGET_X64_WINDOWS};

verus! {

/// The host target of a well-known GitHub runner image, if it is one
pub open spec fn known_runner_target(runner: Seq<char>) -> Option<Seq<char>> {
    if runner == "ubuntu-20.04"@ {
        Some(TARGET_X64_LINUX_GNU@)
    } else if runner == "ubuntu-22.04"@ {
        Some(TARGET_X64_LINUX_GNU@)
    } else if runner == "ubuntu-24.04"@ {
        Some(TARGET_X64_LINUX_GNU@)
    } else if runner == "ubuntu-latest"@ {
        Some(TARGET_X64_LINUX_GNU@)
    } else if runner == "windows-2019"@ {
        Some(TARGET_X64_WINDOWS@)
    } else if runner == "windows-2022"@ {
        Some(TARGET_X64_WINDOWS@)
    } else if runner == "windows-latest"@ {
        Some(TARGET_X64_WINDOWS@)
    } else if runner == "macos-12"@ {
        Some(TARGET_X64_MAC@)
    } else if runner == "macos-12-large"@ {
        Some(TARGET_X64_MAC@)
    } else if runner == "macos-13"@ {
        Some(TARGET_X64_MAC@)
    } else if runner == "macos-13-large"@ {
        Some(TARGET_X64_MAC@)
    } else if runner == "macos-14-large"@ {
        Some(TARGET_X64_MAC@)
    } else if runner == "macos-15-large"@ {
        Some(TARGET_X64_MAC@)
    } else if runner == "macos-latest-large"@ {
        Some(TARGET_X64_MAC@)
    } else if runner == "macos-13-xlarge"@ {
        Some(TARGET_ARM64_MAC@)
    } else if runner == "macos-14"@ {
        Some(TARGET_ARM64_MAC@)
    } else if runner == "macos-14-xlarge"@ {
        Some(TARGET_ARM64_MAC@)
    } else if runner == "macos-15"@ {
        Some(TARGET_ARM64_MAC@)
    } else if runner == "macos-15-xlarge"@ {
        Some(TARGET_ARM64_MAC@)
    } else if runner == "macos-latest"@ {
        Some(TARGET_ARM64_MAC@)
    } else if runner == "macos-latest-xlarge"@ {
        Some(TARGET_ARM64_MAC@)
    } else {
        None
    }
}

/// The host target GitHub runner `runner` is known to have
pub open spec fn runner_target_spec(runner: Seq<char>) -> Option<Seq<char>> {
    match known_runner_target(runner) {
        Some(t) => Some(t),
        None => if "buildjet-"@.is_prefix_of(runner) && crate::strings::seq_has_infix(
            runner.skip(9),
            "ubuntu"@,
        ) {
            if "-arm"@.is_suffix_of(runner.skip(9)) {
                Some(TARGET_ARM64_LINUX_GNU@)
            } else {
                Some(TARGET_X64_LINUX_GNU@)
            }
        } else {
            None
        },
    }
}

/// Look up a well-known runner image
fn known_github_runner(runner: &str) -> (r: Option<&'static str>)
    ensures
        match r {
            Some(t) => known_runner_target(runner@) == Some(t@),
            None => known_runner_target(runner@) is None,
        },
{
    if str_eq(runner, "ubuntu-20.04") {
        Some(TARGET_X64_LINUX_GNU)
    } else if str_eq(runner, "ubuntu-22.04") {
        Some(TARGET_X64_LINUX_GNU)
    } else if str_eq(runner, "ubuntu-24.04") {
        Some(TARGET_X64_LINUX_GNU)
    } else if str_eq(runner, "ubuntu-latest") {
        Some(TARGET_X64_LINUX_GNU)
    } else if str_eq(runner, "windows-2019") {
        Some(TARGET_X64_WINDOWS)
    } else if str_eq(runner, "windows-2022") {
        Some(TARGET_X64_WINDOWS)
    } else if str_eq(runner, "windows-latest") {
        Some(TARGET_X64_WINDOWS)
    } else if str_eq(runner, "macos-12") {
        Some(TARGET_X64_MAC)
    } else if str_eq(runner, "macos-12-large") {
        Some(TARGET_X64_MAC)
    } else if str_eq(runner, "macos-13") {
        Some(TARGET_X64_MAC)
    } else if str_eq(runner, "macos-13-large") {
        Some(TARGET_X64_MAC)
    } else if str_eq(runner, "macos-14-large") {
        Some(TARGET_X64_MAC)
    } else if str_eq(runner, "macos-15-large") {
        Some(TARGET_X64_MAC)
    } else if str_eq(runner, "macos-latest-large") {
        Some(TARGET_X64_MAC)
    } else if str_eq(runner, "macos-13-xlarge") {
        Some(TARGET_ARM64_MAC)
    } else if str_eq(runner, "macos-14") {
        Some(TARGET_ARM64_MAC)
    } else if str_eq(runner, "macos-14-xlarge") {
        Some(TARGET_ARM64_MAC)
    } else if str_eq(runner, "macos-15") {
        Some(TARGET_ARM64_MAC)
    } else if str_eq(runner, "macos-15-xlarge") {
        Some(TARGET_ARM64_MAC)
    } else if str_eq(runner, "macos-latest") {
        Some(TARGET_ARM64_MAC)
    } else if str_eq(runner, "macos-latest-xlarge") {
        Some(TARGET_ARM64_MAC)
    } else {
        None
    }
}

/// Get the target triple for a given GitHub Actions runner (if we know about it)
pub fn target_for_github_runner(runner: &str) -> (r: Option<&'static str>)
    ensures
        match r {
            Some(t) => runner_target_spec(runner@) == Some(t@),
            None => runner_target_spec(runner@) is None,
        },
{
    if let Some(target) = known_github_runner(runner) {
        return Some(target);
    }
    proof {
        reveal_strlit("buildjet-");
    }
    if let Some(rest) = str_strip_prefix(runner, "buildjet-") {
        assert(runner@.skip(9) =~= rest@);
        if str_contains(rest, "ubuntu") {
            if str_ends_with(rest, "-arm") {
                return Some(TARGET_ARM64_LINUX_GNU);
            } else {
                return Some(TARGET_X64_LINUX_GNU);
            }
        }
    }
    None
}

} // verus!

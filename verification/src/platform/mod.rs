//! Logic for computing how different platforms are supported by a project's archives.
//!
//! An archive built natively for one target can often serve other targets too:
//! linux-musl-static binaries work on linux-gnu, x64 macos binaries run on arm64
//! macos under Rosetta 2, and so on. [`supports`][] lists every target an archive
//! can serve, with the [`SupportQuality`][] of that support and the
//! [`RuntimeConditions`][] the installing system must meet.

use vstd::prelude::*;

use crate::config::ZipStyle;
use crate::strings::{concat2, concat3, owned, str_eq, str_strip_suffix};

pub mod github_runners;
pub mod native;
pub mod support;
pub mod targets;

use targets::{
    TARGET_ARM64_MAC, TARGET_ARM64_WINDOWS, TARGET_X64_MAC, TARGET_X64_WINDOWS, TARGET_X86_WINDOWS,
};

verus! {

/// Suffix of targets that refer to a statically linked linux libc
pub const LINUX_STATIC_LIBC: &'static str = "linux-musl-static";
/// Dynamically linked linux libc that a static libc can replace
pub const LINUX_GNU_LIBC: &'static str = "linux-gnu";
/// Dynamically linked linux libc that a static libc can replace
pub const LINUX_MUSL_DYNAMIC_LIBC: &'static str = "linux-musl-dynamic";
/// A fake target for apple's universal2 format (staples x64 and arm64 together)
pub const TARGET_MACOS_UNIVERSAL2: &'static str = "universal2-apple-darwin";

/// The quality of support an archive provides for a given platform
#[derive(Debug, Clone, Copy, PartialEq, Eq, Structural)]
pub enum SupportQuality {
    /// The archive natively supports this platform, there's no beating it
    HostNative,
    /// The archive natively supports this platform, but it's a Universal binary that contains
    /// multiple platforms stapled together, so if there are also more precise archives, prefer those.
    BulkyNative,
    /// The archive is still technically native to this platform, but it's in some sense
    /// imperfect. This solution is acceptable, but a HostNative (or BulkyNative) solution
    /// should always be preferred.
    ImperfectNative,
    /// The archive is only running by the grace of pretty heavyweight emulation like Rosetta2.
    /// This should be treated as a last resort, but hey, it works!
    Emulated,
    /// The layers of emulation are out of control.
    Hellmulated,
    /// STOP
    HighwayToHellmulated,
}

impl SupportQuality {
    /// Position of this quality from best (0) to worst
    pub open spec fn rank(self) -> int {
        match self {
            SupportQuality::HostNative => 0,
            SupportQuality::BulkyNative => 1,
            SupportQuality::ImperfectNative => 2,
            SupportQuality::Emulated => 3,
            SupportQuality::Hellmulated => 4,
            SupportQuality::HighwayToHellmulated => 5,
        }
    }

    /// Position of this quality from best (0) to worst
    pub fn rank_of(&self) -> (r: u8)
        ensures
            r == self.rank(),
    {
        match self {
            SupportQuality::HostNative => 0,
            SupportQuality::BulkyNative => 1,
            SupportQuality::ImperfectNative => 2,
            SupportQuality::Emulated => 3,
            SupportQuality::Hellmulated => 4,
            SupportQuality::HighwayToHellmulated => 5,
        }
    }
}

/// A unixy libc version
#[derive(Debug, Copy, Clone, PartialEq, Eq, Structural)]
pub struct LibcVersion {
    /// Major version
    pub major: u64,
    /// Series (minor) version
    pub series: u64,
}

/// `a` is no newer than `b` (compared by major, then series)
pub open spec fn libc_le(a: LibcVersion, b: LibcVersion) -> bool {
    a.major < b.major || (a.major == b.major && a.series <= b.series)
}

/// The newer of two versions
pub open spec fn libc_max(a: LibcVersion, b: LibcVersion) -> LibcVersion {
    if libc_le(a, b) {
        b
    } else {
        a
    }
}

impl LibcVersion {
    /// Get the default glibc version for cases where we just need to guess
    /// and make one up.
    ///
    /// This is the glibc of Ubuntu 20.04, which is the oldest supported
    /// github linux runner, as of this writing.
    pub fn default_glibc() -> (r: Self)
        ensures
            r == (LibcVersion { major: 2, series: 31 }),
    {
        Self { major: 2, series: 31 }
    }

    /// Build a glibc version from its parts
    pub fn glibc_from_parts(major: u64, series: u64) -> (r: Self)
        ensures
            r == (LibcVersion { major, series }),
    {
        Self { major, series }
    }

    /// `self` is no newer than `other`
    pub fn le(&self, other: &Self) -> (r: bool)
        ensures
            r == libc_le(*self, *other),
    {
        self.major < other.major || (self.major == other.major && self.series <= other.series)
    }
}

/// The minimum glibc version supported by the package, per target
pub type MinGlibcVersion = std::collections::BTreeMap<String, LibcVersion>;

/// Conditions that an installer should ideally check before using this an archive
#[derive(Debug, Clone, Copy, PartialEq, Eq, Structural)]
pub struct RuntimeConditions {
    /// The system glibc should be at least this version
    pub min_glibc_version: Option<LibcVersion>,
    /// The system musl libc should be at least this version
    pub min_musl_version: Option<LibcVersion>,
    /// Rosetta2 should be installed
    pub rosetta2: bool,
}

impl Default for RuntimeConditions {
    fn default() -> (r: Self)
        ensures
            r == RuntimeConditions::none(),
    {
        RuntimeConditions { min_glibc_version: None, min_musl_version: None, rosetta2: false }
    }
}

/// The combined minimum of two optional minimum versions
pub open spec fn max_of_min_spec(lhs: Option<LibcVersion>, rhs: Option<LibcVersion>) -> Option<
    LibcVersion,
> {
    match (lhs, rhs) {
        (None, None) => None,
        (Some(ver), None) => Some(ver),
        (None, Some(ver)) => Some(ver),
        (Some(l), Some(r)) => Some(libc_max(l, r)),
    }
}

impl RuntimeConditions {
    /// No conditions at all
    pub open spec fn none() -> RuntimeConditions {
        RuntimeConditions { min_glibc_version: None, min_musl_version: None, rosetta2: false }
    }

    /// The conditions that satisfy both `self` and `other`
    pub open spec fn merged(self, other: RuntimeConditions) -> RuntimeConditions {
        RuntimeConditions {
            min_glibc_version: max_of_min_spec(self.min_glibc_version, other.min_glibc_version),
            min_musl_version: max_of_min_spec(self.min_musl_version, other.min_musl_version),
            rosetta2: self.rosetta2 || other.rosetta2,
        }
    }

    /// Strengthen these conditions so they also satisfy `other`
    pub fn merge(&mut self, other: &Self)
        ensures
            *final(self) == old(self).merged(*other),
    {
        let RuntimeConditions { min_glibc_version, min_musl_version, rosetta2 } = other;

        self.min_glibc_version = max_of_min_libc_versions(&self.min_glibc_version, min_glibc_version);
        self.min_musl_version = max_of_min_libc_versions(&self.min_musl_version, min_musl_version);
        self.rosetta2 = self.rosetta2 || *rosetta2;
    }
}

/// Combine two min_libc_versions to get a new min that satisfies both
pub fn max_of_min_libc_versions(lhs: &Option<LibcVersion>, rhs: &Option<LibcVersion>) -> (r: Option<
    LibcVersion,
>)
    ensures
        r == max_of_min_spec(*lhs, *rhs),
{
    match (*lhs, *rhs) {
        (None, None) => None,
        (Some(ver), None) => Some(ver),
        (None, Some(ver)) => Some(ver),
        (Some(l), Some(r)) => if l.le(&r) {
            Some(r)
        } else {
            Some(l)
        },
    }
}

/// An entry describing how well an archive supports a platform
#[derive(Debug, Clone, Copy, PartialEq, Eq, Structural)]
pub struct PlatformEntry {
    /// The quality of the support (prefer more "native" support over "emulated"/"fallback")
    pub quality: SupportQuality,
    /// Conditions the system being installed to must satisfy for the install to work.
    pub runtime_conditions: RuntimeConditions,
    /// The archive
    pub archive_idx: usize,
}

/// An archive of the prebuilt binaries for an app that can be fetched
#[derive(Debug)]
pub struct FetchableArchive {
    /// The unique id (and filename) of the archive
    pub id: String,
    /// Runtime conditions that are native to this archive
    pub native_runtime_conditions: RuntimeConditions,
    /// "The" target triple to use
    pub target_triple: String,
    /// What target triples does this archive natively support
    pub target_triples: Vec<String>,
    /// The sha256sum of the archive
    pub sha256sum: Option<String>,
    /// The executables in the archive (may include .exe, assumed to be in root)
    pub executables: Vec<String>,
    /// The dynamic libraries in the archive (assumed to be in root)
    pub cdylibs: Vec<String>,
    /// The static libraries in the archive (assumed to be in root)
    pub cstaticlibs: Vec<String>,
    /// The kind of compression the archive has
    pub zip_style: ZipStyle,
    /// The updater you should also fetch if you install this archive
    pub updater: Option<usize>,
}

/// An updater for an app that can be fetched
#[derive(Debug, Clone)]
pub struct FetchableUpdater {
    /// The unique id (and filename) of the updater
    pub id: String,
    /// The binary name of the updater
    pub binary: String,
}

/// A (target, entry) pair as character sequences
pub type SupportView = (Seq<char>, PlatformEntry);

/// An entry for `archive_idx` at `quality` under `conditions`
pub open spec fn entry(quality: SupportQuality, conditions: RuntimeConditions, archive_idx: usize) -> PlatformEntry {
    PlatformEntry { quality, runtime_conditions: conditions, archive_idx }
}

/// The target with any `eabihf` suffix removed, and that suffix
pub open spec fn degunk(target: Seq<char>) -> (Seq<char>, Seq<char>) {
    if "eabihf"@.is_suffix_of(target) {
        (target.subrange(0, target.len() - 6), "eabihf"@)
    } else {
        (target, Seq::empty())
    }
}

/// The target (and degunked target) with a bare `musl` renamed to `musl-static`
pub open spec fn musl_renamed(target: Seq<char>) -> (Seq<char>, Seq<char>) {
    let (degunked, abigunk) = degunk(target);
    if "musl"@.is_suffix_of(degunked) {
        let system = degunked.subrange(0, degunked.len() - 4);
        (system + "musl-static"@ + abigunk, degunked + "-static"@)
    } else {
        (target, degunked)
    }
}

/// Every target the archive's native `target` supports, in the order they are listed
pub open spec fn supports_for_target(
    target: Seq<char>,
    conditions: RuntimeConditions,
    archive_idx: usize,
) -> Seq<SupportView> {
    let abigunk = degunk(target).1;
    let (target, degunked) = musl_renamed(target);
    let native = seq![(target, entry(SupportQuality::HostNative, conditions, archive_idx))];
    let static_libc = if LINUX_STATIC_LIBC@.is_suffix_of(degunked) {
        let system = degunked.subrange(0, degunked.len() - LINUX_STATIC_LIBC@.len());
        seq![
            (system + LINUX_GNU_LIBC@ + abigunk, entry(SupportQuality::ImperfectNative, conditions, archive_idx)),
            (system + LINUX_MUSL_DYNAMIC_LIBC@ + abigunk, entry(SupportQuality::ImperfectNative, conditions, archive_idx)),
        ]
    } else {
        Seq::empty()
    };
    let universal = if target == TARGET_MACOS_UNIVERSAL2@ {
        seq![
            (TARGET_X64_MAC@, entry(SupportQuality::BulkyNative, conditions, archive_idx)),
            (TARGET_ARM64_MAC@, entry(SupportQuality::BulkyNative, conditions, archive_idx)),
        ]
    } else {
        Seq::empty()
    };
    let rosetta = if target == TARGET_X64_MAC@ {
        seq![
            (TARGET_ARM64_MAC@, entry(SupportQuality::Emulated, RuntimeConditions { rosetta2: true, ..conditions }, archive_idx)),
        ]
    } else {
        Seq::empty()
    };
    let win32 = if target == TARGET_X86_WINDOWS@ {
        seq![(TARGET_X64_WINDOWS@, entry(SupportQuality::ImperfectNative, conditions, archive_idx))]
    } else {
        Seq::empty()
    };
    let chpe = if target == TARGET_X64_WINDOWS@ || target == TARGET_X86_WINDOWS@ {
        let quality = if target == TARGET_X86_WINDOWS@ {
            SupportQuality::Hellmulated
        } else {
            SupportQuality::Emulated
        };
        seq![(TARGET_ARM64_WINDOWS@, entry(quality, conditions, archive_idx))]
    } else {
        Seq::empty()
    };
    let mingw = if "windows-msvc"@.is_suffix_of(target) {
        let system = target.subrange(0, target.len() - 12);
        seq![(system + "windows-gnu"@, entry(SupportQuality::ImperfectNative, conditions, archive_idx))]
    } else {
        Seq::empty()
    };
    native + static_libc + universal + rosetta + win32 + chpe + mingw
}

/// Every (target, entry) the archive supports, target by target
pub open spec fn supports_spec(
    targets: Seq<Seq<char>>,
    conditions: RuntimeConditions,
    archive_idx: usize,
) -> Seq<SupportView>
    decreases targets.len(),
{
    if targets.len() == 0 {
        Seq::empty()
    } else {
        supports_spec(targets.drop_last(), conditions, archive_idx) + supports_for_target(
            targets.last(),
            conditions,
            archive_idx,
        )
    }
}

/// The character-sequence form of a list of (target, entry) pairs
pub open spec fn support_view(v: Seq<(String, PlatformEntry)>) -> Seq<SupportView> {
    v.map_values(|p: (String, PlatformEntry)| (p.0@, p.1))
}

/// The strings of a list of `String`s
pub open spec fn strings_view(v: Seq<String>) -> Seq<Seq<char>> {
    v.map_values(|s: String| s@)
}

/// Push a (target, entry) pair
fn push_support(
    res: &mut Vec<(String, PlatformEntry)>,
    target: String,
    quality: SupportQuality,
    conditions: RuntimeConditions,
    archive_idx: usize,
)
    ensures
        support_view(final(res)@) == support_view(old(res)@).push(
            (target@, entry(quality, conditions, archive_idx)),
        ),
{
    let ghost before = res@;
    res.push((target, PlatformEntry { quality, runtime_conditions: conditions, archive_idx }));
    assert(support_view(res@) =~= support_view(before).push(
        (target@, entry(quality, conditions, archive_idx)),
    ));
}

/// Split off an `eabihf` suffix
fn degunk_str(target: &str) -> (r: (&str, &'static str))
    ensures
        (r.0@, r.1@) == degunk(target@),
{
    proof {
        reveal_strlit("eabihf");
        reveal_strlit("");
    }
    if let Some(inner_target) = str_strip_suffix(target, "eabihf") {
        assert(target@.subrange(0, target@.len() - 6) =~= inner_target@);
        (inner_target, "eabihf")
    } else {
        (target, "")
    }
}

/// Rename a bare `musl` target to `musl-static`, returning the target and degunked target
fn rename_musl(target: &str) -> (r: (String, String, &'static str))
    ensures
        (r.0@, r.1@) == musl_renamed(target@),
        r.2@ == degunk(target@).1,
{
    proof {
        reveal_strlit("musl");
    }
    let (degunked_target, abigunk) = degunk_str(target);
    if let Some(system) = str_strip_suffix(degunked_target, "musl") {
        assert(degunked_target@.subrange(0, degunked_target@.len() - 4) =~= system@);
        (concat3(system, "musl-static", abigunk), concat2(degunked_target, "-static"), abigunk)
    } else {
        (owned(target), owned(degunked_target), abigunk)
    }
}

/// The static-libc entries for a (renamed) target
fn push_static_libc_supports(
    res: &mut Vec<(String, PlatformEntry)>,
    degunked_target: &str,
    abigunk: &str,
    conditions: RuntimeConditions,
    archive_idx: usize,
)
    ensures
        support_view(final(res)@) == support_view(old(res)@) + if LINUX_STATIC_LIBC@.is_suffix_of(
            degunked_target@,
        ) {
            let system = degunked_target@.subrange(
                0,
                degunked_target@.len() - LINUX_STATIC_LIBC@.len(),
            );
            seq![
                (system + LINUX_GNU_LIBC@ + abigunk@, entry(SupportQuality::ImperfectNative, conditions, archive_idx)),
                (system + LINUX_MUSL_DYNAMIC_LIBC@ + abigunk@, entry(SupportQuality::ImperfectNative, conditions, archive_idx)),
            ]
        } else {
            Seq::<SupportView>::empty()
        },
{
    let ghost start = support_view(res@);
    if let Some(system) = str_strip_suffix(degunked_target, LINUX_STATIC_LIBC) {
        assert(degunked_target@.subrange(0, degunked_target@.len() - LINUX_STATIC_LIBC@.len()) =~= system@);
        push_support(res, concat3(system, LINUX_GNU_LIBC, abigunk), SupportQuality::ImperfectNative, conditions, archive_idx);
        push_support(res, concat3(system, LINUX_MUSL_DYNAMIC_LIBC, abigunk), SupportQuality::ImperfectNative, conditions, archive_idx);
        assert(support_view(res@) =~= start + seq![
            (system@ + LINUX_GNU_LIBC@ + abigunk@, entry(SupportQuality::ImperfectNative, conditions, archive_idx)),
            (system@ + LINUX_MUSL_DYNAMIC_LIBC@ + abigunk@, entry(SupportQuality::ImperfectNative, conditions, archive_idx)),
        ]);
    } else {
        assert(support_view(res@) =~= start + Seq::<SupportView>::empty());
    }
}

/// The macos and windows entries for a (renamed) target
fn push_mac_windows_supports(
    res: &mut Vec<(String, PlatformEntry)>,
    target: &str,
    conditions: RuntimeConditions,
    archive_idx: usize,
)
    ensures
        support_view(final(res)@) == support_view(old(res)@) + (if target@
            == TARGET_MACOS_UNIVERSAL2@ {
            seq![
                (TARGET_X64_MAC@, entry(SupportQuality::BulkyNative, conditions, archive_idx)),
                (TARGET_ARM64_MAC@, entry(SupportQuality::BulkyNative, conditions, archive_idx)),
            ]
        } else {
            Seq::<SupportView>::empty()
        }) + (if target@ == TARGET_X64_MAC@ {
            seq![
                (TARGET_ARM64_MAC@, entry(SupportQuality::Emulated, RuntimeConditions { rosetta2: true, ..conditions }, archive_idx)),
            ]
        } else {
            Seq::<SupportView>::empty()
        }) + (if target@ == TARGET_X86_WINDOWS@ {
            seq![(TARGET_X64_WINDOWS@, entry(SupportQuality::ImperfectNative, conditions, archive_idx))]
        } else {
            Seq::<SupportView>::empty()
        }) + (if target@ == TARGET_X64_WINDOWS@ || target@ == TARGET_X86_WINDOWS@ {
            let quality = if target@ == TARGET_X86_WINDOWS@ {
                SupportQuality::Hellmulated
            } else {
                SupportQuality::Emulated
            };
            seq![(TARGET_ARM64_WINDOWS@, entry(quality, conditions, archive_idx))]
        } else {
            Seq::<SupportView>::empty()
        }),
{
    let ghost start = support_view(res@);
    // universal2 macos binaries are totally native for both arches, but bulkier than
    // necessary if we have builds for the individual platforms too.
    if str_eq(target, TARGET_MACOS_UNIVERSAL2) {
        push_support(res, owned(TARGET_X64_MAC), SupportQuality::BulkyNative, conditions, archive_idx);
        push_support(res, owned(TARGET_ARM64_MAC), SupportQuality::BulkyNative, conditions, archive_idx);
    }
    let ghost after_universal = support_view(res@);

    // If this is x64 macos, say it can run on arm64 macos using Rosetta2
    // Note that Rosetta2 is not *actually* installed by default on Apple Silicon,
    // so ideally any installer that uses this fallback should check if Rosetta2 is installed!
    if str_eq(target, TARGET_X64_MAC) {
        let runtime_conditions = RuntimeConditions { rosetta2: true, ..conditions };
        push_support(res, owned(TARGET_ARM64_MAC), SupportQuality::Emulated, runtime_conditions, archive_idx);
    }
    let ghost after_rosetta = support_view(res@);

    // x86_32 windows binaries run fine on x86_64, but it's Imperfect compared to actual x86_64 binaries
    let is_x86_windows = str_eq(target, TARGET_X86_WINDOWS);
    if is_x86_windows {
        push_support(res, owned(TARGET_X64_WINDOWS), SupportQuality::ImperfectNative, conditions, archive_idx);
    }
    let ghost after_win32 = support_view(res@);

    // Windows' equivalent to Rosetta2 (CHPE) is in fact installed-by-default so no need to detect!
    if str_eq(target, TARGET_X64_WINDOWS) || is_x86_windows {
        // prefer x64 over x86 if we have the option
        let quality = if is_x86_windows {
            SupportQuality::Hellmulated
        } else {
            SupportQuality::Emulated
        };
        push_support(res, owned(TARGET_ARM64_WINDOWS), quality, conditions, archive_idx);
    }
    assert(support_view(res@) =~= start + (after_universal.skip(start.len() as int)) + (
    after_rosetta.skip(after_universal.len() as int)) + (after_win32.skip(
        after_rosetta.len() as int,
    )) + support_view(res@).skip(after_win32.len() as int));
}

/// The mingw entry for a (renamed) target
fn push_mingw_supports(
    res: &mut Vec<(String, PlatformEntry)>,
    target: &str,
    conditions: RuntimeConditions,
    archive_idx: usize,
)
    ensures
        support_view(final(res)@) == support_view(old(res)@) + if "windows-msvc"@.is_suffix_of(
            target@,
        ) {
            let system = target@.subrange(0, target@.len() - 12);
            seq![(system + "windows-gnu"@, entry(SupportQuality::ImperfectNative, conditions, archive_idx))]
        } else {
            Seq::<SupportView>::empty()
        },
{
    proof {
        reveal_strlit("windows-msvc");
    }
    let ghost start = support_view(res@);
    // windows-msvc binaries should always be acceptable on windows-gnu (mingw)
    if let Some(system) = str_strip_suffix(target, "windows-msvc") {
        assert(target@.subrange(0, target@.len() - 12) =~= system@);
        push_support(res, concat2(system, "windows-gnu"), SupportQuality::ImperfectNative, conditions, archive_idx);
    } else {
        assert(support_view(res@) =~= start + Seq::<SupportView>::empty());
    }
}

/// The supports of a single native target, appended to `res`
fn push_supports_for_target(
    res: &mut Vec<(String, PlatformEntry)>,
    target: &str,
    conditions: RuntimeConditions,
    archive_idx: usize,
)
    ensures
        support_view(final(res)@) == support_view(old(res)@) + supports_for_target(
            target@,
            conditions,
            archive_idx,
        ),
{
    let ghost start = support_view(res@);
    let ghost original = target@;
    // If this is the ambiguous-soon-to-be-changed "musl" target, rename it to musl-static,
    // which is its current behaviour. Any "eabihf" suffix is pulled off while
    // comparing/parsing libc types.
    let (target, degunked_target, abigunk) = rename_musl(target);

    // First, add the target itself as a HostNative entry
    push_support(res, owned(target.as_str()), SupportQuality::HostNative, conditions, archive_idx);
    let ghost after_native = support_view(res@);

    // If this is a static linux libc, say it can support any linux at ImperfectNative quality
    push_static_libc_supports(res, degunked_target.as_str(), abigunk, conditions, archive_idx);
    let ghost after_static = support_view(res@);

    push_mac_windows_supports(res, target.as_str(), conditions, archive_idx);
    let ghost after_mac_windows = support_view(res@);

    push_mingw_supports(res, target.as_str(), conditions, archive_idx);
    assert(support_view(res@) =~= start + supports_for_target(original, conditions, archive_idx));
}

/// Given an archive, compute all the platforms it technically supports,
/// and to what level of quality.
///
/// It's fine to be very generous and repetitive here as long as SupportQuality
/// is honest and can be used to sort the options. Any "this is dubious" solutions
/// will be buried by more native/legit ones if they're available.
pub fn supports(archive_idx: usize, archive: &FetchableArchive) -> (res: Vec<(String, PlatformEntry)>)
    ensures
        support_view(res@) == supports_spec(
            strings_view(archive.target_triples@),
            archive.native_runtime_conditions,
            archive_idx,
        ),
{
    let mut res: Vec<(String, PlatformEntry)> = Vec::new();
    let mut i: usize = 0;
    while i < archive.target_triples.len()
        invariant
            i <= archive.target_triples@.len(),
            support_view(res@) == supports_spec(
                strings_view(archive.target_triples@.take(i as int)),
                archive.native_runtime_conditions,
                archive_idx,
            ),
        decreases archive.target_triples.len() - i,
    {
        let ghost before = res@;
        push_supports_for_target(
            &mut res,
            archive.target_triples[i].as_str(),
            archive.native_runtime_conditions,
            archive_idx,
        );
        proof {
            let prefix = strings_view(archive.target_triples@.take(i + 1));
            assert(prefix.drop_last() =~= strings_view(archive.target_triples@.take(i as int)));
            assert(prefix.last() == archive.target_triples@[i as int]@);
        }
        i = i + 1;
    }
    assert(archive.target_triples@.take(i as int) =~= archive.target_triples@);
    res
}

} // verus!

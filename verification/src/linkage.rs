//! Which libraries a binary links against, read from the output of the
//! system's tools, and where those libraries come from

use vstd::prelude::*;

use crate::config::split_first;
use crate::env::{split_all, split_pieces};
use crate::init::apply_dist::helpers::texts_view;
use crate::paths::{joined_path, path_join};
use crate::schema::PackageManager;
use crate::strings::{
    clone_string, concat3, owned, seq_has_infix, str_eq, str_split_once, str_split_once_str,
    str_strip_prefix, str_trim, str_trim_end, trimmed, trimmed_end,
};

verus! {

/// What follows the first occurrence of `pat` in `s`, if it occurs
pub open spec fn after_first(s: Seq<char>, pat: Seq<char>) -> Option<Seq<char>>
    decreases s.len(),
{
    if s.len() < pat.len() {
        None
    } else if s.subrange(0, pat.len() as int) == pat {
        Some(s.skip(pat.len() as int))
    } else if s.len() == 0 {
        None
    } else {
        after_first(s.skip(1), pat)
    }
}

/// The split that `str::split_once` reports is the one `after_first` finds
pub(crate) proof fn lemma_after_first(s: Seq<char>, pat: Seq<char>, before: Seq<char>, after: Seq<char>)
    requires
        pat.len() > 0,
        s == before + pat + after,
        !seq_has_infix(before + pat.drop_last(), pat),
    ensures
        after_first(s, pat) == Some(after),
    decreases before.len(),
{
    if before.len() == 0 {
        assert(s.subrange(0, pat.len() as int) =~= pat);
        assert(s.skip(pat.len() as int) =~= after);
    } else {
        let hay = before + pat.drop_last();
        if s.subrange(0, pat.len() as int) == pat {
            assert(hay.subrange(0, 0int + pat.len()) =~= s.subrange(0, pat.len() as int));
            assert(seq_has_infix(hay, pat));
        }
        let rest = before.skip(1);
        assert(s.skip(1) =~= rest + pat + after);
        assert forall|i: int|
            0 <= i && i + pat.len() <= (rest + pat.drop_last()).len() implies #[trigger] (rest
            + pat.drop_last()).subrange(i, i + pat.len()) != pat by {
            assert((rest + pat.drop_last()).subrange(i, i + pat.len()) =~= hay.subrange(
                i + 1,
                i + 1 + pat.len(),
            ));
        }
        lemma_after_first(s.skip(1), pat, rest, after);
    }
}

/// A pattern that does not occur has nothing after it
proof fn lemma_after_first_none(s: Seq<char>, pat: Seq<char>)
    requires
        pat.len() > 0,
        !seq_has_infix(s, pat),
    ensures
        after_first(s, pat) is None,
    decreases s.len(),
{
    if s.len() >= pat.len() {
        if s.subrange(0, pat.len() as int) == pat {
            assert(s.subrange(0, 0int + pat.len()) == pat);
            assert(seq_has_infix(s, pat));
        }
        assert forall|i: int|
            0 <= i && i + pat.len() <= s.skip(1).len() implies #[trigger] s.skip(1).subrange(
            i,
            i + pat.len(),
        ) != pat by {
            assert(s.skip(1).subrange(i, i + pat.len()) =~= s.subrange(i + 1, i + 1 + pat.len()));
        }
        lemma_after_first_none(s.skip(1), pat);
    }
}

/// The part of `s` before the first `c` (all of it if `c` does not occur)
pub open spec fn first_piece(s: Seq<char>, c: char) -> Seq<char> {
    match split_first(s, c) {
        Some((before, _)) => before,
        None => s,
    }
}

/// The part of `s` before the first `c`
fn first_piece_of(s: &str, c: char) -> (r: &str)
    ensures
        r@ == first_piece(s@, c),
{
    match str_split_once(s, c) {
        Some((before, after)) => {
            proof {
                crate::config::lemma_split_first(s@, c, before@, after@);
            }
            before
        },
        None => {
            proof {
                crate::config::lemma_split_first_none(s@, c);
            }
            s
        },
    }
}

/// Whether `s` starts with `prefix`
fn starts_with(s: &str, prefix: &str) -> (r: bool)
    ensures
        r == prefix@.is_prefix_of(s@),
{
    match str_strip_prefix(s, prefix) {
        Some(rest) => {
            assert(s@.subrange(0, prefix@.len() as int) =~= prefix@);
            true
        },
        None => false,
    }
}

/// The library a line of `ldd` output names: the path after ` => `, up to
/// the first space (`libname.so.1 => /path/to/libname.so.1 (address)`)
pub open spec fn ldd_line_library(line: Seq<char>) -> Option<Seq<char>> {
    match after_first(line, " => "@) {
        Some(rest) => Some(first_piece(rest, ' ')),
        None => None,
    }
}

/// Whether a (trimmed) line of `ldd` output says there is no dynamic linkage
pub open spec fn ldd_no_linkage(line: Seq<char>) -> bool {
    "not a dynamic executable"@.is_prefix_of(line) || "statically linked"@.is_prefix_of(line)
}

/// The libraries that lines of `ldd` output name, in order: reading stops
/// at a line that says there is no dynamic linkage, the virtual `linux-vdso`
/// library is skipped, and so is each line that names no library
pub open spec fn ldd_libraries_from(lines: Seq<Seq<char>>) -> Seq<Seq<char>>
    decreases lines.len(),
{
    if lines.len() == 0 {
        Seq::empty()
    } else {
        let line = trimmed(lines[0]);
        if ldd_no_linkage(line) {
            Seq::empty()
        } else if "linux-vdso"@.is_prefix_of(line) {
            ldd_libraries_from(lines.skip(1))
        } else {
            match ldd_line_library(line) {
                Some(lib) => seq![lib] + ldd_libraries_from(lines.skip(1)),
                None => ldd_libraries_from(lines.skip(1)),
            }
        }
    }
}

/// The libraries that the output of `ldd` names, in order
pub open spec fn ldd_libraries_spec(output: Seq<char>) -> Seq<Seq<char>> {
    ldd_libraries_from(split_pieces(trimmed_end(output), '\n'))
}

/// The libraries that the output of `ldd` names, in order (as written:
/// symlinks are not resolved here)
pub fn ldd_libraries(output: &str) -> (r: Vec<String>)
    ensures
        texts_view(r@) == ldd_libraries_spec(output@),
{
    let lines = split_all(str_trim_end(output), '\n');
    let ghost all = texts_view(lines@);
    assert(all =~= lines@.map_values(|p: String| p@));
    let mut libraries: Vec<String> = Vec::new();
    assert(all.skip(0) =~= all);
    assert(texts_view(libraries@) + all =~= all);
    let mut i: usize = 0;
    while i < lines.len()
        invariant
            i <= lines@.len(),
            all == texts_view(lines@),
            all == split_pieces(trimmed_end(output@), '\n'),
            texts_view(libraries@) + ldd_libraries_from(all.skip(i as int)) == ldd_libraries_from(all),
        decreases lines.len() - i,
    {
        let ghost tail = all.skip(i as int);
        assert(tail[0] == lines@[i as int]@);
        assert(tail.skip(1) =~= all.skip(i + 1));
        let line = str_trim(lines[i].as_str());
        // There's no dynamic linkage at all; we can safely break,
        // there will be nothing useful to us here.
        if starts_with(line, "not a dynamic executable") || starts_with(line, "statically linked") {
            assert(ldd_no_linkage(trimmed(tail[0])));
            assert(ldd_libraries_from(tail) == Seq::<Seq<char>>::empty());
            assert(texts_view(libraries@) =~= texts_view(libraries@) + Seq::<Seq<char>>::empty());
            return libraries;
        }
        // Not a library that actually concerns us
        if !starts_with(line, "linux-vdso") {
            proof {
                reveal_strlit(" => ");
            }
            // Format: libname.so.1 => /path/to/libname.so.1 (address)
            match str_split_once_str(line, " => ") {
                Some((before, rest)) => {
                    proof {
                        lemma_after_first(line@, " => "@, before@, rest@);
                    }
                    let lib = owned(first_piece_of(rest, ' '));
                    let ghost prev = libraries@;
                    libraries.push(lib);
                    assert(texts_view(libraries@) =~= texts_view(prev).push(lib@));
                    assert(texts_view(libraries@) + ldd_libraries_from(all.skip(i + 1)) =~= texts_view(
                        prev,
                    ) + (seq![lib@] + ldd_libraries_from(all.skip(i + 1))));
                },
                None => {
                    proof {
                        lemma_after_first_none(line@, " => "@);
                    }
                },
            }
        }
        i = i + 1;
    }
    assert(all.skip(lines@.len() as int) =~= Seq::<Seq<char>>::empty());
    assert(texts_view(libraries@) =~= texts_view(libraries@) + Seq::<Seq<char>>::empty());
    libraries
}

/// Where a library a binary links against lives
#[derive(Debug, Clone, Copy, PartialEq, Eq, Structural)]
pub enum LibraryLocation {
    /// Under `/opt/homebrew`: installed by Homebrew
    Homebrew,
    /// Under `/usr/lib` or `/lib`: a system library
    System,
    /// A macOS framework
    Framework,
    /// Under `/usr/local`: Homebrew's if it resolves into its Cellar,
    /// public and unmanaged otherwise
    UsrLocal,
    /// Anywhere else
    Other,
}

/// Where the library at `path` lives
pub open spec fn library_location_spec(path: Seq<char>) -> LibraryLocation {
    if "/opt/homebrew"@.is_prefix_of(path) {
        LibraryLocation::Homebrew
    } else if "/usr/lib"@.is_prefix_of(path) || "/lib"@.is_prefix_of(path) {
        LibraryLocation::System
    } else if "/System/Library/Frameworks"@.is_prefix_of(path) || "/Library/Frameworks"@.is_prefix_of(
        path,
    ) {
        LibraryLocation::Framework
    } else if "/usr/local"@.is_prefix_of(path) {
        LibraryLocation::UsrLocal
    } else {
        LibraryLocation::Other
    }
}

/// Where the library at `path` lives
pub fn library_location(path: &str) -> (r: LibraryLocation)
    ensures
        r == library_location_spec(path@),
{
    if starts_with(path, "/opt/homebrew") {
        LibraryLocation::Homebrew
    } else if starts_with(path, "/usr/lib") || starts_with(path, "/lib") {
        LibraryLocation::System
    } else if starts_with(path, "/System/Library/Frameworks") || starts_with(path, "/Library/Frameworks") {
        LibraryLocation::Framework
    } else if starts_with(path, "/usr/local") {
        LibraryLocation::UsrLocal
    } else {
        LibraryLocation::Other
    }
}

/// A library a binary links against, and the package it came from if known
#[derive(Debug)]
pub struct Library {
    /// Its path
    pub path: String,
    /// The package it came from
    pub source: Option<String>,
    /// The package manager that installed it
    pub package_manager: Option<PackageManager>,
}

/// The Homebrew prefix a library lives under, if it is one of the default ones
pub open spec fn homebrew_prefix_spec(library: Seq<char>) -> Option<Seq<char>> {
    if "/opt/homebrew/opt/"@.is_prefix_of(library) {
        Some("/opt/homebrew/opt/"@)
    } else if "/usr/local/opt/"@.is_prefix_of(library) {
        Some("/usr/local/opt/"@)
    } else {
        None
    }
}

/// The Homebrew package a library belongs to: the first path segment after
/// the default Homebrew prefix it lives under
pub open spec fn homebrew_package_spec(library: Seq<char>) -> Option<Seq<char>> {
    match homebrew_prefix_spec(library) {
        Some(prefix) => Some(first_piece(library.skip(prefix.len() as int), '/')),
        None => None,
    }
}

/// The Homebrew package a library belongs to (installations in other than
/// the default locations are not recognized)
pub fn homebrew_package(library: &str) -> (r: Option<String>)
    ensures
        match (r, homebrew_package_spec(library@)) {
            (Some(p), Some(q)) => p@ == q,
            (None, None) => true,
            _ => false,
        },
{
    proof {
        reveal_strlit("/opt/homebrew/opt/");
        reveal_strlit("/usr/local/opt/");
    }
    let rest = match str_strip_prefix(library, "/opt/homebrew/opt/") {
        Some(rest) => {
            assert(library@.subrange(0, 18) =~= "/opt/homebrew/opt/"@) by {
                reveal_strlit("/opt/homebrew/opt/");
            }
            assert(rest@ =~= library@.skip(18)) by {
                reveal_strlit("/opt/homebrew/opt/");
            }
            rest
        },
        None => match str_strip_prefix(library, "/usr/local/opt/") {
            Some(rest) => {
                assert(library@.subrange(0, 15) =~= "/usr/local/opt/"@) by {
                    reveal_strlit("/usr/local/opt/");
                }
                assert(rest@ =~= library@.skip(15)) by {
                    reveal_strlit("/usr/local/opt/");
                }
                rest
            },
            None => return None,
        },
    };
    Some(owned(first_piece_of(rest, '/')))
}

/// A formula name, qualified by its tap unless the tap is `homebrew/core`
pub open spec fn tapped_package_spec(package: Seq<char>, tap: Option<Seq<char>>) -> Seq<char> {
    match tap {
        Some(t) => if t != "homebrew/core"@ {
            t + "/"@ + package
        } else {
            package
        },
        None => package,
    }
}

/// The library at `library` with its Homebrew package, if it lives under
/// a default Homebrew prefix; `tap` is the tap named by the package's
/// install receipt, if it could be read
pub fn library_from_homebrew(library: String, tap: Option<&str>) -> (r: Library)
    ensures
        r.path@ == library@,
        match homebrew_package_spec(library@) {
            Some(p) => {
                &&& r.source matches Some(s)
                &&& s@ == tapped_package_spec(
                    p,
                    match tap {
                        Some(t) => Some(t@),
                        None => None,
                    },
                )
                &&& r.package_manager == Some(PackageManager::Homebrew)
            },
            None => r.source is None && r.package_manager is None,
        },
{
    match homebrew_package(library.as_str()) {
        Some(package) => {
            // The path alone isn't enough to determine the tap the formula
            // came from; the install receipt names it.
            let source = match tap {
                Some(tap) => {
                    if !str_eq(tap, "homebrew/core") {
                        concat3(tap, "/", package.as_str())
                    } else {
                        package
                    }
                },
                None => package,
            };
            Library { path: library, source: Some(source), package_manager: Some(PackageManager::Homebrew) }
        },
        None => Library { path: library, source: None, package_manager: None },
    }
}

/// Where the install receipt of a library's Homebrew package is: in the
/// package's directory under the Homebrew prefix
pub open spec fn homebrew_receipt_spec(library: Seq<char>) -> Option<Seq<char>> {
    match (homebrew_prefix_spec(library), homebrew_package_spec(library)) {
        (Some(prefix), Some(package)) => Some(
            joined_path(joined_path(prefix, package), "INSTALL_RECEIPT.json"@),
        ),
        _ => None,
    }
}

/// Where the install receipt of a library's Homebrew package is, which
/// names the tap the package came from (none where the library is not
/// under a default Homebrew prefix)
pub fn homebrew_receipt_path(library: &str) -> (r: Option<String>)
    ensures
        match (r, homebrew_receipt_spec(library@)) {
            (Some(p), Some(q)) => p@ == q,
            (None, None) => true,
            _ => false,
        },
{
    let prefix = if str_strip_prefix(library, "/opt/homebrew/opt/").is_some() {
        "/opt/homebrew/opt/"
    } else if str_strip_prefix(library, "/usr/local/opt/").is_some() {
        "/usr/local/opt/"
    } else {
        return None;
    };
    match homebrew_package(library) {
        Some(package) => {
            let dir = path_join(prefix, package.as_str());
            Some(path_join(dir.as_str(), "INSTALL_RECEIPT.json"))
        },
        None => None,
    }
}

/// Whether a resolved path lies in Homebrew's cellar under `/usr/local`:
/// the cellar itself or anything below it (path components compared, so
/// `/usr/local/Cellarx` is not in it)
pub open spec fn in_homebrew_cellar_spec(real_path: Seq<char>) -> bool {
    real_path == "/usr/local/Cellar"@ || "/usr/local/Cellar/"@.is_prefix_of(real_path)
}

/// Whether a library under `/usr/local`, by its resolved path, was
/// installed by Homebrew: it lies in Homebrew's cellar
pub fn in_homebrew_cellar(real_path: &str) -> (r: bool)
    ensures
        r == in_homebrew_cellar_spec(real_path@),
{
    str_eq(real_path, "/usr/local/Cellar") || str_strip_prefix(real_path, "/usr/local/Cellar/").is_some()
}

/// The package `dpkg --search` names for a file: what precedes the first `:`
/// of its output, if anything does
pub open spec fn apt_source_spec(output: Seq<char>) -> Option<Seq<char>> {
    let package = first_piece(output, ':');
    if package.len() == 0 {
        None
    } else {
        Some(package)
    }
}

/// The library at `library` with its apt package; `dpkg_output` is what
/// `dpkg --search` printed for it (`None` off Linux, or when it failed)
pub fn library_from_apt(library: String, dpkg_output: Option<&str>) -> (r: Library)
    ensures
        r.path@ == library@,
        match dpkg_output {
            Some(output) => match apt_source_spec(output@) {
                Some(p) => r.source matches Some(s) && s@ == p && r.package_manager == Some(
                    PackageManager::Apt,
                ),
                None => r.source is None && r.package_manager is None,
            },
            None => r.source is None && r.package_manager is None,
        },
{
    match dpkg_output {
        Some(output) => {
            let package = first_piece_of(output, ':');
            if package.is_empty() {
                Library { path: library, source: None, package_manager: None }
            } else {
                Library {
                    path: library,
                    source: Some(owned(package)),
                    package_manager: Some(PackageManager::Apt),
                }
            }
        },
        // Couldn't find a package for this file
        None => Library { path: library, source: None, package_manager: None },
    }
}

} // verus!

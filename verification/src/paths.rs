//! Paths of config files, held as UTF-8 text.

use vstd::prelude::*;

use crate::init::apply_dist::helpers::texts_view;

verus! {

/// Whether camino takes `path` to be absolute (a leading `/` on Unix, a
/// prefix and a root on Windows: fixed for the target the crate is built for)
pub uninterp spec fn path_absolute(path: Seq<char>) -> bool;

/// The path camino makes of `path` adjoined to `base` (the separator put
/// between them is fixed for the target the crate is built for)
pub uninterp spec fn joined_path(base: Seq<char>, path: Seq<char>) -> Seq<char>;

/// `camino::Utf8Path::is_absolute`: whether `path` is absolute, i.e.
/// independent of the current directory.
#[verifier::external_body]
pub(crate) fn path_is_absolute(path: &str) -> (r: bool)
    ensures
        r == path_absolute(path@),
{
    camino::Utf8Path::new(path).is_absolute()
}

/// `camino::Utf8Path::join`: `path` adjoined to `base`; an absolute `path`
/// replaces `base` (as `Utf8PathBuf::push` documents).
#[verifier::external_body]
pub(crate) fn path_join(base: &str, path: &str) -> (r: String)
    ensures
        r@ == joined_path(base@, path@),
        path_absolute(path@) ==> r@ == path@,
{
    camino::Utf8Path::new(base).join(path).into_string()
}

/// A config-file-relative path made relative to `base`: an absolute path
/// stays as it is, any other is adjoined to `base`
pub open spec fn relative_path_spec(path: Seq<char>, base: Seq<char>) -> Seq<char> {
    if path_absolute(path) {
        path
    } else {
        joined_path(base, path)
    }
}

/// Each path of a list made relative to `base`
pub open spec fn relative_paths_spec(paths: Seq<Seq<char>>, base: Seq<char>) -> Seq<Seq<char>> {
    paths.map_values(|p: Seq<char>| relative_path_spec(p, base))
}

/// Rewrite a config-file-relative path to be relative to `base_path`;
/// an absolute path is left as it is.
pub(crate) fn make_path_relative_to(path: String, base_path: &str) -> (r: String)
    ensures
        r@ == relative_path_spec(path@, base_path@),
{
    if !path_is_absolute(path.as_str()) {
        path_join(base_path, path.as_str())
    } else {
        path
    }
}

/// Rewrite each path of a list as [`make_path_relative_to`] does, keeping
/// their order
pub(crate) fn make_paths_relative_to(paths: Vec<String>, base_path: &str) -> (r: Vec<String>)
    ensures
        texts_view(r@) == relative_paths_spec(texts_view(paths@), base_path@),
{
    let ghost orig = texts_view(paths@);
    let mut rest = paths;
    let mut out: Vec<String> = Vec::new();
    while rest.len() > 0
        invariant
            rest@.len() <= orig.len(),
            texts_view(rest@) == orig.skip(orig.len() - rest@.len()),
            texts_view(out@) == relative_paths_spec(orig.take(orig.len() - rest@.len()), base_path@),
        decreases rest@.len(),
    {
        let ghost k = orig.len() - rest@.len();
        let ghost before_rest = rest@;
        let p = rest.remove(0);
        proof {
            assert(orig[k] == texts_view(before_rest)[0]);
            assert(texts_view(rest@) =~= texts_view(before_rest).skip(1));
            assert(orig.skip(k + 1) =~= orig.skip(k).skip(1));
        }
        let ghost before_out = out@;
        let q = make_path_relative_to(p, base_path);
        out.push(q);
        proof {
            assert(texts_view(out@) =~= texts_view(before_out).push(q@));
            assert(orig.take(k + 1) =~= orig.take(k).push(orig[k]));
            assert(relative_paths_spec(orig.take(k + 1), base_path@) =~= relative_paths_spec(
                orig.take(k),
                base_path@,
            ).push(relative_path_spec(orig[k], base_path@)));
        }
    }
    assert(orig.take(orig.len() as int) =~= orig);
    out
}

} // verus!

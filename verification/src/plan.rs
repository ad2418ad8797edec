//! What `dist plan` tells about the versions that are being released

use vstd::prelude::*;

use crate::env::{join_spec, join_strings};
use crate::init::apply_dist::helpers::texts_view;
use crate::strings::{clone_string, concat2, str_eq, str_lt, string_concat, text_lt};

verus! {

/// App names gathered per version, in the order of the versions' text
pub type VersionGroupsView = Seq<(Seq<char>, Seq<Seq<char>>)>;

/// The character-sequence form of the names per version
pub open spec fn version_groups_view(v: Seq<(String, Vec<String>)>) -> VersionGroupsView {
    v.map_values(|g: (String, Vec<String>)| (g.0@, texts_view(g.1@)))
}

/// The character-sequence form of (version, app name) pairs
pub open spec fn releases_view(v: Seq<(String, String)>) -> Seq<(Seq<char>, Seq<char>)> {
    v.map_values(|r: (String, String)| (r.0@, r.1@))
}

/// Where version `v` belongs among the groups: before the first group whose
/// version does not come before it
pub open spec fn version_pos(groups: VersionGroupsView, v: Seq<char>) -> int
    decreases groups.len(),
{
    if groups.len() == 0 {
        0
    } else if !text_lt(groups[0].0, v) {
        0
    } else {
        1 + version_pos(groups.skip(1), v)
    }
}

/// Add app `name` of version `v`: at the end of the group for `v`, or as a
/// new group in its place
pub open spec fn version_insert(groups: VersionGroupsView, v: Seq<char>, name: Seq<char>) -> VersionGroupsView {
    let j = version_pos(groups, v);
    if j < groups.len() && groups[j].0 == v {
        groups.update(j, (v, groups[j].1.push(name)))
    } else {
        groups.insert(j, (v, seq![name]))
    }
}

/// The app names of the releases gathered per version, the versions in
/// order of their text and each version's names in the order of the releases
pub open spec fn releases_by_version(releases: Seq<(Seq<char>, Seq<char>)>) -> VersionGroupsView
    decreases releases.len(),
{
    if releases.len() == 0 {
        Seq::empty()
    } else {
        version_insert(releases_by_version(releases.drop_last()), releases.last().0, releases.last().1)
    }
}

/// The position of a version is the first group whose version does not come before it
proof fn lemma_version_pos_first(g: VersionGroupsView, v: Seq<char>, j: int)
    requires
        0 <= j <= g.len(),
        forall|k: int| 0 <= k < j ==> text_lt((#[trigger] g[k]).0, v),
        j == g.len() || !text_lt(g[j].0, v),
    ensures
        version_pos(g, v) == j,
    decreases g.len(),
{
    if g.len() > 0 && j > 0 {
        assert(text_lt(g[0].0, v));
        let rest = g.skip(1);
        assert forall|k: int| 0 <= k < j - 1 implies text_lt((#[trigger] rest[k]).0, v) by {
            assert(rest[k] == g[k + 1]);
        }
        if j < g.len() {
            assert(rest[j - 1] == g[j]);
        }
        lemma_version_pos_first(rest, v, j - 1);
    }
}

/// Add app `name` of version `v` to the groups
fn insert_release(groups: &mut Vec<(String, Vec<String>)>, v: String, name: String)
    ensures
        version_groups_view(final(groups)@) == version_insert(version_groups_view(old(groups)@), v@, name@),
{
    let ghost g0 = version_groups_view(groups@);
    let mut j: usize = 0;
    loop
        invariant_except_break
            j <= groups@.len(),
            forall|k: int| 0 <= k < j ==> text_lt((#[trigger] g0[k]).0, v@),
        invariant
            g0 == version_groups_view(groups@),
        ensures
            j <= g0.len(),
            forall|k: int| 0 <= k < j ==> text_lt((#[trigger] g0[k]).0, v@),
            j == g0.len() || !text_lt(g0[j as int].0, v@),
        decreases groups.len() - j,
    {
        if j >= groups.len() {
            break ;
        }
        if !str_lt(groups[j].0.as_str(), v.as_str()) {
            break ;
        }
        j = j + 1;
    }
    proof {
        lemma_version_pos_first(g0, v@, j as int);
    }
    if j < groups.len() && str_eq(groups[j].0.as_str(), v.as_str()) {
        let (key, mut names) = groups.remove(j);
        let ghost before = names@;
        names.push(name);
        assert(texts_view(names@) =~= texts_view(before).push(name@));
        groups.insert(j, (key, names));
        assert(version_groups_view(groups@) =~= g0.update(j as int, (v@, g0[j as int].1.push(name@))));
    } else {
        let fresh = vec![name];
        assert(texts_view(fresh@) =~= seq![name@]);
        groups.insert(j, (v, fresh));
        assert(version_groups_view(groups@) =~= g0.insert(j as int, (v@, seq![name@])));
    }
}

/// The app names of the releases, given as (version, app name) pairs,
/// gathered per version with the versions in order of their text
pub fn group_releases_by_version(releases: &Vec<(String, String)>) -> (r: Vec<(String, Vec<String>)>)
    ensures
        version_groups_view(r@) == releases_by_version(releases_view(releases@)),
{
    let ghost all = releases_view(releases@);
    let mut groups: Vec<(String, Vec<String>)> = Vec::new();
    assert(version_groups_view(groups@) =~= releases_by_version(all.take(0)));
    let mut i: usize = 0;
    while i < releases.len()
        invariant
            i <= releases@.len(),
            all == releases_view(releases@),
            version_groups_view(groups@) == releases_by_version(all.take(i as int)),
        decreases releases.len() - i,
    {
        proof {
            assert(all.take(i + 1).drop_last() =~= all.take(i as int));
        }
        let v = clone_string(&releases[i].0);
        let name = clone_string(&releases[i].1);
        insert_release(&mut groups, v, name);
        i = i + 1;
    }
    assert(all.take(releases@.len() as int) =~= all);
    groups
}

/// The tags `dist plan` shows a manifest for: one per version, in order
pub open spec fn plan_tags_spec(groups: VersionGroupsView) -> Seq<Seq<char>> {
    groups.map_values(|g: (Seq<char>, Seq<Seq<char>>)| "v"@ + g.0)
}

/// The tags `dist plan` shows a manifest for: one per version, in order
pub fn plan_tags(groups: &Vec<(String, Vec<String>)>) -> (r: Vec<String>)
    ensures
        texts_view(r@) == plan_tags_spec(version_groups_view(groups@)),
{
    let ghost g = version_groups_view(groups@);
    let mut out: Vec<String> = Vec::new();
    let mut i: usize = 0;
    while i < groups.len()
        invariant
            i <= groups@.len(),
            g == version_groups_view(groups@),
            texts_view(out@) =~= plan_tags_spec(g).take(i as int),
        decreases groups.len() - i,
    {
        let t = concat2("v", groups[i].0.as_str());
        let ghost before = out@;
        out.push(t);
        assert(texts_view(out@) =~= texts_view(before).push(t@));
        i = i + 1;
    }
    out
}

/// The note `dist plan` prints when the workspace has several versions
pub open spec fn multiple_versions_message() -> Seq<char> {
    "NOTE:\n  There are multiple version numbers in your workspace.\n  When running 'dist build' locally, you will need to specify --tag.\n  When creating a release, the version will be specified by the tag you push or the value provided to the workflow dispatch prompt.\n\n  You can specify --tag when running 'dist plan' to see all apps that will be released with that tag.\n"@
}

/// The line that says which apps a version's tag selects
pub open spec fn tag_match_line(g: (Seq<char>, Seq<Seq<char>>)) -> Seq<char> {
    "  --tag=v"@ + g.0 + " will match: "@ + join_spec(g.1, ", "@)
}

/// The lines `dist plan` prints after the manifests, each followed by a
/// newline: nothing when there is at most one version; otherwise the note,
/// the apps each version's tag selects, and an example of selecting the
/// first app of the first version by name and version
pub open spec fn plan_notes_spec(groups: VersionGroupsView) -> Seq<Seq<char>> {
    if groups.len() < 2 {
        Seq::empty()
    } else {
        let lines = seq![multiple_versions_message()] + groups.map_values(
            |g: (Seq<char>, Seq<Seq<char>>)| tag_match_line(g),
        );
        if groups[0].1.len() > 0 {
            let name = groups[0].1[0];
            let version = groups[0].0;
            lines.push(
                "\n  You can also filter by name and version. For example, to select '"@ + name
                    + "' you could specify --tag="@ + name + "-v"@ + version,
            )
        } else {
            lines
        }
    }
}

/// The lines `dist plan` prints after the manifests (see [`plan_notes_spec`][])
pub fn plan_notes(groups: &Vec<(String, Vec<String>)>) -> (r: Vec<String>)
    ensures
        texts_view(r@) == plan_notes_spec(version_groups_view(groups@)),
{
    let ghost g = version_groups_view(groups@);
    let mut out: Vec<String> = Vec::new();
    // Everything after this is only relevant if there's multiple versions.
    if groups.len() < 2 {
        assert(texts_view(out@) =~= Seq::<Seq<char>>::empty());
        return out;
    }
    out.push(crate::strings::owned(
        "NOTE:\n  There are multiple version numbers in your workspace.\n  When running 'dist build' locally, you will need to specify --tag.\n  When creating a release, the version will be specified by the tag you push or the value provided to the workflow dispatch prompt.\n\n  You can specify --tag when running 'dist plan' to see all apps that will be released with that tag.\n",
    ));
    let ghost head = seq![multiple_versions_message()];
    assert(texts_view(out@) =~= head);
    let mut i: usize = 0;
    while i < groups.len()
        invariant
            i <= groups@.len(),
            g == version_groups_view(groups@),
            texts_view(out@) =~= head + g.map_values(
                |x: (Seq<char>, Seq<Seq<char>>)| tag_match_line(x),
            ).take(i as int),
        decreases groups.len() - i,
    {
        let joined = join_strings(&groups[i].1, ", ");
        assert(groups[i as int].1@.map_values(|p: String| p@) =~= texts_view(groups[i as int].1@));
        let line = string_concat(
            string_concat(concat2("  --tag=v", groups[i].0.as_str()), " will match: "),
            joined.as_str(),
        );
        let ghost before = out@;
        out.push(line);
        assert(texts_view(out@) =~= texts_view(before).push(line@));
        i = i + 1;
    }
    let ghost lines = head + g.map_values(|x: (Seq<char>, Seq<Seq<char>>)| tag_match_line(x));
    assert(g.map_values(|x: (Seq<char>, Seq<Seq<char>>)| tag_match_line(x)).take(g.len() as int)
        =~= g.map_values(|x: (Seq<char>, Seq<Seq<char>>)| tag_match_line(x)));
    if groups[0].1.len() > 0 {
        let name = groups[0].1[0].as_str();
        let version = groups[0].0.as_str();
        let line = string_concat(
            string_concat(
                string_concat(
                    string_concat(
                        concat2("\n  You can also filter by name and version. For example, to select '", name),
                        "' you could specify --tag=",
                    ),
                    name,
                ),
                "-v",
            ),
            version,
        );
        let ghost before = out@;
        out.push(line);
        assert(texts_view(out@) =~= texts_view(before).push(line@));
    }
    out
}

} // verus!

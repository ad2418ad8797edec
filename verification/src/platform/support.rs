//! The platforms a release's archives support, gathered per target with the
//! best option first.

use vstd::prelude::*;

use super::{
    strings_view, support_view, supports, supports_for_target, supports_spec, FetchableArchive,
    FetchableUpdater, LibcVersion, PlatformEntry, RuntimeConditions, SupportView,
};
use crate::config::ZipStyle;
use crate::strings::{clone_string, clone_strings, str_eq, str_lt, text_lt};

verus! {

/// Computed platform support details for a Release
#[derive(Debug)]
pub struct PlatformSupport {
    /// The prebuilt archives for the Release
    pub archives: Vec<FetchableArchive>,
    /// The updaters for the Release
    pub updaters: Vec<FetchableUpdater>,
    /// Which options are available for the given target-triples, by target.
    ///
    /// The list of PlatformEntries is pre-sorted in descending quality, so the first
    /// is the best and should be used if possible (but maybe there's troublesome RuntimeConditions).
    pub platforms: Vec<(String, Vec<PlatformEntry>)>,
}

/// A group of options per target, as text
pub type GroupsView = Seq<(Seq<char>, Seq<PlatformEntry>)>;

/// The character-sequence form of the options per target
pub open spec fn groups_view(v: Seq<(String, Vec<PlatformEntry>)>) -> GroupsView {
    v.map_values(|g: (String, Vec<PlatformEntry>)| (g.0@, g.1@))
}

/// The (target, option) pairs archive `idx` supports
pub open spec fn archive_supports(a: FetchableArchive, idx: int) -> Seq<SupportView> {
    supports_spec(strings_view(a.target_triples@), a.native_runtime_conditions, idx as usize)
}

/// The (target, option) pairs of all the archives, archive by archive
pub open spec fn all_supports(archives: Seq<FetchableArchive>) -> Seq<SupportView>
    decreases archives.len(),
{
    if archives.len() == 0 {
        Seq::empty()
    } else {
        all_supports(archives.drop_last()) + archive_supports(
            archives.last(),
            archives.len() - 1,
        )
    }
}

/// Where target `t` belongs among groups ordered by target: the first group
/// whose target does not come before `t`
pub open spec fn group_pos(groups: GroupsView, t: Seq<char>) -> int
    decreases groups.len(),
{
    if groups.len() == 0 {
        0
    } else if !text_lt(groups[0].0, t) {
        0
    } else {
        1 + group_pos(groups.skip(1), t)
    }
}

/// Add option `e` for target `t` to groups ordered by target: at the end of
/// the group for `t`, or as a new group in its place
pub open spec fn group_insert(groups: GroupsView, t: Seq<char>, e: PlatformEntry) -> GroupsView {
    let j = group_pos(groups, t);
    if j < groups.len() && groups[j].0 == t {
        groups.update(j, (t, groups[j].1.push(e)))
    } else {
        groups.insert(j, (t, seq![e]))
    }
}

/// The options of (target, option) pairs gathered per target, ordered by target
pub open spec fn grouped(supports: Seq<SupportView>) -> GroupsView
    decreases supports.len(),
{
    if supports.len() == 0 {
        Seq::empty()
    } else {
        group_insert(grouped(supports.drop_last()), supports.last().0, supports.last().1)
    }
}

/// `a` is a better option than `b`: better quality, or as good and from an
/// archive whose id comes first
pub open spec fn entry_before(a: PlatformEntry, b: PlatformEntry, ids: Seq<Seq<char>>) -> bool {
    a.quality.rank() < b.quality.rank() || (a.quality.rank() == b.quality.rank() && text_lt(
        ids[a.archive_idx as int],
        ids[b.archive_idx as int],
    ))
}

/// Where option `e` goes in a list of options best first: after every
/// option at least as good
pub open spec fn sort_pos(sorted: Seq<PlatformEntry>, e: PlatformEntry, ids: Seq<Seq<char>>) -> int
    decreases sorted.len(),
{
    if sorted.len() == 0 {
        0
    } else if entry_before(e, sorted[0], ids) {
        0
    } else {
        1 + sort_pos(sorted.skip(1), e, ids)
    }
}

/// The options ordered best first, options as good keeping their order
pub open spec fn sorted_entries(s: Seq<PlatformEntry>, ids: Seq<Seq<char>>) -> Seq<PlatformEntry>
    decreases s.len(),
{
    if s.len() == 0 {
        Seq::empty()
    } else {
        let sorted = sorted_entries(s.drop_last(), ids);
        sorted.insert(sort_pos(sorted, s.last(), ids), s.last())
    }
}

/// The ids of the archives
pub open spec fn archive_ids(archives: Seq<FetchableArchive>) -> Seq<Seq<char>> {
    archives.map_values(|a: FetchableArchive| a.id@)
}

/// The options per target that the archives support, ordered by target,
/// each target's options best first
pub open spec fn platforms_spec(archives: Seq<FetchableArchive>) -> GroupsView {
    grouped(all_supports(archives)).map_values(
        |g: (Seq<char>, Seq<PlatformEntry>)| (g.0, sorted_entries(g.1, archive_ids(archives))),
    )
}

/// Every option of every archive's supports is for that archive
pub proof fn lemma_supports_for_archive(targets: Seq<Seq<char>>, c: RuntimeConditions, idx: usize)
    ensures
        forall|i: int|
            0 <= i < supports_spec(targets, c, idx).len() ==> (#[trigger] supports_spec(
                targets,
                c,
                idx,
            )[i]).1.archive_idx == idx,
    decreases targets.len(),
{
    if targets.len() > 0 {
        lemma_supports_for_archive(targets.drop_last(), c, idx);
        let prev = supports_spec(targets.drop_last(), c, idx);
        let last = supports_for_target(targets.last(), c, idx);
        assert forall|i: int| 0 <= i < last.len() implies (#[trigger] last[i]).1.archive_idx
            == idx by {}
        assert forall|i: int| 0 <= i < (prev + last).len() implies (#[trigger] (prev + last)[i]).1.archive_idx
            == idx by {
            if i < prev.len() {
                assert((prev + last)[i] == prev[i]);
            } else {
                assert((prev + last)[i] == last[i - prev.len()]);
            }
        }
    }
}

/// Every option in the groups is for an archive below `n`
pub open spec fn entries_below(groups: GroupsView, n: int) -> bool {
    forall|j: int, k: int|
        0 <= j < groups.len() && 0 <= k < groups[j].1.len() ==> (#[trigger] groups[j].1[k]).archive_idx
            < n
}

/// Inserting an option for an archive below `n` keeps every option below `n`
proof fn lemma_group_insert_below(groups: GroupsView, t: Seq<char>, e: PlatformEntry, n: int)
    requires
        entries_below(groups, n),
        e.archive_idx < n,
    ensures
        entries_below(group_insert(groups, t, e), n),
{
    let j = group_pos(groups, t);
    lemma_group_pos_bound(groups, t);
    let r = group_insert(groups, t, e);
    if j < groups.len() && groups[j].0 == t {
        assert forall|a: int, k: int| 0 <= a < r.len() && 0 <= k < r[a].1.len() implies (
        #[trigger] r[a].1[k]).archive_idx < n by {
            if a == j {
                if k < groups[j].1.len() {
                    assert(r[a].1[k] == groups[j].1[k]);
                }
            } else {
                assert(r[a] == groups[a]);
            }
        }
    } else {
        assert forall|a: int, k: int| 0 <= a < r.len() && 0 <= k < r[a].1.len() implies (
        #[trigger] r[a].1[k]).archive_idx < n by {
            if a < j {
                assert(r[a] == groups[a]);
            } else if a > j {
                assert(r[a] == groups[a - 1]);
            }
        }
    }
}

/// Where a target belongs is within the groups
proof fn lemma_group_pos_bound(groups: GroupsView, t: Seq<char>)
    ensures
        0 <= group_pos(groups, t) <= groups.len(),
    decreases groups.len(),
{
    if groups.len() > 0 && text_lt(groups[0].0, t) {
        lemma_group_pos_bound(groups.skip(1), t);
    }
}

/// Where an option goes is within the list
proof fn lemma_sort_pos_bound(sorted: Seq<PlatformEntry>, e: PlatformEntry, ids: Seq<Seq<char>>)
    ensures
        0 <= sort_pos(sorted, e, ids) <= sorted.len(),
    decreases sorted.len(),
{
    if sorted.len() > 0 && !entry_before(e, sorted[0], ids) {
        lemma_sort_pos_bound(sorted.skip(1), e, ids);
    }
}

/// The position of a target is the first group whose target does not come before it
proof fn lemma_group_pos_first(g: GroupsView, t: Seq<char>, j: int)
    requires
        0 <= j <= g.len(),
        forall|k: int| 0 <= k < j ==> text_lt((#[trigger] g[k]).0, t),
        j == g.len() || !text_lt(g[j].0, t),
    ensures
        group_pos(g, t) == j,
    decreases g.len(),
{
    if g.len() > 0 && j > 0 {
        assert(text_lt(g[0].0, t));
        let rest = g.skip(1);
        assert forall|k: int| 0 <= k < j - 1 implies text_lt((#[trigger] rest[k]).0, t) by {
            assert(rest[k] == g[k + 1]);
        }
        if j < g.len() {
            assert(rest[j - 1] == g[j]);
        }
        lemma_group_pos_first(rest, t, j - 1);
    }
}

/// The position of an option is the first option it is better than
proof fn lemma_sort_pos_first(s: Seq<PlatformEntry>, e: PlatformEntry, ids: Seq<Seq<char>>, j: int)
    requires
        0 <= j <= s.len(),
        forall|k: int| 0 <= k < j ==> !entry_before(e, #[trigger] s[k], ids),
        j == s.len() || entry_before(e, s[j], ids),
    ensures
        sort_pos(s, e, ids) == j,
    decreases s.len(),
{
    if s.len() > 0 && j > 0 {
        assert(!entry_before(e, s[0], ids));
        let rest = s.skip(1);
        assert forall|k: int| 0 <= k < j - 1 implies !entry_before(e, #[trigger] rest[k], ids) by {
            assert(rest[k] == s[k + 1]);
        }
        if j < s.len() {
            assert(rest[j - 1] == s[j]);
        }
        lemma_sort_pos_first(rest, e, ids, j - 1);
    }
}

/// Add option `e` for target `t` to the groups
fn insert_option(groups: &mut Vec<(String, Vec<PlatformEntry>)>, t: String, e: PlatformEntry)
    ensures
        groups_view(final(groups)@) == group_insert(groups_view(old(groups)@), t@, e),
{
    let ghost g0 = groups_view(groups@);
    let mut j: usize = 0;
    loop
        invariant_except_break
            j <= groups@.len(),
            forall|k: int| 0 <= k < j ==> text_lt((#[trigger] g0[k]).0, t@),
        invariant
            g0 == groups_view(groups@),
        ensures
            j <= g0.len(),
            forall|k: int| 0 <= k < j ==> text_lt((#[trigger] g0[k]).0, t@),
            j == g0.len() || !text_lt(g0[j as int].0, t@),
        decreases groups.len() - j,
    {
        if j >= groups.len() {
            break ;
        }
        if !str_lt(groups[j].0.as_str(), t.as_str()) {
            break ;
        }
        j = j + 1;
    }
    proof {
        lemma_group_pos_first(g0, t@, j as int);
    }
    if j < groups.len() && str_eq(groups[j].0.as_str(), t.as_str()) {
        let (key, mut options) = groups.remove(j);
        options.push(e);
        groups.insert(j, (key, options));
        assert(groups_view(groups@) =~= g0.update(j as int, (t@, g0[j as int].1.push(e))));
    } else {
        let fresh = vec![e];
        assert(fresh@ == seq![e]);
        groups.insert(j, (t, fresh));
        assert(groups_view(groups@) =~= g0.insert(j as int, (t@, seq![e])));
    }
}

/// The options ordered best first, options as good keeping their order
fn sort_options(options: &Vec<PlatformEntry>, archives: &Vec<FetchableArchive>) -> (r: Vec<PlatformEntry>)
    requires
        forall|k: int| 0 <= k < options@.len() ==> (#[trigger] options@[k]).archive_idx < archives@.len(),
    ensures
        r@ == sorted_entries(options@, archive_ids(archives@)),
        forall|k: int| 0 <= k < r@.len() ==> (#[trigger] r@[k]).archive_idx < archives@.len(),
{
    let ghost ids = archive_ids(archives@);
    let mut out: Vec<PlatformEntry> = Vec::new();
    let mut i: usize = 0;
    while i < options.len()
        invariant
            i <= options@.len(),
            ids == archive_ids(archives@),
            forall|k: int| 0 <= k < options@.len() ==> (#[trigger] options@[k]).archive_idx < archives@.len(),
            forall|k: int| 0 <= k < out@.len() ==> (#[trigger] out@[k]).archive_idx < archives@.len(),
            out@ == sorted_entries(options@.take(i as int), ids),
        decreases options.len() - i,
    {
        let e = options[i];
        let ghost before = out@;
        proof {
            assert(options@.take(i + 1).drop_last() == options@.take(i as int));
            assert(options@.take(i + 1).last() == e);
        }
        let e_rank = e.quality.rank_of();
        let e_id = archives[e.archive_idx].id.as_str();
        let mut j: usize = 0;
        loop
            invariant_except_break
                j <= out@.len(),
                forall|k: int| 0 <= k < j ==> !entry_before(e, #[trigger] before[k], ids),
            invariant
                out@ == before,
                ids == archive_ids(archives@),
                e_rank == e.quality.rank(),
                e.archive_idx < archives@.len(),
                e_id@ == ids[e.archive_idx as int],
                forall|k: int| 0 <= k < out@.len() ==> (#[trigger] out@[k]).archive_idx < archives@.len(),
            ensures
                j <= before.len(),
                forall|k: int| 0 <= k < j ==> !entry_before(e, #[trigger] before[k], ids),
                j == before.len() || entry_before(e, before[j as int], ids),
            decreases out.len() - j,
        {
            if j >= out.len() {
                break ;
            }
            let o = out[j];
            let o_rank = o.quality.rank_of();
            proof {
                assert(ids[o.archive_idx as int] == archives@[o.archive_idx as int].id@);
            }
            let better = e_rank < o_rank || (e_rank == o_rank && str_lt(
                e_id,
                archives[o.archive_idx].id.as_str(),
            ));
            if better {
                break ;
            }
            j = j + 1;
        }
        proof {
            lemma_sort_pos_first(before, e, ids, j as int);
        }
        out.insert(j, e);
        i = i + 1;
    }
    assert(options@.take(options@.len() as int) == options@);
    out
}

impl PlatformSupport {
    /// Compute the platform support of archives (with their updaters): each
    /// archive's target triple becomes the first target it supports, and
    /// the options are gathered per target, best first
    pub fn from_archives(archives: Vec<FetchableArchive>, updaters: Vec<FetchableUpdater>) -> (r:
        PlatformSupport)
        ensures
            r.updaters@ == updaters@,
            r.archives@.len() == archives@.len(),
            forall|i: int|
                0 <= i < archives@.len() ==> (#[trigger] r.archives@[i]).id == archives@[i].id
                    && r.archives@[i].native_runtime_conditions
                    == archives@[i].native_runtime_conditions && r.archives@[i].target_triples
                    == archives@[i].target_triples && r.archives@[i].updater
                    == archives@[i].updater && r.archives@[i].zip_style
                    == archives@[i].zip_style && r.archives@[i].executables
                    == archives@[i].executables && r.archives@[i].cdylibs
                    == archives@[i].cdylibs && r.archives@[i].cstaticlibs
                    == archives@[i].cstaticlibs && r.archives@[i].sha256sum
                    == archives@[i].sha256sum && r.archives@[i].target_triple@ == if archive_supports(
                    archives@[i],
                    i,
                ).len() > 0 {
                    archive_supports(archives@[i], i)[0].0
                } else {
                    archives@[i].target_triple@
                },
            groups_view(r.platforms@) == platforms_spec(archives@),
            entries_below(groups_view(r.platforms@), r.archives@.len() as int),
            (forall|i: int|
                0 <= i < archives@.len() ==> ((#[trigger] archives@[i]).updater matches Some(u) ==> u
                    < updaters@.len())) ==> r.well_formed(),
    {
        let ghost orig = archives@;
        let mut rest = archives;
        let mut done: Vec<FetchableArchive> = Vec::new();
        let mut groups: Vec<(String, Vec<PlatformEntry>)> = Vec::new();
        while rest.len() > 0
            invariant
                rest@.len() + done@.len() == orig.len(),
                rest@ == orig.skip(done@.len() as int),
                groups_view(groups@) == grouped(all_supports(orig.take(done@.len() as int))),
                entries_below(groups_view(groups@), done@.len() as int),
                forall|i: int|
                    0 <= i < done@.len() ==> (#[trigger] done@[i]).id == orig[i].id
                        && done@[i].native_runtime_conditions == orig[i].native_runtime_conditions
                        && done@[i].target_triples == orig[i].target_triples && done@[i].updater
                        == orig[i].updater && done@[i].zip_style == orig[i].zip_style
                        && done@[i].executables == orig[i].executables && done@[i].cdylibs
                        == orig[i].cdylibs && done@[i].cstaticlibs == orig[i].cstaticlibs
                        && done@[i].sha256sum == orig[i].sha256sum && done@[i].target_triple@
                        == if archive_supports(orig[i], i).len() > 0 {
                        archive_supports(orig[i], i)[0].0
                    } else {
                        orig[i].target_triple@
                    },
            decreases rest@.len(),
        {
            let idx = done.len();
            let archive = rest.remove(0);
            proof {
                assert(orig[idx as int] == archive);
                assert(orig.skip(idx + 1) == orig.skip(idx as int).remove(0));
            }
            let sups = supports(idx, &archive);
            let ghost sv = support_view(sups@);
            proof {
                assert(sv == archive_supports(archive, idx as int));
                lemma_supports_for_archive(strings_view(archive.target_triples@), archive.native_runtime_conditions, idx);
            }
            let FetchableArchive {
                id,
                native_runtime_conditions,
                target_triple,
                target_triples,
                sha256sum,
                executables,
                cdylibs,
                cstaticlibs,
                zip_style,
                updater,
            } = archive;
            // some places need us to pick a simple single target triple
            // and it needs to have desugarrings that `supports` computes, so we
            // just grab the first triple, which is always going to be a native one
            let target_triple = if sups.len() > 0 {
                proof {
                    assert(sv[0] == (sups@[0].0@, sups@[0].1));
                }
                clone_string(&sups[0].0)
            } else {
                target_triple
            };
            done.push(
                FetchableArchive {
                    id,
                    native_runtime_conditions,
                    target_triple,
                    target_triples,
                    sha256sum,
                    executables,
                    cdylibs,
                    cstaticlibs,
                    zip_style,
                    updater,
                },
            );
            let ghost base = groups_view(groups@);
            let mut k: usize = 0;
            let mut sups = sups;
            let ghost all_sv = sv;
            while sups.len() > 0
                invariant
                    k + sups@.len() == all_sv.len(),
                    all_sv.len() <= usize::MAX,
                    support_view(sups@) == all_sv.skip(k as int),
                    forall|i: int| 0 <= i < all_sv.len() ==> (#[trigger] all_sv[i]).1.archive_idx == idx,
                    done@.len() == idx + 1,
                    groups_view(groups@) == grouped(all_supports(orig.take(idx as int)) + all_sv.take(k as int)),
                    entries_below(groups_view(groups@), done@.len() as int),
                decreases sups@.len(),
            {
                let ghost old_sups = sups@;
                let (t, e) = sups.remove(0);
                let ghost prev = all_supports(orig.take(idx as int)) + all_sv.take(k as int);
                proof {
                    assert(support_view(old_sups)[0] == (t@, e));
                    assert(all_sv.skip(k as int)[0] == (t@, e));
                    assert(support_view(sups@) =~= support_view(old_sups).skip(1));
                    assert(all_sv.skip(k as int).skip(1) =~= all_sv.skip(k + 1));
                    assert(all_sv[k as int] == (t@, e));
                    let next = all_supports(orig.take(idx as int)) + all_sv.take(k + 1);
                    assert(next.drop_last() == prev);
                    assert(next.last() == (t@, e));
                    lemma_group_insert_below(groups_view(groups@), t@, e, done@.len() as int);
                }
                insert_option(&mut groups, t, e);
                k = k + 1;
            }
            proof {
                assert(all_sv.take(k as int) == all_sv);
                let taken = orig.take(idx + 1);
                assert(taken.drop_last() == orig.take(idx as int));
                assert(taken.last() == orig[idx as int]);
            }
        }
        proof {
            assert(orig.take(orig.len() as int) == orig);
        }
        let ghost ids = archive_ids(orig);
        assert(archive_ids(done@) =~= ids);
        let ghost gv = groups_view(groups@);
        let mut platforms: Vec<(String, Vec<PlatformEntry>)> = Vec::new();
        let mut i: usize = 0;
        while i < groups.len()
            invariant
                i <= groups@.len(),
                gv == groups_view(groups@),
                entries_below(gv, done@.len() as int),
                archive_ids(done@) == ids,
                entries_below(groups_view(platforms@), done@.len() as int),
                groups_view(platforms@) == gv.take(i as int).map_values(
                    |g: (Seq<char>, Seq<PlatformEntry>)| (g.0, sorted_entries(g.1, ids)),
                ),
            decreases groups.len() - i,
        {
            let ghost before = platforms@;
            proof {
                assert forall|k: int| 0 <= k < groups@[i as int].1@.len() implies (
                #[trigger] groups@[i as int].1@[k]).archive_idx < done@.len() by {
                    assert(gv[i as int].1[k] == groups@[i as int].1@[k]);
                }
            }
            let sorted = sort_options(&groups[i].1, &done);
            let ghost sv = sorted@;
            platforms.push((clone_string(&groups[i].0), sorted));
            proof {
                assert(gv.take(i + 1) == gv.take(i as int).push(gv[i as int]));
                assert(groups_view(platforms@) =~= groups_view(before).push(
                    (gv[i as int].0, sorted_entries(gv[i as int].1, ids)),
                ));
                assert forall|j: int, k: int|
                    0 <= j < groups_view(platforms@).len() && 0 <= k < groups_view(platforms@)[j].1.len()
                        implies (#[trigger] groups_view(platforms@)[j].1[k]).archive_idx < done@.len() by {
                    if j < i {
                        assert(groups_view(platforms@)[j] == groups_view(before)[j]);
                    } else {
                        assert(groups_view(platforms@)[j].1 == sv);
                        assert(sv[k].archive_idx < done@.len());
                    }
                }
            }
            i = i + 1;
        }
        assert(gv.take(gv.len() as int) == gv);
        PlatformSupport { archives: done, updaters, platforms }
    }

    /// Every option is for one of the archives, and every archive's updater
    /// is one of the updaters
    pub open spec fn well_formed(self) -> bool {
        &&& entries_below(groups_view(self.platforms@), self.archives@.len() as int)
        &&& forall|i: int|
            0 <= i < self.archives@.len() ==> ((#[trigger] self.archives@[i]).updater matches Some(
                u,
            ) ==> u < self.updaters@.len())
    }

    /// Conflate all the options that `fragments` suggests to create a single unified
    /// RuntimeConditions that can be used in installers while we transition to implementations
    /// that more granularly factor in these details.
    pub fn conflated_runtime_conditions(&self) -> (r: RuntimeConditions)
        ensures
            r == conflated_spec(groups_view(self.platforms@)),
    {
        let ghost gv = groups_view(self.platforms@);
        let mut runtime_conditions = RuntimeConditions::default();
        let mut i: usize = 0;
        while i < self.platforms.len()
            invariant
                i <= self.platforms@.len(),
                gv == groups_view(self.platforms@),
                runtime_conditions == conflated_spec(gv.take(i as int)),
            decreases self.platforms.len() - i,
        {
            proof {
                assert(gv.take(i + 1).drop_last() == gv.take(i as int));
                assert(gv.take(i + 1).last() == gv[i as int]);
            }
            if self.platforms[i].1.len() > 0 {
                runtime_conditions.merge(&self.platforms[i].1[0].runtime_conditions);
            }
            i = i + 1;
        }
        assert(gv.take(gv.len() as int) == gv);
        runtime_conditions
    }

    /// Similar to conflated_runtime_conditions, but certain None values
    /// are replaced by safe defaults.
    /// Currently, a default value is provided for glibc; others may be
    /// provided in the future.
    pub fn safe_conflated_runtime_conditions(&self) -> (r: RuntimeConditions)
        ensures
            r == ({
                let c = conflated_spec(groups_view(self.platforms@));
                RuntimeConditions {
                    min_glibc_version: match c.min_glibc_version {
                        Some(v) => Some(v),
                        None => Some(LibcVersion { major: 2, series: 31 }),
                    },
                    ..c
                }
            }),
    {
        let mut runtime_conditions = self.conflated_runtime_conditions();
        if runtime_conditions.min_glibc_version.is_none() {
            runtime_conditions.min_glibc_version = Some(LibcVersion::default_glibc());
        }
        runtime_conditions
    }

    /// Convert to the old-style format: for each target, in order, the best option
    pub fn fragments(&self) -> (r: Vec<ExecutableZipFragment>)
        requires
            self.well_formed(),
        ensures
            r@.len() == best_options(groups_view(self.platforms@)).len(),
            forall|i: int|
                0 <= i < r@.len() ==> (#[trigger] r@[i]).describes(
                    best_options(groups_view(self.platforms@))[i],
                    self.archives@,
                    self.updaters@,
                ),
    {
        let ghost gv = groups_view(self.platforms@);
        let mut fragments: Vec<ExecutableZipFragment> = Vec::new();
        let mut i: usize = 0;
        while i < self.platforms.len()
            invariant
                i <= self.platforms@.len(),
                gv == groups_view(self.platforms@),
                self.well_formed(),
                fragments@.len() == best_options(gv.take(i as int)).len(),
                forall|k: int|
                    0 <= k < fragments@.len() ==> (#[trigger] fragments@[k]).describes(
                        best_options(gv.take(i as int))[k],
                        self.archives@,
                        self.updaters@,
                    ),
            decreases self.platforms.len() - i,
        {
            let ghost prev = gv.take(i as int);
            proof {
                assert(gv.take(i + 1).drop_last() == prev);
                assert(gv.take(i + 1).last() == gv[i as int]);
            }
            let (target, options) = &self.platforms[i];
            if options.len() > 0 {
                let option = options[0];
                proof {
                    assert(gv[i as int].1[0] == option);
                }
                let archive = &self.archives[option.archive_idx];
                let updater = match archive.updater {
                    Some(updater_idx) => {
                        let updater = &self.updaters[updater_idx];
                        Some(
                            UpdaterFragment {
                                id: clone_string(&updater.id),
                                binary: clone_string(&updater.binary),
                            },
                        )
                    },
                    None => None,
                };
                let fragment = ExecutableZipFragment {
                    id: clone_string(&archive.id),
                    target_triple: clone_string(target),
                    zip_style: archive.zip_style,
                    executables: clone_strings(&archive.executables),
                    cdylibs: clone_strings(&archive.cdylibs),
                    cstaticlibs: clone_strings(&archive.cstaticlibs),
                    runtime_conditions: option.runtime_conditions,
                    updater,
                };
                fragments.push(fragment);
                proof {
                    let best = best_options(gv.take(i + 1));
                    assert(best == best_options(prev).push((gv[i as int].0, option)));
                    assert forall|k: int| 0 <= k < fragments@.len() implies (
                    #[trigger] fragments@[k]).describes(best[k], self.archives@, self.updaters@) by {
                        if k < fragments@.len() - 1 {
                            assert(best[k] == best_options(prev)[k]);
                        }
                    }
                }
            } else {
                proof {
                    assert(best_options(gv.take(i + 1)) == best_options(prev));
                }
            }
            i = i + 1;
        }
        assert(gv.take(gv.len() as int) == gv);
        fragments
    }
}

/// The runtime conditions of every target's best option, merged
pub open spec fn conflated_spec(groups: GroupsView) -> RuntimeConditions
    decreases groups.len(),
{
    if groups.len() == 0 {
        RuntimeConditions::none()
    } else {
        let prev = conflated_spec(groups.drop_last());
        if groups.last().1.len() > 0 {
            prev.merged(groups.last().1[0].runtime_conditions)
        } else {
            prev
        }
    }
}

/// For each target with any option, in order, its best option
pub open spec fn best_options(groups: GroupsView) -> Seq<(Seq<char>, PlatformEntry)>
    decreases groups.len(),
{
    if groups.len() == 0 {
        Seq::empty()
    } else {
        let prev = best_options(groups.drop_last());
        if groups.last().1.len() > 0 {
            prev.push((groups.last().0, groups.last().1[0]))
        } else {
            prev
        }
    }
}

/// The updater an archive comes with
#[derive(Debug)]
pub struct UpdaterFragment {
    /// The id of the updater
    pub id: String,
    /// The binary name of the updater
    pub binary: String,
}

/// The old-style description of the archive to fetch for a target
#[derive(Debug)]
pub struct ExecutableZipFragment {
    /// The id of the archive
    pub id: String,
    /// The target triple the archive is for
    pub target_triple: String,
    /// The kind of compression the archive has
    pub zip_style: ZipStyle,
    /// The executables in the archive
    pub executables: Vec<String>,
    /// The dynamic libraries in the archive
    pub cdylibs: Vec<String>,
    /// The static libraries in the archive
    pub cstaticlibs: Vec<String>,
    /// Conditions the installing system must satisfy
    pub runtime_conditions: RuntimeConditions,
    /// The updater to fetch with the archive, if any
    pub updater: Option<UpdaterFragment>,
}

impl ExecutableZipFragment {
    /// This fragment describes the best option `best` for its target
    pub open spec fn describes(
        self,
        best: (Seq<char>, PlatformEntry),
        archives: Seq<FetchableArchive>,
        updaters: Seq<FetchableUpdater>,
    ) -> bool {
        let archive = archives[best.1.archive_idx as int];
        &&& self.target_triple@ == best.0
        &&& self.id@ == archive.id@
        &&& self.zip_style == archive.zip_style
        &&& self.executables@ == archive.executables@
        &&& self.cdylibs@ == archive.cdylibs@
        &&& self.cstaticlibs@ == archive.cstaticlibs@
        &&& self.runtime_conditions == best.1.runtime_conditions
        &&& match archive.updater {
            Some(u) => self.updater matches Some(f) && f.id@ == updaters[u as int].id@ && f.binary@
                == updaters[u as int].binary@,
            None => self.updater is None,
        }
    }
}

} // verus!

//! What holds of the config operations across calls and for all inputs.

use vstd::prelude::*;

use crate::config::v0::DistMetadata;
use crate::config::v1::artifacts::archives::{ArchiveConfig, ArchiveLayer};
use crate::config::v1::ci::github::{secret_entries, GithubCiLayer, GithubCiView, GithubSecretSpec};
use crate::config::v1::ci::{CommonCiConfig, CommonCiLayer};
use crate::config::v1::hosts::github::{GithubHostConfig, GithubHostLayer};
use crate::config::v1::layer::{bool_layered, opt_or, val_or, ApplyLayer, BoolOr};
use crate::config::v1::TomlLayer;
use crate::config::{
    lemma_split_first, split_first, GithubRepoPair, InstallPathErrorKind, InstallPathView,
    CiStyle, HostingStyle, JobStyle, LibraryStyle, PublishStyleView, ZipStyle,
};
use crate::env::{env_lookup, formula_flags_spec, formulas_spec, join_spec, EnvMap};
use crate::platform::support::{
    entry_before, group_insert, group_pos, grouped, sort_pos, sorted_entries, GroupsView,
};
use crate::init::interactive::{by_label, label_pos};
use crate::keyed::{key_pos, keyed_from, keyed_insert, keys_ascending, keys_of, texts_ascending};
use crate::manifest::{
    asset_pos, assets_by_name, lemma_asset_at_path_first, merge_asset, merged_assets, name_before,
    same_path, ManifestAsset,
};
use crate::plan::{releases_by_version, version_insert, version_pos, VersionGroupsView};
use crate::platform::{libc_le, max_of_min_spec, LibcVersion, PlatformEntry, RuntimeConditions, SupportView};
use crate::strings::text_lt;

verus! {

// ---------------------------------------------------------------------------
// Layering

/// A later layer wins: a value layered with `Some(v)` is `v`, and with
/// `None` stays as it was; layering with two values keeps the later one.
pub proof fn law_later_layer_wins<T>(cur: T, first: T, second: T)
    ensures
        val_or(cur, Some(first)) == first,
        val_or(cur, None) == cur,
        val_or(val_or(cur, Some(first)), Some(second)) == second,
        opt_or(Some(cur), Some(first)) == Some(first),
        opt_or(Some(cur), None::<T>) == Some(cur),
{
}

/// Layering a value twice is layering it once with the two layers merged
pub proof fn law_val_layers_compose<T>(cur: T, first: Option<T>, second: Option<T>)
    ensures
        val_or(val_or(cur, first), second) == val_or(cur, opt_or(first, second)),
        opt_or(opt_or(Some(cur), first), second) == opt_or(Some(cur), opt_or(first, second)),
{
}

/// Layering an optional value twice is layering it once with the two layers merged
pub proof fn law_opt_layers_compose<T>(cur: Option<T>, first: Option<T>, second: Option<T>)
    ensures
        opt_or(opt_or(cur, first), second) == opt_or(cur, opt_or(first, second)),
{
}

/// Layering the CI settings with one layer and then another gives what
/// layering them once with the two layers merged (the later one winning) gives
pub proof fn law_ci_layers_compose(cfg: CommonCiConfig, first: CommonCiLayer, second: CommonCiLayer)
    ensures
        cfg.layered(first).layered(second) == cfg.layered(first.layered(second)),
{
    law_val_layers_compose(cfg.merge_tasks, first.merge_tasks, second.merge_tasks);
    law_val_layers_compose(cfg.fail_fast, first.fail_fast, second.fail_fast);
    law_opt_layers_compose(cfg.cache_builds, first.cache_builds, second.cache_builds);
    law_val_layers_compose(
        cfg.build_local_artifacts,
        first.build_local_artifacts,
        second.build_local_artifacts,
    );
    law_val_layers_compose(cfg.dispatch_releases, first.dispatch_releases, second.dispatch_releases);
    law_opt_layers_compose(cfg.release_branch, first.release_branch, second.release_branch);
    law_val_layers_compose(cfg.pr_run_mode, first.pr_run_mode, second.pr_run_mode);
    law_opt_layers_compose(cfg.tag_namespace, first.tag_namespace, second.tag_namespace);
    law_val_layers_compose(cfg.plan_jobs, first.plan_jobs, second.plan_jobs);
    law_val_layers_compose(cfg.build_local_jobs, first.build_local_jobs, second.build_local_jobs);
    law_val_layers_compose(cfg.build_global_jobs, first.build_global_jobs, second.build_global_jobs);
    law_val_layers_compose(cfg.host_jobs, first.host_jobs, second.host_jobs);
    law_val_layers_compose(cfg.publish_jobs, first.publish_jobs, second.publish_jobs);
    law_val_layers_compose(
        cfg.post_announce_jobs,
        first.post_announce_jobs,
        second.post_announce_jobs,
    );
}

/// Layering the CI settings twice with the same layer is the same as once
pub proof fn law_ci_layer_idempotent(cfg: CommonCiConfig, layer: CommonCiLayer)
    ensures
        cfg.layered(layer).layered(layer) == cfg.layered(layer),
{
}

/// A CI layer that sets nothing changes nothing
pub proof fn law_ci_empty_layer(cfg: CommonCiConfig)
    ensures
        cfg.layered(CommonCiLayer::spec_default()) == cfg,
{
}

/// Layering the github host settings with one layer and then another gives
/// what layering them once with the two layers merged gives
pub proof fn law_github_host_layers_compose(
    cfg: GithubHostConfig,
    first: GithubHostLayer,
    second: GithubHostLayer,
)
    ensures
        cfg.layered(first).layered(second) == cfg.layered(first.layered(second)),
{
}

/// A github host layer that sets nothing changes nothing
pub proof fn law_github_host_empty_layer(cfg: GithubHostConfig)
    ensures
        cfg.layered(GithubHostLayer::spec_default()) == cfg,
{
}

/// Layering the archive settings with one layer and then another gives
/// what layering them once with the two layers merged gives
pub proof fn law_archive_layers_compose(cfg: ArchiveConfig, first: ArchiveLayer, second: ArchiveLayer)
    ensures
        cfg.layered(first).layered(second) == cfg.layered(first.layered(second)),
{
}

/// A boolean layer of `false` disables a setting whatever it was, and a
/// later `true` enables it again from its defaults
pub proof fn law_bool_layer_disable_enable<T: ApplyLayer>(cur: Option<T>, dflt: T)
    ensures
        bool_layered(cur, Some(BoolOr::<T::Layer>::Bool(false)), dflt) is None,
        bool_layered(
            bool_layered(cur, Some(BoolOr::<T::Layer>::Bool(false)), dflt),
            Some(BoolOr::<T::Layer>::Bool(true)),
            dflt,
        ) == Some(dflt),
{
}

/// A boolean layer of `true`, or no layer, keeps an enabled setting as it is
pub proof fn law_bool_layer_keeps_enabled<T: ApplyLayer>(cur: T, dflt: T)
    ensures
        bool_layered(Some(cur), Some(BoolOr::<T::Layer>::Bool(true)), dflt) == Some(cur),
        bool_layered(Some(cur), None::<BoolOr<T::Layer>>, dflt) == Some(cur),
{
}

// ---------------------------------------------------------------------------
// Runtime conditions

/// Merging runtime conditions does not depend on their order
pub proof fn law_runtime_conditions_merge_commutative(a: RuntimeConditions, b: RuntimeConditions)
    ensures
        a.merged(b) == b.merged(a),
{
}

/// Merging runtime conditions does not depend on grouping
pub proof fn law_runtime_conditions_merge_associative(
    a: RuntimeConditions,
    b: RuntimeConditions,
    c: RuntimeConditions,
)
    ensures
        a.merged(b).merged(c) == a.merged(b.merged(c)),
{
}

/// Merging runtime conditions with themselves, or with no conditions,
/// changes nothing
pub proof fn law_runtime_conditions_merge_idempotent(a: RuntimeConditions)
    ensures
        a.merged(a) == a,
        a.merged(RuntimeConditions::none()) == a,
{
}

/// The merged minimum libc version is no older than either side's
pub proof fn law_max_of_min_is_upper_bound(lhs: Option<LibcVersion>, rhs: Option<LibcVersion>)
    ensures
        lhs matches Some(l) ==> max_of_min_spec(lhs, rhs) matches Some(m) && libc_le(l, m),
        rhs matches Some(r) ==> max_of_min_spec(lhs, rhs) matches Some(m) && libc_le(r, m),
        max_of_min_spec(lhs, rhs) is None <==> lhs is None && rhs is None,
{
}

// ---------------------------------------------------------------------------
// Names written in config files

/// A CI provider's name parses back to it
pub proof fn law_ci_style_roundtrip(style: CiStyle)
    ensures
        CiStyle::parse_spec(style.display_spec()) == Some(style),
{
}

/// A release host's name parses back to it
pub proof fn law_hosting_style_roundtrip(style: HostingStyle)
    ensures
        HostingStyle::parse_spec(style.display_spec()) == Some(style),
{
    reveal_strlit("github");
    reveal_strlit("axodotdev");
    assert("github"@.len() != "axodotdev"@.len());
}

/// A library kind's name parses back to it
pub proof fn law_library_style_roundtrip(style: LibraryStyle)
    ensures
        LibraryStyle::parse_spec(style.display_spec()) == Some(style),
{
    reveal_strlit("cdylib");
    reveal_strlit("cstaticlib");
    assert("cdylib"@.len() != "cstaticlib"@.len());
}

/// A user job's text parses back to its name
pub proof fn law_job_style_roundtrip(name: Seq<char>)
    ensures
        JobStyle::parse_spec(JobStyle::display_spec(name)) == Some(name),
{
    reveal_strlit("./");
    assert(("./"@ + name).skip(2) =~= name);
}

/// A publish job's text parses back to it
pub proof fn law_publish_style_roundtrip(style: PublishStyleView)
    ensures
        PublishStyleView::parse_spec(style.display_spec()) == Some(style),
{
    reveal_strlit("./");
    reveal_strlit("homebrew");
    reveal_strlit("npm");
    match style {
        PublishStyleView::User(name) => {
            assert("./"@.is_prefix_of("./"@ + name));
            assert(("./"@ + name).skip(2) =~= name);
        },
        PublishStyleView::Homebrew => {
            assert("homebrew"@[0] != "./"@[0]);
            assert("homebrew"@ != "npm"@);
        },
        PublishStyleView::Npm => {
            assert("npm"@[0] != "./"@[0]);
            assert("npm"@.len() != "homebrew"@.len());
        },
    }
}

/// The extension of every archive format (but the temp dir, which has none)
/// names that format again
pub proof fn law_zip_style_ext_roundtrip(style: ZipStyle)
    requires
        style != ZipStyle::TempDir,
    ensures
        ZipStyle::from_ext_spec(style.ext_spec()) == Some(style),
{
    reveal_strlit(".zip");
    reveal_strlit(".tar.gz");
    reveal_strlit(".tar.xz");
    reveal_strlit(".tar.zst");
    reveal_strlit(".tar.zstd");
    assert(".zip"@.len() == 4);
    assert(".tar.gz"@.len() == 7 && ".tar.xz"@.len() == 7 && ".tar.zst"@.len() == 8);
    assert(".tar.gz"@[5] != ".tar.xz"@[5]);
}

// ---------------------------------------------------------------------------
// Environment

/// In a parsed environment, the last entry that sets a variable gives its
/// value, and a variable no entry sets has none
pub proof fn law_env_last_entry_wins(entries: Seq<(String, String)>, key: Seq<char>)
    ensures
        env_lookup(entries, key) matches Some(v) ==> exists|i: int|
            0 <= i < entries.len() && #[trigger] entries[i].0@ == key && entries[i].1@ == v
                && forall|j: int| i < j < entries.len() ==> #[trigger] entries[j].0@ != key,
        env_lookup(entries, key) is None <==> forall|i: int|
            0 <= i < entries.len() ==> #[trigger] entries[i].0@ != key,
    decreases entries.len(),
{
    if entries.len() > 0 {
        let rest = entries.drop_last();
        law_env_last_entry_wins(rest, key);
        let last = entries.len() - 1;
        assert(entries[last] == entries.last());
        if entries.last().0@ == key {
            assert(entries[last].0@ == key);
        } else {
            assert(entries[last].0@ != key);
            assert forall|i: int| 0 <= i < rest.len() implies entries[i] == #[trigger] rest[i] by {}
            assert((forall|i: int| 0 <= i < entries.len() ==> #[trigger] entries[i].0@ != key) <==> (
            forall|i: int| 0 <= i < rest.len() ==> #[trigger] rest[i].0@ != key)) by {
                if forall|i: int| 0 <= i < rest.len() ==> #[trigger] rest[i].0@ != key {
                    assert forall|i: int| 0 <= i < entries.len() implies #[trigger] entries[i].0@
                        != key by {
                        if i < rest.len() {
                            assert(entries[i] == rest[i]);
                        }
                    }
                }
            }
            if let Some(v) = env_lookup(rest, key) {
                let i = choose|i: int|
                    0 <= i < rest.len() && #[trigger] rest[i].0@ == key && rest[i].1@ == v
                        && forall|j: int| i < j < rest.len() ==> #[trigger] rest[j].0@ != key;
                assert(entries[i] == rest[i]);
                assert forall|j: int| i < j < entries.len() implies #[trigger] entries[j].0@ != key by {
                    if j < rest.len() {
                        assert(entries[j] == rest[j]);
                    }
                }
            }
        }
    }
}

// ---------------------------------------------------------------------------
// Old-format config

/// Merging a workspace config that sets nothing leaves the package config
/// as it was
pub proof fn law_merge_unset_workspace(new: DistMetadata, pkg: DistMetadata, ws: DistMetadata)
    requires
        ws.is_unset(),
        new.merged_from(pkg, ws),
    ensures
        new.same_as(pkg),
{
}

/// Converting old-format settings that set nothing gives a layer that sets
/// nothing, whether the settings are the workspace's or a package's
pub proof fn law_convert_unset(m: DistMetadata, r: TomlLayer, is_global: bool)
    requires
        m.is_unset(),
        r.converted_from(m, is_global),
    ensures
        r.config_version == crate::config::ConfigVersion::V1,
        r.dist_version is None,
        r.dist_url_override is None,
        r.dist is None,
        r.allow_dirty is None,
        r.targets is None,
        r.artifacts is None,
        r.builds is None,
        r.ci is None,
        r.hosts is None,
        r.installers is None,
        r.publishers is None,
{
}

// ---------------------------------------------------------------------------
// Platform support

/// No text comes before itself
pub proof fn law_text_order_irreflexive(a: Seq<char>)
    ensures
        !text_lt(a, a),
    decreases a.len(),
{
    if a.len() > 0 {
        law_text_order_irreflexive(a.skip(1));
    }
}

/// The order of text is transitive
pub proof fn law_text_order_transitive(a: Seq<char>, b: Seq<char>, c: Seq<char>)
    requires
        text_lt(a, b),
        text_lt(b, c),
    ensures
        text_lt(a, c),
    decreases a.len(),
{
    if a.len() > 0 && b.len() > 0 && c.len() > 0 && a[0] == b[0] && b[0] == c[0] {
        law_text_order_transitive(a.skip(1), b.skip(1), c.skip(1));
    }
}

/// Of two different texts, one comes before the other
pub proof fn law_text_order_total(a: Seq<char>, b: Seq<char>)
    ensures
        a == b || text_lt(a, b) || text_lt(b, a),
    decreases a.len(),
{
    if a.len() > 0 && b.len() > 0 && a[0] == b[0] {
        law_text_order_total(a.skip(1), b.skip(1));
        if a.skip(1) == b.skip(1) {
            assert(a =~= seq![a[0]] + a.skip(1));
            assert(b =~= seq![b[0]] + b.skip(1));
        }
    } else if a.len() > 0 && b.len() > 0 {
        assert((a[0] as int) != (b[0] as int));
    } else if a.len() == 0 && b.len() == 0 {
        assert(a =~= b);
    }
}

/// Of two texts, at most one comes before the other
pub proof fn law_text_order_asymmetric(a: Seq<char>, b: Seq<char>)
    requires
        text_lt(a, b),
    ensures
        !text_lt(b, a),
{
    if text_lt(b, a) {
        law_text_order_transitive(a, b, a);
        law_text_order_irreflexive(a);
    }
}

/// The targets of the groups are in order, each once
pub open spec fn targets_ordered(g: GroupsView) -> bool {
    forall|i: int, j: int| 0 <= i < j < g.len() ==> text_lt(#[trigger] g[i].0, #[trigger] g[j].0)
}

/// What the position of a target among the groups tells
proof fn lemma_group_pos_facts(g: GroupsView, t: Seq<char>)
    ensures
        0 <= group_pos(g, t) <= g.len(),
        forall|k: int| 0 <= k < group_pos(g, t) ==> text_lt((#[trigger] g[k]).0, t),
        group_pos(g, t) < g.len() ==> !text_lt(g[group_pos(g, t)].0, t),
    decreases g.len(),
{
    if g.len() > 0 && text_lt(g[0].0, t) {
        let rest = g.skip(1);
        lemma_group_pos_facts(rest, t);
        assert forall|k: int| 0 <= k < group_pos(g, t) implies text_lt((#[trigger] g[k]).0, t) by {
            if k > 0 {
                assert(g[k] == rest[k - 1]);
            }
        }
    }
}

/// Adding an option keeps the targets in order, each once
proof fn lemma_group_insert_ordered(g: GroupsView, t: Seq<char>, e: PlatformEntry)
    requires
        targets_ordered(g),
    ensures
        targets_ordered(group_insert(g, t, e)),
{
    lemma_group_pos_facts(g, t);
    let j = group_pos(g, t);
    let r = group_insert(g, t, e);
    if j < g.len() && g[j].0 == t {
        assert forall|a: int, b: int| 0 <= a < b < r.len() implies text_lt(
            #[trigger] r[a].0,
            #[trigger] r[b].0,
        ) by {
            assert(r[a].0 == g[a].0);
            assert(r[b].0 == g[b].0);
        }
    } else {
        if j < g.len() {
            law_text_order_total(g[j].0, t);
        }
        assert forall|a: int, b: int| 0 <= a < b < r.len() implies text_lt(
            #[trigger] r[a].0,
            #[trigger] r[b].0,
        ) by {
            let ka = if a < j { g[a].0 } else if a == j { t } else { g[a - 1].0 };
            let kb = if b < j { g[b].0 } else if b == j { t } else { g[b - 1].0 };
            assert(r[a].0 == ka);
            assert(r[b].0 == kb);
            if a < j && b > j {
                assert(text_lt(g[a].0, t));
                assert(text_lt(t, g[j].0));
                law_text_order_transitive(g[a].0, t, g[j].0);
                if b - 1 > j {
                    law_text_order_transitive(g[a].0, g[j].0, g[b - 1].0);
                }
            } else if a == j && b > j + 1 {
                law_text_order_transitive(t, g[j].0, g[b - 1].0);
            }
        }
    }
}

/// The options the archives support are gathered per target with the
/// targets in order, each once
pub proof fn law_platform_targets_ordered(supports: Seq<SupportView>)
    ensures
        targets_ordered(grouped(supports)),
    decreases supports.len(),
{
    if supports.len() > 0 {
        law_platform_targets_ordered(supports.drop_last());
        lemma_group_insert_ordered(grouped(supports.drop_last()), supports.last().0, supports.last().1);
    }
}

/// No option is better than an option before it
pub open spec fn best_first(s: Seq<PlatformEntry>, ids: Seq<Seq<char>>) -> bool {
    forall|i: int, j: int| 0 <= i < j < s.len() ==> !entry_before(#[trigger] s[j], #[trigger] s[i], ids)
}

/// Being a better option is transitive
proof fn lemma_entry_before_transitive(a: PlatformEntry, b: PlatformEntry, c: PlatformEntry, ids: Seq<Seq<char>>)
    requires
        entry_before(a, b, ids),
        entry_before(b, c, ids),
    ensures
        entry_before(a, c, ids),
{
    if a.quality.rank() == b.quality.rank() && b.quality.rank() == c.quality.rank() {
        law_text_order_transitive(
            ids[a.archive_idx as int],
            ids[b.archive_idx as int],
            ids[c.archive_idx as int],
        );
    }
}

/// Of two options, at most one is better than the other
proof fn lemma_entry_before_asymmetric(a: PlatformEntry, b: PlatformEntry, ids: Seq<Seq<char>>)
    requires
        entry_before(a, b, ids),
    ensures
        !entry_before(b, a, ids),
{
    if a.quality.rank() == b.quality.rank() {
        law_text_order_asymmetric(ids[a.archive_idx as int], ids[b.archive_idx as int]);
    }
}

/// What the position of an option in a list tells
proof fn lemma_sort_pos_facts(s: Seq<PlatformEntry>, e: PlatformEntry, ids: Seq<Seq<char>>)
    ensures
        0 <= sort_pos(s, e, ids) <= s.len(),
        forall|k: int| 0 <= k < sort_pos(s, e, ids) ==> !entry_before(e, #[trigger] s[k], ids),
        sort_pos(s, e, ids) < s.len() ==> entry_before(e, s[sort_pos(s, e, ids)], ids),
    decreases s.len(),
{
    if s.len() > 0 && !entry_before(e, s[0], ids) {
        let rest = s.skip(1);
        lemma_sort_pos_facts(rest, e, ids);
        assert forall|k: int| 0 <= k < sort_pos(s, e, ids) implies !entry_before(e, #[trigger] s[k], ids) by {
            if k > 0 {
                assert(s[k] == rest[k - 1]);
            }
        }
    }
}

/// Each target's options are ordered best first: no option is better than
/// one listed before it
pub proof fn law_platform_options_best_first(s: Seq<PlatformEntry>, ids: Seq<Seq<char>>)
    ensures
        best_first(sorted_entries(s, ids), ids),
        sorted_entries(s, ids).len() == s.len(),
    decreases s.len(),
{
    if s.len() > 0 {
        law_platform_options_best_first(s.drop_last(), ids);
        let sorted = sorted_entries(s.drop_last(), ids);
        let e = s.last();
        lemma_sort_pos_facts(sorted, e, ids);
        let p = sort_pos(sorted, e, ids);
        let r = sorted.insert(p, e);
        assert forall|i: int, j: int| 0 <= i < j < r.len() implies !entry_before(
            #[trigger] r[j],
            #[trigger] r[i],
            ids,
        ) by {
            if j < p {
                assert(r[i] == sorted[i] && r[j] == sorted[j]);
            } else if j == p {
                assert(r[i] == sorted[i] && r[j] == e);
            } else if i == p {
                assert(r[j] == sorted[j - 1]);
                assert(entry_before(e, sorted[p], ids));
                if j - 1 > p {
                    assert(!entry_before(sorted[j - 1], sorted[p], ids));
                    if entry_before(sorted[j - 1], e, ids) {
                        lemma_entry_before_transitive(sorted[j - 1], e, sorted[p], ids);
                    }
                } else {
                    lemma_entry_before_asymmetric(e, sorted[p], ids);
                }
            } else if i < p {
                assert(r[i] == sorted[i] && r[j] == sorted[j - 1]);
            } else {
                assert(r[i] == sorted[i - 1] && r[j] == sorted[j - 1]);
            }
        }
    }
}


// ---------------------------------------------------------------------------
// Planning

/// The versions of the groups are in order, each once
pub open spec fn versions_ordered(g: VersionGroupsView) -> bool {
    forall|i: int, j: int| 0 <= i < j < g.len() ==> text_lt(#[trigger] g[i].0, #[trigger] g[j].0)
}

/// The (version, app name) release is listed under its version
pub open spec fn release_listed(g: VersionGroupsView, release: (Seq<char>, Seq<char>)) -> bool {
    exists|k: int| 0 <= k < g.len() && (#[trigger] g[k]).0 == release.0 && g[k].1.contains(release.1)
}

/// Every (version, app name) release is listed under its version
pub open spec fn releases_listed(g: VersionGroupsView, releases: Seq<(Seq<char>, Seq<char>)>) -> bool {
    forall|r: int| 0 <= r < releases.len() ==> release_listed(g, #[trigger] releases[r])
}

/// What the position of a version among the groups tells
proof fn lemma_version_pos_facts(g: VersionGroupsView, v: Seq<char>)
    ensures
        0 <= version_pos(g, v) <= g.len(),
        forall|k: int| 0 <= k < version_pos(g, v) ==> text_lt((#[trigger] g[k]).0, v),
        version_pos(g, v) < g.len() ==> !text_lt(g[version_pos(g, v)].0, v),
    decreases g.len(),
{
    if g.len() > 0 && text_lt(g[0].0, v) {
        let rest = g.skip(1);
        lemma_version_pos_facts(rest, v);
        assert forall|k: int| 0 <= k < version_pos(g, v) implies text_lt((#[trigger] g[k]).0, v) by {
            if k > 0 {
                assert(g[k] == rest[k - 1]);
            }
        }
    }
}

/// Adding a release keeps the versions in order, each once
proof fn lemma_version_insert_ordered(g: VersionGroupsView, v: Seq<char>, name: Seq<char>)
    requires
        versions_ordered(g),
    ensures
        versions_ordered(version_insert(g, v, name)),
{
    lemma_version_pos_facts(g, v);
    let j = version_pos(g, v);
    let r = version_insert(g, v, name);
    if j < g.len() && g[j].0 == v {
        assert forall|a: int, b: int| 0 <= a < b < r.len() implies text_lt(
            #[trigger] r[a].0,
            #[trigger] r[b].0,
        ) by {
            assert(r[a].0 == g[a].0);
            assert(r[b].0 == g[b].0);
        }
    } else {
        if j < g.len() {
            law_text_order_total(g[j].0, v);
        }
        assert forall|a: int, b: int| 0 <= a < b < r.len() implies text_lt(
            #[trigger] r[a].0,
            #[trigger] r[b].0,
        ) by {
            let ka = if a < j { g[a].0 } else if a == j { v } else { g[a - 1].0 };
            let kb = if b < j { g[b].0 } else if b == j { v } else { g[b - 1].0 };
            assert(r[a].0 == ka);
            assert(r[b].0 == kb);
            if a < j && b > j {
                assert(text_lt(g[a].0, v));
                assert(text_lt(v, g[j].0));
                law_text_order_transitive(g[a].0, v, g[j].0);
                if b - 1 > j {
                    law_text_order_transitive(g[a].0, g[j].0, g[b - 1].0);
                }
            } else if a == j && b > j + 1 {
                law_text_order_transitive(v, g[j].0, g[b - 1].0);
            }
        }
    }
}

/// Adding a release keeps every listed release listed, and lists the new one
proof fn lemma_version_insert_lists(
    g: VersionGroupsView,
    releases: Seq<(Seq<char>, Seq<char>)>,
    v: Seq<char>,
    name: Seq<char>,
)
    requires
        releases_listed(g, releases),
    ensures
        releases_listed(version_insert(g, v, name), releases.push((v, name))),
{
    lemma_version_pos_facts(g, v);
    let j = version_pos(g, v);
    let r = version_insert(g, v, name);
    let all = releases.push((v, name));
    assert forall|x: int| 0 <= x < all.len() implies release_listed(r, #[trigger] all[x]) by {
        if x == releases.len() {
            assert(all[x] == (v, name));
            assert(r[j].0 == v);
            assert(r[j].1.last() == name);
            assert(r[j].1.contains(name));
            assert(release_listed(r, all[x]));
        } else {
            assert(all[x] == releases[x]);
            assert(release_listed(g, releases[x]));
            let k = choose|k: int|
                0 <= k < g.len() && (#[trigger] g[k]).0 == releases[x].0 && g[k].1.contains(
                    releases[x].1,
                );
            let i = choose|i: int| 0 <= i < g[k].1.len() && g[k].1[i] == releases[x].1;
            if j < g.len() && g[j].0 == v {
                if k == j {
                    assert(r[k].1[i] == releases[x].1);
                } else {
                    assert(r[k] == g[k]);
                }
                assert(r[k].1.contains(releases[x].1));
                assert(release_listed(r, all[x]));
            } else {
                let k2 = if k < j { k } else { k + 1 };
                assert(r[k2] == g[k]);
                assert(r[k2].1.contains(releases[x].1));
                assert(release_listed(r, all[x]));
            }
        }
    }
}

/// `dist plan` gathers the apps per version with the versions in order, each
/// once, and lists every release under its version
pub proof fn law_plan_versions_ordered(releases: Seq<(Seq<char>, Seq<char>)>)
    ensures
        versions_ordered(releases_by_version(releases)),
        releases_listed(releases_by_version(releases), releases),
    decreases releases.len(),
{
    if releases.len() > 0 {
        let rest = releases.drop_last();
        law_plan_versions_ordered(rest);
        lemma_version_insert_ordered(releases_by_version(rest), releases.last().0, releases.last().1);
        lemma_version_insert_lists(releases_by_version(rest), rest, releases.last().0, releases.last().1);
        assert(rest.push(releases.last()) =~= releases);
    }
}


// ---------------------------------------------------------------------------
// Round trips of config values

/// Printing a normalized install path (a `~/` subdirectory that is not
/// empty, an environment variable without `/`, no trailing `/`) and parsing
/// it back gives the same path
pub proof fn law_install_path_roundtrip(p: InstallPathView)
    requires
        match p {
            InstallPathView::CargoHome => true,
            InstallPathView::HomeSubdir(subdir) => subdir.len() > 0 && subdir.last() != '/',
            InstallPathView::EnvSubdir(env_key, subdir) => !env_key.contains('/') && (subdir.len()
                == 0 || subdir.last() != '/'),
        },
    ensures
        InstallPathView::parse_spec(p.display_spec()) == Ok::<InstallPathView, InstallPathErrorKind>(p),
{
    reveal_strlit("~/");
    reveal_strlit("$");
    reveal_strlit("/");
    reveal_strlit("CARGO_HOME");
    let s = p.display_spec();
    match p {
        InstallPathView::CargoHome => {},
        InstallPathView::HomeSubdir(subdir) => {
            assert(s[0] == '~');
            assert(s != "CARGO_HOME"@);
            assert("~/"@.is_prefix_of(s)) by {
                assert("~/"@ =~= s.subrange(0, 2));
            }
            assert(s.skip(2) =~= subdir);
        },
        InstallPathView::EnvSubdir(env_key, subdir) => {
            assert(s[0] == '$');
            assert(s != "CARGO_HOME"@);
            assert(!"~/"@.is_prefix_of(s)) by {
                assert(s.subrange(0, 2)[0] == '$');
            }
            assert("$"@.is_prefix_of(s)) by {
                assert("$"@ =~= s.subrange(0, 1));
            }
            assert(s.skip(1) =~= env_key + seq!['/'] + subdir);
            lemma_split_first(s.skip(1), '/', env_key, subdir);
        },
    }
}

/// Printing a GitHub repo pair whose owner has no `/` and splitting it back
/// at the first `/` gives the same pair
pub proof fn law_github_repo_pair_roundtrip(owner: Seq<char>, repo: Seq<char>)
    requires
        !owner.contains('/'),
    ensures
        split_first(GithubRepoPair::display_spec(owner, repo), '/') == Some((owner, repo)),
{
    reveal_strlit("/");
    assert(GithubRepoPair::display_spec(owner, repo) =~= owner + seq!['/'] + repo);
    lemma_split_first(GithubRepoPair::display_spec(owner, repo), '/', owner, repo);
}

// ---------------------------------------------------------------------------
// Homebrew build flags

/// The compiler flag matching a linker flag: `-L{p}/lib` becomes
/// `-I{p}/include`
pub open spec fn cflag_of_ldflag(t: Seq<char>) -> Seq<char> {
    "-I"@ + t.subrange("-L"@.len() as int, t.len() - "/lib"@.len()) + "/include"@
}

/// The compiler flags are the linker flags with each `-L{p}/lib` turned
/// into `-I{p}/include` (the same packages in the same order), and both are
/// empty unless `HOMEBREW_DEPENDENCIES` and `HOMEBREW_OPT` are both set
pub proof fn law_cflags_mirror_ldflags(env: EnvMap)
    ensures
        formula_flags_spec(env, "-I"@, "/include"@) == formula_flags_spec(env, "-L"@, "/lib"@).map_values(
            |t: Seq<char>| cflag_of_ldflag(t),
        ),
        join_spec(formula_flags_spec(env, "-I"@, "/include"@), " "@) == join_spec(
            formula_flags_spec(env, "-L"@, "/lib"@).map_values(|t: Seq<char>| cflag_of_ldflag(t)),
            " "@,
        ),
        (env.lookup("HOMEBREW_DEPENDENCIES"@) is None || env.lookup("HOMEBREW_OPT"@) is None) ==> {
            &&& join_spec(formula_flags_spec(env, "-L"@, "/lib"@), " "@) == Seq::<char>::empty()
            &&& join_spec(formula_flags_spec(env, "-I"@, "/include"@), " "@) == Seq::<char>::empty()
        },
{
    reveal_strlit("-L");
    reveal_strlit("/lib");
    let ld = formula_flags_spec(env, "-L"@, "/lib"@);
    let c = formula_flags_spec(env, "-I"@, "/include"@);
    let f = formulas_spec(env);
    assert forall|i: int| 0 <= i < c.len() implies c[i] == ld.map_values(
        |t: Seq<char>| cflag_of_ldflag(t),
    )[i] by {
        let p = f[i].1;
        let t = "-L"@ + p + "/lib"@;
        assert(ld[i] == t);
        assert(t.subrange(2, t.len() - 4) =~= p);
    }
    assert(c =~= ld.map_values(|t: Seq<char>| cflag_of_ldflag(t)));
    if env.lookup("HOMEBREW_DEPENDENCIES"@) is None || env.lookup("HOMEBREW_OPT"@) is None {
        assert(f =~= Seq::<(Seq<char>, Seq<char>)>::empty());
        assert(ld =~= Seq::<Seq<char>>::empty());
        assert(c =~= Seq::<Seq<char>>::empty());
    }
}

// ---------------------------------------------------------------------------
// Keyed lists

/// What the position of a key among keys tells
proof fn lemma_key_pos_facts(keys: Seq<Seq<char>>, k: Seq<char>)
    ensures
        0 <= key_pos(keys, k) <= keys.len(),
        forall|i: int| 0 <= i < key_pos(keys, k) ==> text_lt(#[trigger] keys[i], k),
        key_pos(keys, k) < keys.len() ==> !text_lt(keys[key_pos(keys, k)], k),
    decreases keys.len(),
{
    if keys.len() > 0 && text_lt(keys[0], k) {
        let rest = keys.skip(1);
        lemma_key_pos_facts(rest, k);
        assert forall|i: int| 0 <= i < key_pos(keys, k) implies text_lt(#[trigger] keys[i], k) by {
            if i > 0 {
                assert(keys[i] == rest[i - 1]);
            }
        }
    }
}

/// Setting a key keeps the keys in order, each once
proof fn lemma_keyed_insert_ascending<V>(m: Seq<(Seq<char>, V)>, k: Seq<char>, v: V)
    requires
        keys_ascending(m),
    ensures
        keys_ascending(keyed_insert(m, k, v)),
{
    let keys = keys_of(m);
    lemma_key_pos_facts(keys, k);
    let j = key_pos(keys, k);
    let r = keyed_insert(m, k, v);
    assert forall|i: int| 0 <= i < j implies text_lt(#[trigger] m[i].0, k) by {
        assert(keys[i] == m[i].0);
    }
    if j < m.len() {
        assert(keys[j] == m[j].0);
    }
    if j < m.len() && m[j].0 == k {
        assert forall|a: int, b: int| 0 <= a < b < r.len() implies text_lt(
            #[trigger] r[a].0,
            #[trigger] r[b].0,
        ) by {
            assert(r[a].0 == m[a].0);
            assert(r[b].0 == m[b].0);
        }
    } else {
        if j < m.len() {
            law_text_order_total(m[j].0, k);
        }
        assert forall|a: int, b: int| 0 <= a < b < r.len() implies text_lt(
            #[trigger] r[a].0,
            #[trigger] r[b].0,
        ) by {
            let ka = if a < j { m[a].0 } else if a == j { k } else { m[a - 1].0 };
            let kb = if b < j { m[b].0 } else if b == j { k } else { m[b - 1].0 };
            assert(r[a].0 == ka);
            assert(r[b].0 == kb);
            if a < j && b > j {
                law_text_order_transitive(m[a].0, k, m[j].0);
                if b - 1 > j {
                    law_text_order_transitive(m[a].0, m[j].0, m[b - 1].0);
                }
            } else if a == j && b > j + 1 {
                law_text_order_transitive(k, m[j].0, m[b - 1].0);
            }
        }
    }
}

/// Entries read into a sorted map come out with their keys in order, each
/// once
pub proof fn law_keyed_from_ascending<V>(entries: Seq<(Seq<char>, V)>)
    ensures
        keys_ascending(keyed_from(entries)),
        texts_ascending(keys_of(keyed_from(entries))),
    decreases entries.len(),
{
    if entries.len() > 0 {
        law_keyed_from_ascending(entries.drop_last());
        lemma_keyed_insert_ascending(keyed_from(entries.drop_last()), entries.last().0, entries.last().1);
    }
    let m = keyed_from(entries);
    assert forall|i: int, j: int| 0 <= i < j < keys_of(m).len() implies text_lt(
        #[trigger] keys_of(m)[i],
        #[trigger] keys_of(m)[j],
    ) by {
        assert(text_lt(m[i].0, m[j].0));
    }
}

/// Every entry of a sorted map is one of the entries it was read from
pub proof fn law_keyed_from_entries<V>(entries: Seq<(Seq<char>, V)>)
    ensures
        forall|i: int|
            0 <= i < keyed_from(entries).len() ==> exists|j: int|
                0 <= j < entries.len() && #[trigger] keyed_from(entries)[i] == entries[j],
    decreases entries.len(),
{
    if entries.len() > 0 {
        let init = entries.drop_last();
        law_keyed_from_entries(init);
        let m = keyed_from(init);
        let (k, v) = entries.last();
        lemma_key_pos_facts(keys_of(m), k);
        let p = key_pos(keys_of(m), k);
        let r = keyed_from(entries);
        assert forall|i: int| 0 <= i < r.len() implies exists|j: int|
            0 <= j < entries.len() && #[trigger] r[i] == entries[j] by {
            if r[i] == entries.last() {
                assert(entries[entries.len() - 1] == entries.last());
            } else {
                let src = if p < m.len() && m[p].0 == k {
                    i
                } else if i < p {
                    i
                } else {
                    i - 1
                };
                assert(r[i] == m[src]);
                let j = choose|j: int| 0 <= j < init.len() && m[src] == init[j];
                assert(init[j] == entries[j]);
            }
        }
    }
}

/// A secret spec stands for a map with its names in order, each once
pub proof fn law_secret_spec_names_in_order(spec: GithubSecretSpec)
    ensures
        keys_ascending(spec.map_view()),
{
    match spec {
        GithubSecretSpec::List(names) => {
            law_keyed_from_ascending(crate::config::v1::ci::github::listed_secrets(names@));
        },
        GithubSecretSpec::Mapping(pairs) => {
            law_keyed_from_ascending(crate::config::v1::ci::github::secret_map_view(pairs@));
        },
    }
}

/// Layering keeps the GitHub CI settings' runners, secrets and secret jobs
/// in key order, each key once, with the configured jobs those with secrets
pub proof fn law_github_ci_layer_keeps_keys_in_order(v: GithubCiView, layer: GithubCiLayer)
    ensures
        v.keys_in_order() ==> v.layered(layer).keys_in_order(),
{
    if v.keys_in_order() {
        let r = v.layered(layer);
        if let Some(rs) = layer.runners {
            law_keyed_from_ascending(crate::config::v1::ci::github::runner_entries(rs@));
        }
        if let Some(s) = layer.secrets {
            let entries = secret_entries(s@);
            law_keyed_from_ascending(entries);
            law_keyed_from_entries(entries);
            assert forall|i: int| 0 <= i < r.secrets.len() implies keys_ascending(
                #[trigger] r.secrets[i].1,
            ) by {
                let j = choose|j: int| 0 <= j < entries.len() && r.secrets[i] == entries[j];
                assert(entries[j] == (s@[j].0@, s@[j].1.map_view()));
                law_secret_spec_names_in_order(s@[j].1);
            }
        }
    }
}

// ---------------------------------------------------------------------------
// Manifest

/// The assets are ordered by name: no asset's name comes before that of an
/// asset listed before it
pub open spec fn ordered_by_name(s: Seq<ManifestAsset>) -> bool {
    forall|i: int, j: int|
        0 <= i < j < s.len() ==> !name_before((#[trigger] s[j]).name, (#[trigger] s[i]).name)
}

/// The order of names is transitive
proof fn lemma_name_before_transitive(a: Option<String>, b: Option<String>, c: Option<String>)
    requires
        name_before(a, b),
        name_before(b, c),
    ensures
        name_before(a, c),
{
    if a is Some {
        law_text_order_transitive(a->0@, b->0@, c->0@);
    }
}

/// Of two names, at most one comes before the other
proof fn lemma_name_before_asymmetric(a: Option<String>, b: Option<String>)
    requires
        name_before(a, b),
    ensures
        !name_before(b, a),
{
    if a is Some {
        law_text_order_asymmetric(a->0@, b->0@);
    }
}

/// What the position of an asset in a list tells
proof fn lemma_asset_pos_facts(s: Seq<ManifestAsset>, e: ManifestAsset)
    ensures
        0 <= asset_pos(s, e) <= s.len(),
        forall|k: int| 0 <= k < asset_pos(s, e) ==> !name_before(e.name, (#[trigger] s[k]).name),
        asset_pos(s, e) < s.len() ==> name_before(e.name, s[asset_pos(s, e)].name),
    decreases s.len(),
{
    if s.len() > 0 && !name_before(e.name, s[0].name) {
        let rest = s.skip(1);
        lemma_asset_pos_facts(rest, e);
        assert forall|k: int| 0 <= k < asset_pos(s, e) implies !name_before(
            e.name,
            (#[trigger] s[k]).name,
        ) by {
            if k > 0 {
                assert(s[k] == rest[k - 1]);
            }
        }
    }
}

/// The manifest lists an artifact's assets ordered by name, all of them
pub proof fn law_manifest_assets_ordered_by_name(s: Seq<ManifestAsset>)
    ensures
        ordered_by_name(assets_by_name(s)),
        assets_by_name(s).len() == s.len(),
    decreases s.len(),
{
    if s.len() > 0 {
        law_manifest_assets_ordered_by_name(s.drop_last());
        let sorted = assets_by_name(s.drop_last());
        let e = s.last();
        lemma_asset_pos_facts(sorted, e);
        let p = asset_pos(sorted, e);
        let r = sorted.insert(p, e);
        assert forall|i: int, j: int| 0 <= i < j < r.len() implies !name_before(
            (#[trigger] r[j]).name,
            (#[trigger] r[i]).name,
        ) by {
            if j < p {
                assert(r[i] == sorted[i] && r[j] == sorted[j]);
            } else if j == p {
                assert(r[i] == sorted[i] && r[j] == e);
            } else if i == p {
                assert(r[j] == sorted[j - 1]);
                assert(name_before(e.name, sorted[p].name));
                if j - 1 > p {
                    assert(!name_before(sorted[j - 1].name, sorted[p].name));
                    if name_before(sorted[j - 1].name, e.name) {
                        lemma_name_before_transitive(sorted[j - 1].name, e.name, sorted[p].name);
                    }
                } else {
                    lemma_name_before_asymmetric(e.name, sorted[p].name);
                }
            } else if i < p {
                assert(r[i] == sorted[i] && r[j] == sorted[j - 1]);
            } else {
                assert(r[i] == sorted[i - 1] && r[j] == sorted[j - 1]);
            }
        }
    }
}


/// No two of the assets are at the same path
pub open spec fn paths_distinct(a: Seq<ManifestAsset>) -> bool {
    forall|i: int, j: int| 0 <= i < j < a.len() ==> !same_path(#[trigger] a[i].path, #[trigger] a[j].path)
}

/// Merging in one of the assets already listed changes nothing
proof fn lemma_merge_listed_asset(a: Seq<ManifestAsset>, k: int)
    requires
        paths_distinct(a),
        0 <= k < a.len(),
    ensures
        merge_asset(a, a[k]) == a,
{
    assert forall|m: int| 0 <= m < k implies !same_path((#[trigger] a[m]).path, a[k].path) by {}
    assert(same_path(a[k].path, a[k].path));
    lemma_asset_at_path_first(a, a[k].path, k);
    if a[k].id is Some {
        let u = ManifestAsset { id: a[k].id, name: a[k].name, path: a[k].path, kind: a[k].kind };
        assert(u == a[k]);
        assert(a.update(k, u) =~= a);
    }
}

/// Merging in the assets from `i` on changes nothing
proof fn lemma_merge_listed_suffix(a: Seq<ManifestAsset>, i: int)
    requires
        paths_distinct(a),
        0 <= i <= a.len(),
    ensures
        merged_assets(a, a.skip(i)) == a,
    decreases a.len() - i,
{
    if i < a.len() {
        let rest = a.skip(i);
        assert(rest[0] == a[i]);
        lemma_merge_listed_asset(a, i);
        assert(rest.skip(1) =~= a.skip(i + 1));
        lemma_merge_listed_suffix(a, i + 1);
    } else {
        assert(a.skip(i) =~= Seq::<ManifestAsset>::empty());
    }
}

/// Another manifest may list the same artifact's assets without conflict:
/// merging an artifact's assets (each at its own path) into themselves
/// leaves them as they are
pub proof fn law_merge_own_assets_changes_nothing(a: Seq<ManifestAsset>)
    requires
        paths_distinct(a),
    ensures
        merged_assets(a, a) == a,
{
    lemma_merge_listed_suffix(a, 0);
    assert(a.skip(0) =~= a);
}

// ---------------------------------------------------------------------------
// dist init

/// What the position of a target among targets ordered by label tells
proof fn lemma_label_pos_facts(s: Seq<usize>, i: usize, labels: Seq<Seq<char>>)
    ensures
        0 <= label_pos(s, i, labels) <= s.len(),
        forall|k: int|
            0 <= k < label_pos(s, i, labels) ==> !text_lt(
                labels[i as int],
                labels[(#[trigger] s[k]) as int],
            ),
        label_pos(s, i, labels) < s.len() ==> text_lt(
            labels[i as int],
            labels[s[label_pos(s, i, labels)] as int],
        ),
    decreases s.len(),
{
    if s.len() > 0 && !text_lt(labels[i as int], labels[s[0] as int]) {
        let rest = s.skip(1);
        lemma_label_pos_facts(rest, i, labels);
        assert forall|k: int| 0 <= k < label_pos(s, i, labels) implies !text_lt(
            labels[i as int],
            labels[(#[trigger] s[k]) as int],
        ) by {
            if k > 0 {
                assert(s[k] == rest[k - 1]);
            }
        }
    }
}

/// `dist init` offers every target once, ordered by the labels they are
/// listed under: the order holds each of the first `n` positions exactly
/// once, and no label comes before that of a target listed before it
pub proof fn law_platform_options_by_label(n: nat, labels: Seq<Seq<char>>)
    requires
        n <= usize::MAX + 1,
    ensures
        by_label(n, labels).len() == n,
        forall|k: int| 0 <= k < n ==> (#[trigger] by_label(n, labels)[k]) < n,
        forall|a: int, b: int|
            0 <= a < b < n ==> #[trigger] by_label(n, labels)[a] != #[trigger] by_label(
                n,
                labels,
            )[b],
        forall|a: int, b: int|
            0 <= a < b < n ==> !text_lt(
                labels[(#[trigger] by_label(n, labels)[b]) as int],
                labels[(#[trigger] by_label(n, labels)[a]) as int],
            ),
    decreases n,
{
    if n > 0 {
        let m = (n - 1) as nat;
        law_platform_options_by_label(m, labels);
        let s = by_label(m, labels);
        let i = m as usize;
        assert(i as int == m);
        lemma_label_pos_facts(s, i, labels);
        let p = label_pos(s, i, labels);
        let r = s.insert(p, i);
        assert(r == by_label(n, labels));
        assert forall|k: int| 0 <= k < n implies (#[trigger] r[k]) < n by {
            if k < p {
                assert(r[k] == s[k]);
            } else if k > p {
                assert(r[k] == s[k - 1]);
            }
        }
        assert forall|a: int, b: int| 0 <= a < b < n implies #[trigger] r[a] != #[trigger] r[b] by {
            if b < p {
                assert(r[a] == s[a] && r[b] == s[b]);
            } else if b == p {
                assert(r[a] == s[a] && r[b] == i);
            } else if a == p {
                assert(r[b] == s[b - 1]);
            } else if a < p {
                assert(r[a] == s[a] && r[b] == s[b - 1]);
            } else {
                assert(r[a] == s[a - 1] && r[b] == s[b - 1]);
            }
        }
        assert forall|a: int, b: int| 0 <= a < b < n implies !text_lt(
            labels[(#[trigger] r[b]) as int],
            labels[(#[trigger] r[a]) as int],
        ) by {
            if b < p {
                assert(r[a] == s[a] && r[b] == s[b]);
            } else if b == p {
                assert(r[a] == s[a] && r[b] == i);
            } else if a == p {
                assert(r[b] == s[b - 1]);
                assert(text_lt(labels[i as int], labels[s[p] as int]));
                if b - 1 > p {
                    assert(!text_lt(labels[s[b - 1] as int], labels[s[p] as int]));
                    if text_lt(labels[s[b - 1] as int], labels[i as int]) {
                        law_text_order_transitive(
                            labels[s[b - 1] as int],
                            labels[i as int],
                            labels[s[p] as int],
                        );
                    }
                } else {
                    law_text_order_asymmetric(labels[i as int], labels[s[p] as int]);
                }
            } else if a < p {
                assert(r[a] == s[a] && r[b] == s[b - 1]);
            } else {
                assert(r[a] == s[a - 1] && r[b] == s[b - 1]);
            }
        }
    }
}

} // verus!

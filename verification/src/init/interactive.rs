//! The choices made from the answers to `dist init`'s questions

use vstd::prelude::*;

use crate::config::clone_version;
use crate::config::v1::ci::{CiLayer, CommonCiLayer};
use crate::config::v1::installers::homebrew::HomebrewInstallerLayer;
use crate::config::v1::installers::npm::NpmInstallerLayer;
use crate::config::v1::installers::{CommonInstallerLayer, InstallerLayer};
use crate::config::v1::layer::BoolOr;
use crate::config::v1::TomlLayer;
use crate::config::InstallerStyle;
use crate::errors::{DistError, DistResult};
use crate::generate::{
    default_desktop_targets, known_desktop_targets, prerelease_text, same_version,
    version_prerelease, versions_equal,
};
use crate::init::apply_dist::helpers::texts_view;
use crate::platform::targets::{
    TARGET_ARM64_LINUX_GNU, TARGET_ARM64_MAC, TARGET_ARM64_WINDOWS, TARGET_X64_LINUX_GNU,
    TARGET_X64_LINUX_MUSL, TARGET_X64_MAC, TARGET_X64_WINDOWS,
};
use crate::strings::{
    clone_string, clone_strings, owned, str_eq, str_lt, str_strip_prefix, str_trim, text_lt, trimmed,
};

verus! {

/// The position of the first installer in `known` whose name is `name`
pub open spec fn installer_position(known: Seq<InstallerStyle>, name: Seq<char>) -> Option<int>
    decreases known.len(),
{
    if known.len() == 0 {
        None
    } else {
        match installer_position(known.drop_last(), name) {
            Some(i) => Some(i),
            None => if known.last().display_spec() == name {
                Some(known.len() - 1)
            } else {
                None
            },
        }
    }
}

/// The setting for the installer named `name` after the user picked the
/// entries `selected` from the list `known`: turned on if it was picked, and
/// left unset if it was not or is not in the list
pub open spec fn installer_wanted_spec<T>(
    selected: Seq<usize>,
    known: Seq<InstallerStyle>,
    name: Seq<char>,
) -> Option<BoolOr<T>> {
    match installer_position(known, name) {
        Some(idx) => if selected.contains(idx as usize) {
            Some(BoolOr::Bool(true))
        } else {
            None
        },
        None => None,
    }
}

/// The setting for the installer named `name` after the user picked the
/// entries `selected` (positions in `known`)
pub fn installer_wanted<T>(selected: &Vec<usize>, known: &[InstallerStyle], name: &str) -> (r: Option<BoolOr<T>>)
    ensures
        r == installer_wanted_spec::<T>(selected@, known@, name@),
{
    let mut found: Option<usize> = None;
    let mut i: usize = 0;
    while i < known.len()
        invariant
            i <= known@.len(),
            match installer_position(known@.take(i as int), name@) {
                Some(p) => found == Some(p as usize),
                None => found is None,
            },
        decreases known.len() - i,
    {
        proof {
            assert(known@.take(i + 1).drop_last() =~= known@.take(i as int));
        }
        if found.is_none() {
            let style = known[i].to_string();
            if str_eq(style.as_str(), name) {
                found = Some(i);
            }
        }
        i = i + 1;
    }
    assert(known@.take(known@.len() as int) =~= known@);
    let idx = match found {
        Some(idx) => idx,
        None => return None,
    };
    let mut wanted = false;
    let mut j: usize = 0;
    while j < selected.len()
        invariant
            j <= selected@.len(),
            wanted == selected@.take(j as int).contains(idx),
        decreases selected.len() - j,
    {
        let ghost before = selected@.take(j as int);
        let ghost after = selected@.take(j + 1);
        if selected[j] == idx {
            wanted = true;
            assert(after[j as int] == idx);
        } else {
            assert forall|k: int| 0 <= k < after.len() && after[k] == idx implies before.contains(idx) by {
                assert(before[k] == idx);
            }
        }
        j = j + 1;
    }
    assert(selected@.take(selected@.len() as int) =~= selected@);
    if wanted {
        Some(BoolOr::Bool(true))
    } else {
        None
    }
}

/// Whether `dist init` asks before moving a project configured for dist
/// `desired` to the running dist `current`: when they differ, unless the
/// configured one is a `github-` testing pre-release
pub open spec fn dist_version_needs_confirm(desired: semver::Version, current: semver::Version) -> bool {
    !same_version(desired, current) && !"github-"@.is_prefix_of(prerelease_text(desired))
}

/// Whether `dist init` asks to move the project to the running dist `current`
pub fn dist_version_prompt(meta: &TomlLayer, current: &semver::Version) -> (r: bool)
    ensures
        r == match meta.dist_version {
            Some(d) => dist_version_needs_confirm(d, *current),
            None => false,
        },
{
    match &meta.dist_version {
        Some(desired) => {
            let same = versions_equal(desired, current);
            let pre = version_prerelease(desired);
            !same && str_strip_prefix(pre.as_str(), "github-").is_none()
        },
        None => false,
    }
}

/// The config with its dist version set to `v`
pub open spec fn with_dist_version(meta: TomlLayer, v: semver::Version) -> TomlLayer {
    TomlLayer { dist_version: Some(v), ..meta }
}

/// Move the project to the running dist `current`; `confirmed` answers the
/// question that [`dist_version_prompt`][] calls for, and is read only then
pub fn update_dist_version(meta: &mut TomlLayer, current: &semver::Version, confirmed: bool) -> (r:
    DistResult<()>)
    ensures
        match old(meta).dist_version {
            None => r is Ok && *final(meta) == with_dist_version(*old(meta), *current),
            Some(d) => if !dist_version_needs_confirm(d, *current) {
                r is Ok && *final(meta) == *old(meta)
            } else if confirmed {
                r is Ok && *final(meta) == with_dist_version(*old(meta), *current)
            } else {
                &&& r matches Err(DistError::NoUpdateVersion { project_version, running_version })
                &&& project_version == d
                &&& running_version == *current
                &&& *final(meta) == *old(meta)
            },
        },
{
    let needs_confirm = dist_version_prompt(meta, current);
    let desired = match &meta.dist_version {
        Some(d) => Some(clone_version(d)),
        None => None,
    };
    match desired {
        Some(desired) => {
            if needs_confirm {
                if confirmed {
                    meta.dist_version = Some(clone_version(current));
                    Ok(())
                } else {
                    Err(DistError::NoUpdateVersion {
                        project_version: desired,
                        running_version: clone_version(current),
                    })
                }
            } else {
                Ok(())
            }
        },
        None => {
            // Really not allowed, so just force them onto the current version
            meta.dist_version = Some(clone_version(current));
            Ok(())
        },
    }
}

/// Whether `dist init` asks to turn on GitHub CI: only when no CI is set up
pub fn ci_prompt(meta: &TomlLayer) -> (r: bool)
    ensures
        r == meta.ci is None,
{
    meta.ci.is_none()
}

/// The config with GitHub CI turned on and nothing else set for CI
pub open spec fn with_github_ci(meta: TomlLayer) -> TomlLayer {
    TomlLayer {
        ci: Some(CiLayer { common: CommonCiLayer::spec_default(), github: Some(BoolOr::Bool(true)) }),
        ..meta
    }
}

/// Turn on GitHub CI when no CI is set up and the user said yes
pub fn update_ci_backends(meta: &mut TomlLayer, github_selected: bool)
    ensures
        *final(meta) == if old(meta).ci is None && github_selected {
            with_github_ci(*old(meta))
        } else {
            *old(meta)
        },
{
    if meta.ci.is_none() && github_selected {
        meta.ci = Some(CiLayer { common: CommonCiLayer::default(), github: Some(BoolOr::Bool(true)) });
    }
}

/// Whether a setting is given and not turned off
pub open spec fn some_and_not_false<T>(o: Option<BoolOr<T>>) -> bool {
    match o {
        Some(BoolOr::Bool(b)) => b,
        Some(BoolOr::Val(_)) => true,
        None => false,
    }
}

/// Whether a setting is given and not turned off
fn is_some_and_not_false<T>(o: &Option<BoolOr<T>>) -> (r: bool)
    ensures
        r == some_and_not_false(*o),
{
    match o {
        Some(BoolOr::Bool(b)) => *b,
        Some(BoolOr::Val(_)) => true,
        None => false,
    }
}

/// Whether the config has a CI backend that can provide download URLs
pub open spec fn init_has_ci(meta: TomlLayer) -> bool {
    match meta.ci {
        Some(ci) => some_and_not_false(ci.github),
        None => false,
    }
}

/// Whether the config has a CI backend that can provide download URLs
pub fn has_ci(meta: &TomlLayer) -> (r: bool)
    ensures
        r == init_has_ci(*meta),
{
    match &meta.ci {
        Some(ci) => is_some_and_not_false(&ci.github),
        None => false,
    }
}

/// The installers `dist init` offers: those that fetch from a release need
/// CI, without it only the vendored MSI installer is offered
pub open spec fn offered_installers(has_ci: bool) -> Seq<InstallerStyle> {
    if has_ci {
        seq![
            InstallerStyle::Shell,
            InstallerStyle::Powershell,
            InstallerStyle::Npm,
            InstallerStyle::Homebrew,
            InstallerStyle::Msi,
        ]
    } else {
        seq![InstallerStyle::Msi]
    }
}

/// Whether the config has the installer `item` turned on
pub open spec fn installer_configured(meta: TomlLayer, item: InstallerStyle) -> bool {
    match meta.installers {
        Some(ins) => match item {
            InstallerStyle::Shell => some_and_not_false(ins.shell),
            InstallerStyle::Powershell => some_and_not_false(ins.powershell),
            InstallerStyle::Npm => some_and_not_false(ins.npm),
            InstallerStyle::Homebrew => some_and_not_false(ins.homebrew),
            InstallerStyle::Msi => some_and_not_false(ins.msi),
            InstallerStyle::Pkg => some_and_not_false(ins.pkg),
        },
        None => false,
    }
}

/// Which of the offered installers start out picked: those the config has
/// turned on and those given on the command line
pub open spec fn installer_defaults(meta: TomlLayer, known: Seq<InstallerStyle>, cli: Seq<InstallerStyle>) -> Seq<bool> {
    Seq::new(known.len(), |i: int| installer_configured(meta, known[i]) || cli.contains(known[i]))
}

/// Whether the config has the installer `item` turned on
fn is_installer_configured(meta: &TomlLayer, item: InstallerStyle) -> (r: bool)
    ensures
        r == installer_configured(*meta, item),
{
    match &meta.installers {
        Some(ins) => match item {
            InstallerStyle::Shell => is_some_and_not_false(&ins.shell),
            InstallerStyle::Powershell => is_some_and_not_false(&ins.powershell),
            InstallerStyle::Npm => is_some_and_not_false(&ins.npm),
            InstallerStyle::Homebrew => is_some_and_not_false(&ins.homebrew),
            InstallerStyle::Msi => is_some_and_not_false(&ins.msi),
            InstallerStyle::Pkg => is_some_and_not_false(&ins.pkg),
        },
        None => false,
    }
}

/// Whether `item` is in `list`
fn installer_listed(list: &Vec<InstallerStyle>, item: InstallerStyle) -> (r: bool)
    ensures
        r == list@.contains(item),
{
    let mut i: usize = 0;
    while i < list.len()
        invariant
            i <= list@.len(),
            forall|k: int| 0 <= k < i ==> list@[k] != item,
        decreases list.len() - i,
    {
        if list[i] == item {
            assert(list@[i as int] == item);
            return true;
        }
        i = i + 1;
    }
    false
}

/// The installers `dist init` offers, and which of them start out picked
pub fn installer_options(meta: &TomlLayer, cli_installers: &Vec<InstallerStyle>) -> (r: (
    Vec<InstallerStyle>,
    Vec<bool>,
))
    ensures
        r.0@ == offered_installers(init_has_ci(*meta)),
        r.1@ == installer_defaults(*meta, r.0@, cli_installers@),
{
    // If they have CI, then they can use fetching installers,
    // otherwise they can only do vendored installers.
    let known: Vec<InstallerStyle> = if has_ci(meta) {
        vec![
            InstallerStyle::Shell,
            InstallerStyle::Powershell,
            InstallerStyle::Npm,
            InstallerStyle::Homebrew,
            InstallerStyle::Msi,
        ]
    } else {
        vec![InstallerStyle::Msi]
    };
    assert(known@ =~= offered_installers(init_has_ci(*meta)));
    let mut defaults: Vec<bool> = Vec::new();
    let mut i: usize = 0;
    while i < known.len()
        invariant
            i <= known@.len(),
            defaults@ =~= installer_defaults(*meta, known@, cli_installers@).take(i as int),
        decreases known.len() - i,
    {
        // If this installer is in their config, keep it
        // If they passed it on the CLI, flip it on
        let item = known[i];
        let config_had_it = is_installer_configured(meta, item);
        let cli_had_it = installer_listed(cli_installers, item);
        defaults.push(config_had_it || cli_had_it);
        i = i + 1;
    }
    assert(defaults@ =~= installer_defaults(*meta, known@, cli_installers@));
    (known, defaults)
}

/// The config with the installers picked from `known` at the positions
/// `selected` (when any is picked; the config is left as it is otherwise)
pub open spec fn with_installers_selected(meta: TomlLayer, known: Seq<InstallerStyle>, selected: Seq<usize>) -> TomlLayer {
    if selected.len() > 0 {
        TomlLayer {
            installers: Some(
                InstallerLayer {
                    common: CommonInstallerLayer::spec_default(),
                    shell: installer_wanted_spec(selected, known, "shell"@),
                    powershell: installer_wanted_spec(selected, known, "powershell"@),
                    npm: installer_wanted_spec(selected, known, "npm"@),
                    homebrew: installer_wanted_spec(selected, known, "homebrew"@),
                    msi: installer_wanted_spec(selected, known, "msi"@),
                    pkg: installer_wanted_spec(selected, known, "pkg"@),
                    updater: None,
                    always_use_latest_updater: None,
                },
            ),
            ..meta
        }
    } else {
        meta
    }
}

/// Set the installers to those picked from `known` at the positions `selected`
pub fn update_installers(meta: &mut TomlLayer, known: &[InstallerStyle], selected: &Vec<usize>)
    ensures
        *final(meta) == with_installers_selected(*old(meta), known@, selected@),
{
    // Apply the results
    if selected.len() > 0 {
        meta.installers = Some(InstallerLayer {
            common: CommonInstallerLayer::default(),
            shell: installer_wanted(selected, known, "shell"),
            powershell: installer_wanted(selected, known, "powershell"),
            npm: installer_wanted(selected, known, "npm"),
            homebrew: installer_wanted(selected, known, "homebrew"),
            msi: installer_wanted(selected, known, "msi"),
            pkg: installer_wanted(selected, known, "pkg"),
            updater: None,
            always_use_latest_updater: None,
        });
    }
}

/// The positions of the entries that start out picked, in order
pub open spec fn default_selection_spec(defaults: Seq<bool>) -> Seq<usize>
    decreases defaults.len(),
{
    if defaults.len() == 0 {
        Seq::empty()
    } else {
        let rest = default_selection_spec(defaults.drop_last());
        if defaults.last() {
            rest.push((defaults.len() - 1) as usize)
        } else {
            rest
        }
    }
}

/// The positions of the entries that start out picked, in order (the
/// answer to a question when every default is taken)
pub fn default_selection(defaults: &Vec<bool>) -> (r: Vec<usize>)
    ensures
        r@ == default_selection_spec(defaults@),
{
    let mut out: Vec<usize> = Vec::new();
    let mut i: usize = 0;
    while i < defaults.len()
        invariant
            i <= defaults@.len(),
            out@ == default_selection_spec(defaults@.take(i as int)),
        decreases defaults.len() - i,
    {
        proof {
            assert(defaults@.take(i + 1).drop_last() =~= defaults@.take(i as int));
        }
        if defaults[i] {
            out.push(i);
        }
        i = i + 1;
    }
    assert(defaults@.take(defaults@.len() as int) =~= defaults@);
    out
}

/// The targets offered when the config names none
pub open spec fn default_desktop_texts() -> Seq<Seq<char>> {
    seq![
        TARGET_X64_LINUX_GNU@,
        TARGET_X64_WINDOWS@,
        TARGET_X64_MAC@,
        TARGET_ARM64_MAC@,
        TARGET_ARM64_LINUX_GNU@,
    ]
}

/// The targets dist knows how to build for
pub open spec fn known_desktop_texts() -> Seq<Seq<char>> {
    seq![
        TARGET_X64_LINUX_GNU@,
        TARGET_X64_LINUX_MUSL@,
        TARGET_X64_WINDOWS@,
        TARGET_X64_MAC@,
        TARGET_ARM64_MAC@,
        TARGET_ARM64_LINUX_GNU@,
        TARGET_ARM64_WINDOWS@,
    ]
}

/// The targets of the config, or the default ones if it names none
pub open spec fn config_targets(meta: TomlLayer) -> Seq<Seq<char>> {
    match meta.targets {
        Some(t) => texts_view(t@),
        None => default_desktop_texts(),
    }
}

/// `start` with each of `extra` that it does not hold yet added at the end
pub open spec fn add_missing(start: Seq<Seq<char>>, extra: Seq<Seq<char>>) -> Seq<Seq<char>>
    decreases extra.len(),
{
    if extra.len() == 0 {
        start
    } else {
        let before = add_missing(start, extra.drop_last());
        if before.contains(extra.last()) {
            before
        } else {
            before.push(extra.last())
        }
    }
}

/// The targets `dist init` offers: the known ones, then each target of the
/// config and each given on the command line that is not offered yet
pub open spec fn offered_targets(meta: TomlLayer, cli: Seq<Seq<char>>) -> Seq<Seq<char>> {
    add_missing(known_desktop_texts(), config_targets(meta) + cli)
}

/// Which of the offered targets start out picked: those in the config (or
/// the default ones) and those given on the command line
pub open spec fn target_defaults(offered: Seq<Seq<char>>, config: Seq<Seq<char>>, cli: Seq<Seq<char>>) -> Seq<bool> {
    Seq::new(offered.len(), |i: int| config.contains(offered[i]) || cli.contains(offered[i]))
}

/// Whether `s` is one of `v`
fn texts_contain(v: &Vec<String>, s: &str) -> (r: bool)
    ensures
        r == texts_view(v@).contains(s@),
{
    let mut i: usize = 0;
    while i < v.len()
        invariant
            i <= v@.len(),
            forall|k: int| 0 <= k < i ==> v@[k]@ != s@,
        decreases v.len() - i,
    {
        if str_eq(v[i].as_str(), s) {
            assert(texts_view(v@)[i as int] == s@);
            return true;
        }
        i = i + 1;
    }
    assert forall|k: int| 0 <= k < texts_view(v@).len() implies texts_view(v@)[k] != s@ by {
        assert(texts_view(v@)[k] == v@[k]@);
    }
    false
}

/// The targets `dist init` offers, and which of them start out picked
pub fn platform_options(meta: &TomlLayer, cli_targets: &Vec<String>) -> (r: (Vec<String>, Vec<bool>))
    ensures
        texts_view(r.0@) == offered_targets(*meta, texts_view(cli_targets@)),
        r.1@ == target_defaults(texts_view(r.0@), config_targets(*meta), texts_view(cli_targets@)),
{
    // Start with builtin targets
    let mut known = known_desktop_targets();
    assert(texts_view(known@) =~= known_desktop_texts());
    // If the config doesn't have targets at all, generate them
    let config_vals = match &meta.targets {
        Some(t) => clone_strings(t),
        None => {
            let d = default_desktop_targets();
            assert(texts_view(d@) =~= default_desktop_texts());
            d
        },
    };
    let mut extra = clone_strings(&config_vals);
    let mut j: usize = 0;
    while j < cli_targets.len()
        invariant
            j <= cli_targets@.len(),
            texts_view(extra@) =~= texts_view(config_vals@) + texts_view(cli_targets@).take(j as int),
        decreases cli_targets.len() - j,
    {
        let t = clone_string(&cli_targets[j]);
        let ghost before = extra@;
        extra.push(t);
        proof {
            assert(texts_view(extra@) =~= texts_view(before).push(t@));
            assert(texts_view(cli_targets@).take(j + 1) =~= texts_view(cli_targets@).take(j as int).push(
                t@,
            ));
        }
        j = j + 1;
    }
    assert(texts_view(cli_targets@).take(cli_targets@.len() as int) =~= texts_view(cli_targets@));
    let ghost all_extra = texts_view(extra@);
    // Add anything custom they did to the list
    let mut i: usize = 0;
    while i < extra.len()
        invariant
            i <= extra@.len(),
            all_extra == texts_view(extra@),
            texts_view(known@) == add_missing(known_desktop_texts(), all_extra.take(i as int)),
        decreases extra.len() - i,
    {
        proof {
            assert(all_extra.take(i + 1).drop_last() =~= all_extra.take(i as int));
        }
        if !texts_contain(&known, extra[i].as_str()) {
            let ghost before = known@;
            known.push(clone_string(&extra[i]));
            assert(texts_view(known@) =~= texts_view(before).push(extra@[i as int]@));
        }
        i = i + 1;
    }
    assert(all_extra.take(extra@.len() as int) =~= all_extra);
    let mut defaults: Vec<bool> = Vec::new();
    let mut k: usize = 0;
    while k < known.len()
        invariant
            k <= known@.len(),
            defaults@ =~= target_defaults(texts_view(known@), texts_view(config_vals@), texts_view(cli_targets@)).take(k as int),
        decreases known.len() - k,
    {
        // If this target is in their config, keep it
        // If they passed it on the CLI, flip it on
        let config_had_it = texts_contain(&config_vals, known[k].as_str());
        let cli_had_it = texts_contain(cli_targets, known[k].as_str());
        defaults.push(config_had_it || cli_had_it);
        k = k + 1;
    }
    assert(defaults@ =~= target_defaults(texts_view(known@), texts_view(config_vals@), texts_view(cli_targets@)));
    (known, defaults)
}

/// Where position `i` goes among positions ordered by their labels: after
/// every position whose label does not come after its own
pub open spec fn label_pos(sorted: Seq<usize>, i: usize, labels: Seq<Seq<char>>) -> int
    decreases sorted.len(),
{
    if sorted.len() == 0 {
        0
    } else if text_lt(labels[i as int], labels[sorted[0] as int]) {
        0
    } else {
        1 + label_pos(sorted.skip(1), i, labels)
    }
}

/// The first `n` positions ordered by their labels, positions with the same
/// label keeping their order
pub open spec fn by_label(n: nat, labels: Seq<Seq<char>>) -> Seq<usize>
    decreases n,
{
    if n == 0 {
        Seq::empty()
    } else {
        let sorted = by_label((n - 1) as nat, labels);
        let i = (n - 1) as usize;
        sorted.insert(label_pos(sorted, i, labels), i)
    }
}

/// The position of `i` is the first position whose label comes after its own
proof fn lemma_label_pos_first(s: Seq<usize>, i: usize, labels: Seq<Seq<char>>, j: int)
    requires
        0 <= j <= s.len(),
        forall|k: int| 0 <= k < j ==> !text_lt(labels[i as int], labels[(#[trigger] s[k]) as int]),
        j == s.len() || text_lt(labels[i as int], labels[s[j] as int]),
    ensures
        label_pos(s, i, labels) == j,
    decreases s.len(),
{
    if s.len() > 0 && j > 0 {
        let rest = s.skip(1);
        assert forall|k: int| 0 <= k < j - 1 implies !text_lt(
            labels[i as int],
            labels[(#[trigger] rest[k]) as int],
        ) by {
            assert(rest[k] == s[k + 1]);
        }
        if j < s.len() {
            assert(rest[j - 1] == s[j]);
        }
        lemma_label_pos_first(rest, i, labels, j - 1);
    }
}

/// The offered targets (with whether each starts out picked) in the order of
/// the labels they are listed under, targets with the same label keeping
/// their order
pub fn sort_platform_options(targets: &Vec<String>, picked: &Vec<bool>, labels: &Vec<String>) -> (r: (
    Vec<String>,
    Vec<bool>,
))
    requires
        picked@.len() == targets@.len(),
        labels@.len() == targets@.len(),
    ensures
        r.0@.len() == targets@.len(),
        r.1@.len() == targets@.len(),
        forall|k: int|
            0 <= k < targets@.len() ==> #[trigger] r.0@[k] == targets@[by_label(
                targets@.len(),
                texts_view(labels@),
            )[k] as int],
        forall|k: int|
            0 <= k < targets@.len() ==> #[trigger] r.1@[k] == picked@[by_label(
                targets@.len(),
                texts_view(labels@),
            )[k] as int],
{
    let ghost keys = texts_view(labels@);
    let mut order: Vec<usize> = Vec::new();
    let mut i: usize = 0;
    while i < labels.len()
        invariant
            i <= labels@.len(),
            keys == texts_view(labels@),
            keys.len() == labels@.len(),
            order@ == by_label(i as nat, keys),
            order@.len() == i,
            forall|k: int| 0 <= k < order@.len() ==> (#[trigger] order@[k]) < i,
        decreases labels.len() - i,
    {
        let ghost before = order@;
        let mut j: usize = 0;
        loop
            invariant_except_break
                j <= order@.len(),
                forall|k: int| 0 <= k < j ==> !text_lt(keys[i as int], keys[(#[trigger] before[k]) as int]),
            invariant
                order@ == before,
                i < labels@.len(),
                keys == texts_view(labels@),
                keys.len() == labels@.len(),
                forall|k: int| 0 <= k < order@.len() ==> (#[trigger] order@[k]) < i,
            ensures
                j <= before.len(),
                forall|k: int| 0 <= k < j ==> !text_lt(keys[i as int], keys[(#[trigger] before[k]) as int]),
                j == before.len() || text_lt(keys[i as int], keys[before[j as int] as int]),
            decreases order.len() - j,
        {
            if j >= order.len() {
                break ;
            }
            let o = order[j];
            assert(o < i);
            proof {
                assert(keys[o as int] == labels@[o as int]@);
                assert(keys[i as int] == labels@[i as int]@);
            }
            if str_lt(labels[i].as_str(), labels[o].as_str()) {
                break ;
            }
            j = j + 1;
        }
        proof {
            lemma_label_pos_first(before, i, keys, j as int);
            assert(((i + 1) as nat - 1) as usize == i);
        }
        order.insert(j, i);
        assert forall|k: int| 0 <= k < order@.len() implies (#[trigger] order@[k]) < i + 1 by {
            if k < j {
                assert(order@[k] == before[k]);
            } else if k > j {
                assert(order@[k] == before[k - 1]);
            }
        }
        i = i + 1;
    }
    let mut out_targets: Vec<String> = Vec::new();
    let mut out_picked: Vec<bool> = Vec::new();
    let mut k: usize = 0;
    while k < order.len()
        invariant
            k <= order@.len(),
            order@.len() == targets@.len(),
            order@ == by_label(targets@.len(), keys),
            picked@.len() == targets@.len(),
            forall|m: int| 0 <= m < order@.len() ==> (#[trigger] order@[m]) < targets@.len(),
            out_targets@.len() == k,
            out_picked@.len() == k,
            forall|m: int| 0 <= m < k ==> #[trigger] out_targets@[m] == targets@[order@[m] as int],
            forall|m: int| 0 <= m < k ==> #[trigger] out_picked@[m] == picked@[order@[m] as int],
        decreases order.len() - k,
    {
        let idx = order[k];
        assert(idx < targets@.len());
        out_targets.push(clone_string(&targets[idx]));
        out_picked.push(picked[idx]);
        k = k + 1;
    }
    (out_targets, out_picked)
}

/// The entries of `options` at the positions `selected`, in that order
pub open spec fn selected_texts(options: Seq<Seq<char>>, selected: Seq<usize>) -> Seq<Seq<char>> {
    selected.map_values(|i: usize| options[i as int])
}

/// Set the targets to those picked from `options` at the positions `selected`
pub fn update_platforms(meta: &mut TomlLayer, options: &Vec<String>, selected: &Vec<usize>)
    requires
        forall|k: int| 0 <= k < selected@.len() ==> selected@[k] < options@.len(),
    ensures
        *final(meta) == (TomlLayer { targets: final(meta).targets, ..*old(meta) }),
        final(meta).targets is Some,
        texts_view(final(meta).targets->0@) == selected_texts(texts_view(options@), selected@),
{
    let mut targets: Vec<String> = Vec::new();
    let mut i: usize = 0;
    while i < selected.len()
        invariant
            i <= selected@.len(),
            forall|k: int| 0 <= k < selected@.len() ==> selected@[k] < options@.len(),
            texts_view(targets@) =~= selected_texts(texts_view(options@), selected@.take(i as int)),
        decreases selected.len() - i,
    {
        let t = clone_string(&options[selected[i]]);
        let ghost before = targets@;
        targets.push(t);
        assert(texts_view(targets@) =~= texts_view(before).push(t@));
        i = i + 1;
    }
    assert(selected@.take(selected@.len() as int) =~= selected@);
    // Apply the results
    meta.targets = Some(targets);
}


// ---------------------------------------------------------------------------
// Homebrew tap, npm scope and updater

/// Whether `s` holds an ASCII uppercase letter
pub open spec fn has_ascii_uppercase(s: Seq<char>) -> bool {
    exists|i: int| 0 <= i < s.len() && 65 <= (#[trigger] s[i] as int) <= 90
}

/// What is wrong with an npm scope as typed (around whitespace), if
/// anything: it may be empty; else it must be lowercase, start with `@` and
/// have something after the `@`
pub open spec fn npm_scope_problem(v: Seq<char>) -> Option<DistError> {
    let t = trimmed(v);
    if t.len() == 0 {
        None
    } else if has_ascii_uppercase(t) {
        Some(DistError::NpmScopeNotLowercase)
    } else if "@"@.is_prefix_of(t) {
        if t.len() == "@"@.len() {
            Some(DistError::NpmScopeEmptyName)
        } else {
            None
        }
    } else {
        Some(DistError::NpmScopeMissingAt)
    }
}

fn contains_ascii_uppercase(s: &str) -> (r: bool)
    ensures
        r == has_ascii_uppercase(s@),
{
    let n = s.unicode_len();
    let mut i: usize = 0;
    while i < n
        invariant
            n == s@.len(),
            i <= n,
            forall|k: int| 0 <= k < i ==> !(65 <= (#[trigger] s@[k] as int) <= 90),
        decreases n - i,
    {
        let c = s.get_char(i);
        let code = c as u32;
        if 65 <= code && code <= 90 {
            assert(65 <= (s@[i as int] as int) <= 90);
            return true;
        }
        i = i + 1;
    }
    false
}

/// Check an npm scope as typed: empty (publish globally), or lowercase,
/// starting with `@` and with something after it
pub fn validate_npm_scope(v: &str) -> (r: Result<(), DistError>)
    ensures
        match npm_scope_problem(v@) {
            None => r is Ok,
            Some(e) => r == Err::<(), DistError>(e),
        },
{
    let t = str_trim(v);
    if t.is_empty() {
        Ok(())
    } else if contains_ascii_uppercase(t) {
        Err(DistError::NpmScopeNotLowercase)
    } else if let Some(rest) = str_strip_prefix(t, "@") {
        if rest.is_empty() {
            assert(t@ =~= "@"@ + rest@);
            Err(DistError::NpmScopeEmptyName)
        } else {
            Ok(())
        }
    } else {
        Err(DistError::NpmScopeMissingAt)
    }
}

/// The installers of the layer, or an empty installers layer
pub open spec fn installers_or_empty(meta: TomlLayer) -> InstallerLayer {
    match meta.installers {
        Some(i) => i,
        None => InstallerLayer::spec_default(),
    }
}

/// The homebrew settings given, or empty ones where homebrew is only
/// switched on (or not mentioned)
pub open spec fn homebrew_settings(h: Option<BoolOr<HomebrewInstallerLayer>>) -> HomebrewInstallerLayer {
    match h {
        Some(BoolOr::Val(v)) => v,
        _ => HomebrewInstallerLayer { common: CommonInstallerLayer::spec_default(), tap: None, formula: None },
    }
}

/// The npm settings given, or empty ones where npm is only switched on (or
/// not mentioned)
pub open spec fn npm_settings(n: Option<BoolOr<NpmInstallerLayer>>) -> NpmInstallerLayer {
    match n {
        Some(BoolOr::Val(v)) => v,
        _ => NpmInstallerLayer { common: CommonInstallerLayer::spec_default(), package: None, scope: None },
    }
}

/// Apply the homebrew tap the user typed (around whitespace): none turns
/// the homebrew installer off; a tap is set as the installer's tap, keeping
/// its other settings
pub fn apply_homebrew_tap(meta: &mut TomlLayer, tap: &str)
    ensures
        *final(meta) == (TomlLayer { installers: final(meta).installers, ..*old(meta) }),
        trimmed(tap@).len() == 0 ==> final(meta).installers == match old(meta).installers {
            Some(i) => Some(InstallerLayer { homebrew: None, ..i }),
            None => None,
        },
        trimmed(tap@).len() > 0 ==> {
            &&& final(meta).installers matches Some(i)
            &&& i == InstallerLayer { homebrew: i.homebrew, ..installers_or_empty(*old(meta)) }
            &&& i.homebrew matches Some(BoolOr::Val(h))
            &&& h == HomebrewInstallerLayer {
                tap: h.tap,
                ..homebrew_settings(installers_or_empty(*old(meta)).homebrew)
            }
            &&& h.tap matches Some(t)
            &&& t@ == trimmed(tap@)
        },
{
    let tap = str_trim(tap);
    let installers = meta.installers.take();
    if tap.is_empty() {
        meta.installers = match installers {
            Some(i) => Some(InstallerLayer { homebrew: None, ..i }),
            None => None,
        };
    } else {
        let mut installers = match installers {
            Some(i) => i,
            None => InstallerLayer::default(),
        };
        let mut homebrew = match installers.homebrew.take() {
            Some(BoolOr::Val(v)) => v,
            _ => HomebrewInstallerLayer::default(),
        };
        homebrew.tap = Some(owned(tap));
        installers.homebrew = Some(BoolOr::Val(homebrew));
        meta.installers = Some(installers);
    }
}

/// Apply the npm scope the user typed (around whitespace) to the npm
/// installer, which is switched on with its other settings kept: none
/// publishes globally, else the scope is set
pub fn apply_npm_scope(meta: &mut TomlLayer, scope: &str)
    ensures
        *final(meta) == (TomlLayer { installers: final(meta).installers, ..*old(meta) }),
        final(meta).installers matches Some(i) && {
            &&& i == InstallerLayer { npm: i.npm, ..installers_or_empty(*old(meta)) }
            &&& i.npm matches Some(BoolOr::Val(n))
            &&& n == NpmInstallerLayer { scope: n.scope, ..npm_settings(installers_or_empty(*old(meta)).npm) }
            &&& trimmed(scope@).len() == 0 ==> n.scope is None
            &&& trimmed(scope@).len() > 0 ==> (n.scope matches Some(s) && s@ == trimmed(scope@))
        },
{
    let scope = str_trim(scope);
    let mut installers = match meta.installers.take() {
        Some(i) => i,
        None => InstallerLayer::default(),
    };
    let mut npm = match installers.npm.take() {
        Some(BoolOr::Val(v)) => v,
        _ => NpmInstallerLayer::default(),
    };
    npm.scope = if scope.is_empty() {
        None
    } else {
        Some(owned(scope))
    };
    installers.npm = Some(BoolOr::Val(npm));
    meta.installers = Some(installers);
}

/// Whether `dist init` asks about the updater, and what it offers: only
/// with a shell or powershell installer, offering the updater setting
/// already there (off where there is none)
pub open spec fn updater_default_spec(meta: TomlLayer) -> Option<bool> {
    match meta.installers {
        Some(i) => if i.shell is Some || i.powershell is Some {
            Some(
                match i.updater {
                    Some(b) => b,
                    None => false,
                },
            )
        } else {
            None
        },
        None => None,
    }
}

/// Whether `dist init` asks about the updater, and what it offers: only
/// with a shell or powershell installer, offering the updater setting
/// already there (off where there is none)
pub fn updater_default(meta: &TomlLayer) -> (r: Option<bool>)
    ensures
        r == updater_default_spec(*meta),
{
    match &meta.installers {
        Some(i) => if i.shell.is_some() || i.powershell.is_some() {
            Some(
                match i.updater {
                    Some(b) => b,
                    None => false,
                },
            )
        } else {
            None
        },
        None => None,
    }
}

/// Record the answer about the updater, where `dist init` asks about it
pub fn apply_updater(meta: &mut TomlLayer, install_updater: bool)
    ensures
        updater_default_spec(*old(meta)) is None ==> *final(meta) == *old(meta),
        updater_default_spec(*old(meta)) is Some ==> *final(meta) == (TomlLayer {
            installers: Some(
                InstallerLayer { updater: Some(install_updater), ..installers_or_empty(*old(meta)) },
            ),
            ..*old(meta)
        }),
{
    if updater_default(meta).is_some() {
        let mut installers = meta.installers.take().unwrap();
        installers.updater = Some(install_updater);
        meta.installers = Some(installers);
    }
}

} // verus!

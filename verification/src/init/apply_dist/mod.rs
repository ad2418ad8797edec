//! Writing a config layer back into the `[dist]` table of a TOML document.
//!
//! The layer is turned into a list of [`TomlEdit`][]s, made in order to the
//! `[dist]` table: each setting that is given is written with a comment above
//! it, and each that is not is removed.

use vstd::prelude::*;

pub mod artifacts;
pub mod builds;
pub mod ci;
pub mod helpers;
pub mod hosts;
pub mod installers;
pub mod publishers;

use helpers::{apply_optional_bool, apply_optional_text, apply_optional_value, apply_string_list, bool_val, optional_value_spec, string_list_spec, text_val, texts_view};

use crate::config::v1::installers::InstallerLayer;
use crate::config::v1::layer::BoolOr;
use crate::config::v1::TomlLayer;
use crate::config::{GenerateMode, InstallPathStrategy, InstallPathView};
use crate::generate::version_text;
use crate::platform::{LibcVersion, MinGlibcVersion};
use crate::strings::{clone_strings, owned};

verus! {

/// A value written into a config table
#[derive(Debug)]
pub enum TomlValue {
    /// `true` or `false`
    Bool(bool),
    /// A string
    Text(String),
    /// An array of strings
    Texts(Vec<String>),
}

/// One change to the `[dist]` table; tables are named by their path of keys
/// below `[dist]` (the empty path is `[dist]` itself)
#[derive(Debug)]
pub enum TomlEdit {
    /// Make sure there is a table at the path (a new empty one if nothing is there)
    EnsureTable { table: Vec<String> },
    /// Set `key` in the table to `value`, with `comment` above it
    Write { table: Vec<String>, key: String, value: TomlValue, comment: String },
    /// Remove `key` (and the comment above it) from the table
    Remove { table: Vec<String>, key: String },
    /// Put a table of `target = "version"` entries at `key`, with `comment`
    /// above it, unless something is there already
    SetVersionsIfAbsent {
        table: Vec<String>,
        key: String,
        versions: MinGlibcVersion,
        comment: String,
    },
    /// Set the comment above the table
    TableComment { table: Vec<String>, comment: String },
}

/// A [`TomlValue`][] as text
pub enum TomlValueView {
    /// `true` or `false`
    Bool(bool),
    /// A string
    Text(Seq<char>),
    /// An array of strings
    Texts(Seq<Seq<char>>),
}

/// A [`TomlEdit`][] as text
pub enum TomlEditView {
    /// Make sure there is a table at the path
    EnsureTable(Seq<Seq<char>>),
    /// Set a key of the table to a value, with a comment
    Write(Seq<Seq<char>>, Seq<char>, TomlValueView, Seq<char>),
    /// Remove a key of the table
    Remove(Seq<Seq<char>>, Seq<char>),
    /// Put a table of versions at a key unless something is there
    SetVersionsIfAbsent(Seq<Seq<char>>, Seq<char>, Map<String, LibcVersion>, Seq<char>),
    /// Set the comment above the table
    TableComment(Seq<Seq<char>>, Seq<char>),
}

impl View for TomlValue {
    type V = TomlValueView;

    open spec fn view(&self) -> TomlValueView {
        match self {
            TomlValue::Bool(b) => TomlValueView::Bool(*b),
            TomlValue::Text(s) => TomlValueView::Text(s@),
            TomlValue::Texts(v) => TomlValueView::Texts(texts_view(v@)),
        }
    }
}

impl View for TomlEdit {
    type V = TomlEditView;

    open spec fn view(&self) -> TomlEditView {
        match self {
            TomlEdit::EnsureTable { table } => TomlEditView::EnsureTable(texts_view(table@)),
            TomlEdit::Write { table, key, value, comment } => TomlEditView::Write(
                texts_view(table@),
                key@,
                value@,
                comment@,
            ),
            TomlEdit::Remove { table, key } => TomlEditView::Remove(texts_view(table@), key@),
            TomlEdit::SetVersionsIfAbsent { table, key, versions, comment } => TomlEditView::SetVersionsIfAbsent(
                texts_view(table@),
                key@,
                versions@,
                comment@,
            ),
            TomlEdit::TableComment { table, comment } => TomlEditView::TableComment(
                texts_view(table@),
                comment@,
            ),
        }
    }
}

/// A list of edits as text
pub open spec fn edits_view(v: Seq<TomlEdit>) -> Seq<TomlEditView> {
    v.map_values(|e: TomlEdit| e@)
}

/// The names of generate modes
pub open spec fn modes_texts(v: Seq<GenerateMode>) -> Seq<Seq<char>> {
    v.map_values(|m: GenerateMode| m.display_spec())
}

/// The names of generate modes
fn modes_to_texts(v: &Vec<GenerateMode>) -> (r: Vec<String>)
    ensures
        texts_view(r@) == modes_texts(v@),
{
    let mut out: Vec<String> = Vec::new();
    let mut i: usize = 0;
    while i < v.len()
        invariant
            i <= v@.len(),
            texts_view(out@) == modes_texts(v@.take(i as int)),
        decreases v.len() - i,
    {
        let ghost prev = out@;
        let t = v[i].to_string();
        out.push(t);
        proof {
            assert(v@.take(i + 1) == v@.take(i as int).push(v@[i as int]));
            assert(texts_view(out@) =~= texts_view(prev).push(t@));
            assert(modes_texts(v@.take(i + 1)) =~= modes_texts(v@.take(i as int)).push(
                v@[i as int].display_spec(),
            ));
        }
        i = i + 1;
    }
    assert(v@.take(v@.len() as int) == v@);
    out
}

/// Whether an installer is left out: not given, or turned off
pub open spec fn none_or_false<T>(o: Option<BoolOr<T>>) -> bool {
    match o {
        None => true,
        Some(BoolOr::Bool(b)) => !b,
        Some(BoolOr::Val(_)) => false,
    }
}

/// Whether an installer is left out: not given, or turned off
fn is_none_or_false<T>(o: &Option<BoolOr<T>>) -> (r: bool)
    ensures
        r == none_or_false(*o),
{
    match o {
        None => true,
        Some(BoolOr::Bool(b)) => !*b,
        Some(BoolOr::Val(_)) => false,
    }
}

/// The installer settings, or none if there are none
pub open spec fn installers_or_default(o: Option<InstallerLayer>) -> InstallerLayer {
    match o {
        Some(i) => i,
        None => InstallerLayer::spec_default(),
    }
}

/// The install path written for the installer settings `o`: the default
/// install path is written out when none is set and both a shell and a
/// PowerShell installer are asked for
pub open spec fn default_install_path_spec(o: Option<InstallerLayer>) -> Option<Seq<Seq<char>>> {
    let i = installers_or_default(o);
    if i.common.install_path is None && !(none_or_false(i.shell) || none_or_false(i.powershell)) {
        Some(seq![InstallPathView::CargoHome.display_spec()])
    } else {
        installers::install_paths_opt_texts(i.common.install_path)
    }
}

/// The install path written for the installer settings `installers`
fn apply_default_install_path(installers: &Option<InstallerLayer>) -> (r: Option<Vec<InstallPathStrategy>>)
    ensures
        installers::install_paths_opt_texts(r) == default_install_path_spec(*installers),
{
    let (install_path, shell_off, powershell_off) = match installers {
        Some(i) => (&i.common.install_path, is_none_or_false(&i.shell), is_none_or_false(&i.powershell)),
        None => (&None, true, true),
    };
    // Forcibly inline the default install_path if not specified,
    // and if both the shell and the powershell installer are on
    match install_path {
        None => {
            if !(shell_off || powershell_off) {
                let r = InstallPathStrategy::default_list();
                assert(installers::install_paths_texts(r@) =~= seq![InstallPathView::CargoHome.display_spec()]);
                Some(r)
            } else {
                None
            }
        },
        Some(v) => Some(crate::config::v1::installers::clone_install_paths(v)),
    }
}

/// The edits that write `meta` into the `[dist]` table: the top-level
/// settings, then each section (the installers with the default install path
/// made explicit), and the table's own comment
pub open spec fn dist_metadata_spec(meta: TomlLayer) -> Seq<TomlEditView> {
    let root = Seq::<Seq<char>>::empty();
    optional_value_spec(
        root,
        "config-version"@,
        "# The configuration version to use (valid options: 1)\n"@,
        Some(TomlValueView::Text(meta.config_version.display_spec())),
    ) + optional_value_spec(
        root,
        "dist-version"@,
        "# The preferred dist version to use in CI (Cargo.toml SemVer syntax)\n"@,
        match meta.dist_version {
            Some(v) => Some(TomlValueView::Text(version_text(v))),
            None => None,
        },
    ) + optional_value_spec(
        root,
        "dist-url-override"@,
        "# A URL to use to install `cargo-dist` (with the installer script)\n"@,
        text_val(meta.dist_url_override),
    ) + optional_value_spec(
        root,
        "dist"@,
        "# Whether the package should be distributed/built by dist (defaults to true)\n"@,
        bool_val(meta.dist),
    ) + string_list_spec(
        root,
        "allow-dirty"@,
        "# Skip checking whether the specified configuration files are up to date\n"@,
        match meta.allow_dirty {
            Some(v) => Some(modes_texts(v@)),
            None => None,
        },
    ) + string_list_spec(
        root,
        "targets"@,
        "# Target platforms to build apps for (Rust target-triple syntax)\n"@,
        match meta.targets {
            Some(v) => Some(texts_view(v@)),
            None => None,
        },
    ) + artifacts::artifacts_spec(root, meta.artifacts) + builds::builds_spec(root, meta.builds)
        + ci::ci_spec(root, meta.ci) + hosts::hosts_spec(root, meta.hosts)
        + installers::installer_layer_spec(
        root,
        installers_or_default(meta.installers),
        default_install_path_spec(meta.installers),
    ) + publishers::publishers_spec(
        root,
        meta.publishers,
    ) + seq![TomlEditView::TableComment(root, "\n# Config for 'dist'\n"@)]
}

/// The edits that write `meta` into the `[dist]` table of a config document,
/// in the order they are to be made
pub fn apply_dist_to_metadata(meta: &TomlLayer) -> (r: Vec<TomlEdit>)
    ensures
        edits_view(r@) == dist_metadata_spec(*meta),
{
    let mut edits: Vec<TomlEdit> = Vec::new();
    let root: Vec<String> = Vec::new();
    assert(texts_view(root@) =~= Seq::<Seq<char>>::empty());
    assert(edits_view(edits@) =~= Seq::<TomlEditView>::empty());

    apply_optional_value(
        &mut edits,
        &root,
        "config-version",
        "# The configuration version to use (valid options: 1)\n",
        Some(TomlValue::Text(meta.config_version.to_string())),
    );
    apply_optional_value(
        &mut edits,
        &root,
        "dist-version",
        "# The preferred dist version to use in CI (Cargo.toml SemVer syntax)\n",
        match &meta.dist_version {
            Some(v) => Some(TomlValue::Text(crate::generate::version_to_string(v))),
            None => None,
        },
    );
    apply_optional_text(
        &mut edits,
        &root,
        "dist-url-override",
        "# A URL to use to install `cargo-dist` (with the installer script)\n",
        &meta.dist_url_override,
    );
    apply_optional_bool(
        &mut edits,
        &root,
        "dist",
        "# Whether the package should be distributed/built by dist (defaults to true)\n",
        meta.dist,
    );
    apply_string_list(
        &mut edits,
        &root,
        "allow-dirty",
        "# Skip checking whether the specified configuration files are up to date\n",
        match &meta.allow_dirty {
            Some(v) => Some(modes_to_texts(v)),
            None => None,
        },
    );
    apply_string_list(
        &mut edits,
        &root,
        "targets",
        "# Target platforms to build apps for (Rust target-triple syntax)\n",
        match &meta.targets {
            Some(v) => Some(clone_strings(v)),
            None => None,
        },
    );
    artifacts::apply(&mut edits, &root, &meta.artifacts);
    builds::apply(&mut edits, &root, &meta.builds);
    ci::apply(&mut edits, &root, &meta.ci);
    hosts::apply(&mut edits, &root, &meta.hosts);
    let no_installers = InstallerLayer::default();
    let installers = match &meta.installers {
        Some(i) => i,
        None => &no_installers,
    };
    let install_path = apply_default_install_path(&meta.installers);
    installers::apply_layer(&mut edits, &root, installers, &install_path);
    publishers::apply(&mut edits, &root, &meta.publishers);

    // Finalize the table
    let ghost before = edits@;
    let edit = TomlEdit::TableComment { table: Vec::new(), comment: owned("\n# Config for 'dist'\n") };
    assert(edit@ == TomlEditView::TableComment(root@.map_values(|s: String| s@), "\n# Config for 'dist'\n"@)) by {
        assert(Seq::<String>::empty().map_values(|s: String| s@) =~= Seq::<Seq<char>>::empty());
    }
    edits.push(edit);
    assert(edits_view(edits@) =~= edits_view(before).push(edit@));
    edits
}

} // verus!

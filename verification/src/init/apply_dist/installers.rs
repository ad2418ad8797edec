//! Writing the `[dist.installers]` table

use vstd::prelude::*;

use super::artifacts::{libraries_texts, libraries_to_texts};
use super::helpers::{
    apply_optional_bool, apply_optional_text, apply_optional_value, apply_string_or_list,
    bool_val, child_path, ensure_table, optional_value_spec, string_or_list_spec, table_comment,
    text_val, texts_view,
};
use super::{edits_view, TomlEdit, TomlEditView, TomlValue, TomlValueView};
use crate::config::v1::installers::homebrew::HomebrewInstallerLayer;
use crate::config::v1::installers::msi::MsiInstallerLayer;
use crate::config::v1::installers::npm::NpmInstallerLayer;
use crate::config::v1::installers::pkg::PkgInstallerLayer;
use crate::config::v1::installers::powershell::PowershellInstallerLayer;
use crate::config::v1::installers::shell::ShellInstallerLayer;
use crate::config::v1::installers::{CommonInstallerLayer, InstallerLayer};
use crate::config::v1::layer::BoolOr;
use crate::config::InstallPathStrategy;

verus! {

/// The config text of each install path
pub open spec fn install_paths_texts(v: Seq<InstallPathStrategy>) -> Seq<Seq<char>> {
    v.map_values(|p: InstallPathStrategy| p@.display_spec())
}

/// The config text of each install path, if there is a list
pub open spec fn install_paths_opt_texts(o: Option<Vec<InstallPathStrategy>>) -> Option<Seq<Seq<char>>> {
    match o {
        Some(v) => Some(install_paths_texts(v@)),
        None => None,
    }
}

/// The names of library kinds, if there is a list
pub open spec fn libraries_opt_texts(o: Option<Vec<crate::config::LibraryStyle>>) -> Option<Seq<Seq<char>>> {
    match o {
        Some(v) => Some(libraries_texts(v@)),
        None => None,
    }
}

/// The config text of each install path
fn install_paths_to_texts(v: &Vec<InstallPathStrategy>) -> (r: Vec<String>)
    ensures
        texts_view(r@) == install_paths_texts(v@),
{
    let mut out: Vec<String> = Vec::new();
    let mut i: usize = 0;
    while i < v.len()
        invariant
            i <= v@.len(),
            texts_view(out@) == install_paths_texts(v@.take(i as int)),
        decreases v.len() - i,
    {
        let ghost prev = out@;
        let t = v[i].to_string();
        out.push(t);
        proof {
            assert(v@.take(i + 1) == v@.take(i as int).push(v@[i as int]));
            assert(texts_view(out@) =~= texts_view(prev).push(t@));
            assert(install_paths_texts(v@.take(i + 1)) =~= install_paths_texts(v@.take(i as int)).push(
                v@[i as int]@.display_spec(),
            ));
        }
        i = i + 1;
    }
    assert(v@.take(v@.len() as int) == v@);
    out
}

/// The edits that write the settings shared by all installers into table
/// `t`, with `install_path` as the install path to write
pub open spec fn installer_common_spec(
    t: Seq<Seq<char>>,
    install_path: Option<Seq<Seq<char>>>,
    common: CommonInstallerLayer,
) -> Seq<TomlEditView> {
    string_or_list_spec(
        t,
        "install-path"@,
        "# Path that installers should place binaries in\n"@,
        install_path,
    ) + optional_value_spec(
        t,
        "install-success-msg"@,
        "# Custom message to display on successful install\n"@,
        text_val(common.install_success_msg),
    ) + string_or_list_spec(
        t,
        "install-libraries"@,
        "# Which kinds of packaged libraries to install\n"@,
        libraries_opt_texts(common.install_libraries),
    )
}

/// The edits for an installer given as a flag
pub open spec fn installer_flag_spec(it: Seq<Seq<char>>, name: Seq<char>, comment: Seq<char>, b: bool) -> Seq<TomlEditView> {
    optional_value_spec(it, name, comment, Some(TomlValueView::Bool(b)))
}

/// The edits that write the Homebrew installer below the installers table `it`
pub open spec fn homebrew_spec(it: Seq<Seq<char>>, homebrew: Option<BoolOr<HomebrewInstallerLayer>>) -> Seq<TomlEditView> {
    match homebrew {
        Some(BoolOr::Bool(b)) => installer_flag_spec(it, "homebrew"@, "# Whether to build a Homebrew installer\n"@, b),
        Some(BoolOr::Val(h)) => {
            let ht = it.push("homebrew"@);
            seq![TomlEditView::EnsureTable(ht)] + installer_common_spec(
                ht,
                install_paths_opt_texts(h.common.install_path),
                h.common,
            ) + optional_value_spec(
                ht,
                "tap"@,
                "# A GitHub repo to push Homebrew formulas to\n"@,
                text_val(h.tap),
            ) + optional_value_spec(
                ht,
                "formula"@,
                "# Customize the Homebrew formula name\n"@,
                text_val(h.formula),
            ) + seq![TomlEditView::TableComment(ht, "\n# Configuration for the Homebrew installer\n"@)]
        },
        None => Seq::empty(),
    }
}

/// The edits that write the MSI installer below the installers table `it`
pub open spec fn msi_spec(it: Seq<Seq<char>>, msi: Option<BoolOr<MsiInstallerLayer>>) -> Seq<TomlEditView> {
    match msi {
        Some(BoolOr::Bool(b)) => installer_flag_spec(it, "msi"@, "# Whether to build an MSI installer\n"@, b),
        Some(BoolOr::Val(m)) => {
            let mt = it.push("msi"@);
            seq![TomlEditView::EnsureTable(mt)] + installer_common_spec(
                mt,
                install_paths_opt_texts(m.common.install_path),
                m.common,
            ) + seq![TomlEditView::TableComment(mt, "\n# Configuration for the MSI installer\n"@)]
        },
        None => Seq::empty(),
    }
}

/// The edits that write the npm installer below the installers table `it`
pub open spec fn npm_spec(it: Seq<Seq<char>>, npm: Option<BoolOr<NpmInstallerLayer>>) -> Seq<TomlEditView> {
    match npm {
        Some(BoolOr::Bool(b)) => installer_flag_spec(it, "npm"@, "# Whether to build an NPM installer\n"@, b),
        Some(BoolOr::Val(n)) => {
            let nt = it.push("npm"@);
            seq![TomlEditView::EnsureTable(nt)] + installer_common_spec(
                nt,
                install_paths_opt_texts(n.common.install_path),
                n.common,
            ) + optional_value_spec(
                nt,
                "package"@,
                "# The name of the npm package\n"@,
                text_val(n.package),
            ) + optional_value_spec(
                nt,
                "scope"@,
                "# The namespace to use when publishing this package to the npm registry\n"@,
                text_val(n.scope),
            ) + seq![TomlEditView::TableComment(nt, "\n# Configuration for the NPM installer\n"@)]
        },
        None => Seq::empty(),
    }
}

/// The edits that write the PowerShell installer below the installers table
/// `it` (the comment its settings leave is put on the installers table)
pub open spec fn powershell_spec(it: Seq<Seq<char>>, powershell: Option<BoolOr<PowershellInstallerLayer>>) -> Seq<TomlEditView> {
    match powershell {
        Some(BoolOr::Bool(b)) => installer_flag_spec(it, "powershell"@, "# Whether to build a PowerShell installer\n"@, b),
        Some(BoolOr::Val(p)) => {
            let pt = it.push("powershell"@);
            seq![TomlEditView::EnsureTable(pt)] + installer_common_spec(
                pt,
                install_paths_opt_texts(p.common.install_path),
                p.common,
            ) + seq![TomlEditView::TableComment(it, "\n# Configuration for the Windows PowerShell installer\n"@)]
        },
        None => Seq::empty(),
    }
}

/// The edits that write the shell installer below the installers table `it`
/// (the comment its settings leave is put on the installers table)
pub open spec fn shell_spec(it: Seq<Seq<char>>, shell: Option<BoolOr<ShellInstallerLayer>>) -> Seq<TomlEditView> {
    match shell {
        Some(BoolOr::Bool(b)) => installer_flag_spec(it, "shell"@, "# Whether to build a Shell installer\n"@, b),
        Some(BoolOr::Val(s)) => {
            let st = it.push("shell"@);
            seq![TomlEditView::EnsureTable(st)] + installer_common_spec(
                st,
                install_paths_opt_texts(s.common.install_path),
                s.common,
            ) + seq![TomlEditView::TableComment(it, "\n# Configuration for the *nix shell installer\n"@)]
        },
        None => Seq::empty(),
    }
}

/// The edits that write the Mac .pkg installer below the installers table `it`
pub open spec fn pkg_spec(it: Seq<Seq<char>>, pkg: Option<BoolOr<PkgInstallerLayer>>) -> Seq<TomlEditView> {
    match pkg {
        Some(BoolOr::Bool(b)) => installer_flag_spec(it, "pkg"@, "# Whether to build a Mac .pkg installer\n"@, b),
        Some(BoolOr::Val(p)) => {
            let pt = it.push("pkg"@);
            seq![TomlEditView::EnsureTable(pt)] + installer_common_spec(
                pt,
                install_paths_opt_texts(p.common.install_path),
                p.common,
            ) + optional_value_spec(
                pt,
                "identifier"@,
                "# A unique identifier, in tld.domain.package format\n"@,
                text_val(p.identifier),
            ) + optional_value_spec(
                pt,
                "install-location"@,
                "# The location to which software should be installed (defaults to /usr/local)\n"@,
                text_val(p.install_location),
            ) + seq![TomlEditView::TableComment(pt, "\n# Configuration for the Mac .pkg installer\n"@)]
        },
        None => Seq::empty(),
    }
}

/// The edits that write the installer settings `i` below `t`, with
/// `install_path` as the install path shared by all installers
pub open spec fn installer_layer_spec(
    t: Seq<Seq<char>>,
    i: InstallerLayer,
    install_path: Option<Seq<Seq<char>>>,
) -> Seq<TomlEditView> {
    let it = t.push("installers"@);
    seq![TomlEditView::EnsureTable(it)] + installer_common_spec(it, install_path, i.common)
        + homebrew_spec(it, i.homebrew) + msi_spec(it, i.msi) + npm_spec(it, i.npm)
        + powershell_spec(it, i.powershell) + shell_spec(it, i.shell) + pkg_spec(it, i.pkg)
        + optional_value_spec(
        it,
        "updater"@,
        "# Whether to install an updater program alongside the software\n"@,
        bool_val(i.updater),
    ) + optional_value_spec(
        it,
        "always-use-latest-updater"@,
        "# Whether to always use the latest updater version instead of a fixed version\n"@,
        bool_val(i.always_use_latest_updater),
    ) + seq![TomlEditView::TableComment(it, "\n# Installer configuration for dist\n"@)]
}

/// The edits that write the installer settings below `t`
pub open spec fn installers_spec(t: Seq<Seq<char>>, installers: Option<InstallerLayer>) -> Seq<TomlEditView> {
    match installers {
        None => Seq::empty(),
        Some(i) => installer_layer_spec(t, i, install_paths_opt_texts(i.common.install_path)),
    }
}

/// Write the installer settings below `table`
pub fn apply(edits: &mut Vec<TomlEdit>, table: &Vec<String>, installers: &Option<InstallerLayer>)
    ensures
        edits_view(final(edits)@) == edits_view(old(edits)@) + installers_spec(
            texts_view(table@),
            *installers,
        ),
{
    match installers {
        Some(i) => apply_layer(edits, table, i, &i.common.install_path),
        None => {
            assert(edits_view(edits@) == edits_view(edits@) + Seq::<TomlEditView>::empty());
        },
    }
}

/// Write the installer settings `installers` below `table`, with
/// `install_path` as the install path shared by all installers
pub fn apply_layer(
    edits: &mut Vec<TomlEdit>,
    table: &Vec<String>,
    installers: &InstallerLayer,
    install_path: &Option<Vec<InstallPathStrategy>>,
)
    ensures
        edits_view(final(edits)@) == edits_view(old(edits)@) + installer_layer_spec(
            texts_view(table@),
            *installers,
            install_paths_opt_texts(*install_path),
        ),
{
    let ghost start = edits_view(edits@);
    let installers_table = child_path(table, "installers");
    let ghost it = texts_view(installers_table@);
    ensure_table(edits, &installers_table);
    apply_installers_common(edits, &installers_table, install_path, &installers.common);
    let ghost s1 = edits_view(edits@);
    apply_installers_homebrew(edits, &installers_table, &installers.homebrew);
    apply_installers_msi(edits, &installers_table, &installers.msi);
    apply_installers_npm(edits, &installers_table, &installers.npm);
    apply_installers_powershell(edits, &installers_table, &installers.powershell);
    apply_installers_shell(edits, &installers_table, &installers.shell);
    apply_installers_pkg(edits, &installers_table, &installers.pkg);
    let ghost s2 = edits_view(edits@);
    apply_optional_bool(
        edits,
        &installers_table,
        "updater",
        "# Whether to install an updater program alongside the software\n",
        installers.updater,
    );
    apply_optional_bool(
        edits,
        &installers_table,
        "always-use-latest-updater",
        "# Whether to always use the latest updater version instead of a fixed version\n",
        installers.always_use_latest_updater,
    );
    // Finalize the table
    table_comment(edits, &installers_table, "\n# Installer configuration for dist\n");
    proof {
        assert(s2 =~= s1 + homebrew_spec(it, installers.homebrew) + msi_spec(it, installers.msi)
            + npm_spec(it, installers.npm) + powershell_spec(it, installers.powershell) + shell_spec(
            it,
            installers.shell,
        ) + pkg_spec(it, installers.pkg));
        assert(edits_view(edits@) =~= start + installer_layer_spec(
            texts_view(table@),
            *installers,
            install_paths_opt_texts(*install_path),
        ));
    }
}

/// Write the settings shared by all installers into `table`
fn apply_installers_common(
    edits: &mut Vec<TomlEdit>,
    table: &Vec<String>,
    install_path: &Option<Vec<InstallPathStrategy>>,
    common: &CommonInstallerLayer,
)
    ensures
        edits_view(final(edits)@) == edits_view(old(edits)@) + installer_common_spec(
            texts_view(table@),
            install_paths_opt_texts(*install_path),
            *common,
        ),
{
    let ghost start = edits_view(edits@);
    apply_string_or_list(
        edits,
        table,
        "install-path",
        "# Path that installers should place binaries in\n",
        match install_path {
            Some(v) => Some(install_paths_to_texts(v)),
            None => None,
        },
    );
    apply_optional_text(
        edits,
        table,
        "install-success-msg",
        "# Custom message to display on successful install\n",
        &common.install_success_msg,
    );
    apply_string_or_list(
        edits,
        table,
        "install-libraries",
        "# Which kinds of packaged libraries to install\n",
        match &common.install_libraries {
            Some(v) => Some(libraries_to_texts(v)),
            None => None,
        },
    );
    // The binary aliases are left as they are.
    proof {
        assert(edits_view(edits@) =~= start + installer_common_spec(
            texts_view(table@),
            install_paths_opt_texts(*install_path),
            *common,
        ));
    }
}

/// Write an installer given as a flag
fn apply_flag(edits: &mut Vec<TomlEdit>, installers_table: &Vec<String>, name: &str, comment: &str, b: bool)
    ensures
        edits_view(final(edits)@) == edits_view(old(edits)@) + installer_flag_spec(
            texts_view(installers_table@),
            name@,
            comment@,
            b,
        ),
{
    apply_optional_value(edits, installers_table, name, comment, Some(TomlValue::Bool(b)));
}

/// Write the Homebrew installer below `installers_table`
fn apply_installers_homebrew(
    edits: &mut Vec<TomlEdit>,
    installers_table: &Vec<String>,
    homebrew: &Option<BoolOr<HomebrewInstallerLayer>>,
)
    ensures
        edits_view(final(edits)@) == edits_view(old(edits)@) + homebrew_spec(
            texts_view(installers_table@),
            *homebrew,
        ),
{
    let ghost start = edits_view(edits@);
    match homebrew {
        Some(BoolOr::Bool(b)) => {
            apply_flag(edits, installers_table, "homebrew", "# Whether to build a Homebrew installer\n", *b);
        },
        Some(BoolOr::Val(h)) => {
            let ht = child_path(installers_table, "homebrew");
            ensure_table(edits, &ht);
            apply_installers_common(edits, &ht, &h.common.install_path, &h.common);
            apply_optional_text(edits, &ht, "tap", "# A GitHub repo to push Homebrew formulas to\n", &h.tap);
            apply_optional_text(edits, &ht, "formula", "# Customize the Homebrew formula name\n", &h.formula);
            // Finalize the table
            table_comment(edits, &ht, "\n# Configuration for the Homebrew installer\n");
            assert(edits_view(edits@) =~= start + homebrew_spec(texts_view(installers_table@), *homebrew));
        },
        None => {
            assert(edits_view(edits@) =~= start + Seq::<TomlEditView>::empty());
        },
    }
}

/// Write the MSI installer below `installers_table`
fn apply_installers_msi(edits: &mut Vec<TomlEdit>, installers_table: &Vec<String>, msi: &Option<BoolOr<MsiInstallerLayer>>)
    ensures
        edits_view(final(edits)@) == edits_view(old(edits)@) + msi_spec(
            texts_view(installers_table@),
            *msi,
        ),
{
    let ghost start = edits_view(edits@);
    match msi {
        Some(BoolOr::Bool(b)) => {
            apply_flag(edits, installers_table, "msi", "# Whether to build an MSI installer\n", *b);
        },
        Some(BoolOr::Val(m)) => {
            let mt = child_path(installers_table, "msi");
            ensure_table(edits, &mt);
            apply_installers_common(edits, &mt, &m.common.install_path, &m.common);
            // There are no settings of the MSI installer besides the shared ones.
            table_comment(edits, &mt, "\n# Configuration for the MSI installer\n");
            assert(edits_view(edits@) =~= start + msi_spec(texts_view(installers_table@), *msi));
        },
        None => {
            assert(edits_view(edits@) =~= start + Seq::<TomlEditView>::empty());
        },
    }
}

/// Write the npm installer below `installers_table`
fn apply_installers_npm(edits: &mut Vec<TomlEdit>, installers_table: &Vec<String>, npm: &Option<BoolOr<NpmInstallerLayer>>)
    ensures
        edits_view(final(edits)@) == edits_view(old(edits)@) + npm_spec(
            texts_view(installers_table@),
            *npm,
        ),
{
    let ghost start = edits_view(edits@);
    match npm {
        Some(BoolOr::Bool(b)) => {
            apply_flag(edits, installers_table, "npm", "# Whether to build an NPM installer\n", *b);
        },
        Some(BoolOr::Val(n)) => {
            let nt = child_path(installers_table, "npm");
            ensure_table(edits, &nt);
            apply_installers_common(edits, &nt, &n.common.install_path, &n.common);
            apply_optional_text(edits, &nt, "package", "# The name of the npm package\n", &n.package);
            apply_optional_text(
                edits,
                &nt,
                "scope",
                "# The namespace to use when publishing this package to the npm registry\n",
                &n.scope,
            );
            table_comment(edits, &nt, "\n# Configuration for the NPM installer\n");
            assert(edits_view(edits@) =~= start + npm_spec(texts_view(installers_table@), *npm));
        },
        None => {
            assert(edits_view(edits@) =~= start + Seq::<TomlEditView>::empty());
        },
    }
}

/// Write the PowerShell installer below `installers_table`
fn apply_installers_powershell(
    edits: &mut Vec<TomlEdit>,
    installers_table: &Vec<String>,
    powershell: &Option<BoolOr<PowershellInstallerLayer>>,
)
    ensures
        edits_view(final(edits)@) == edits_view(old(edits)@) + powershell_spec(
            texts_view(installers_table@),
            *powershell,
        ),
{
    let ghost start = edits_view(edits@);
    match powershell {
        Some(BoolOr::Bool(b)) => {
            apply_flag(edits, installers_table, "powershell", "# Whether to build a PowerShell installer\n", *b);
        },
        Some(BoolOr::Val(p)) => {
            let pt = child_path(installers_table, "powershell");
            ensure_table(edits, &pt);
            apply_installers_common(edits, &pt, &p.common.install_path, &p.common);
            // Finalize the table
            table_comment(edits, installers_table, "\n# Configuration for the Windows PowerShell installer\n");
            assert(edits_view(edits@) =~= start + powershell_spec(texts_view(installers_table@), *powershell));
        },
        None => {
            assert(edits_view(edits@) =~= start + Seq::<TomlEditView>::empty());
        },
    }
}

/// Write the shell installer below `installers_table`
fn apply_installers_shell(edits: &mut Vec<TomlEdit>, installers_table: &Vec<String>, shell: &Option<BoolOr<ShellInstallerLayer>>)
    ensures
        edits_view(final(edits)@) == edits_view(old(edits)@) + shell_spec(
            texts_view(installers_table@),
            *shell,
        ),
{
    let ghost start = edits_view(edits@);
    match shell {
        Some(BoolOr::Bool(b)) => {
            apply_flag(edits, installers_table, "shell", "# Whether to build a Shell installer\n", *b);
        },
        Some(BoolOr::Val(s)) => {
            let st = child_path(installers_table, "shell");
            ensure_table(edits, &st);
            apply_installers_common(edits, &st, &s.common.install_path, &s.common);
            // Finalize the table
            table_comment(edits, installers_table, "\n# Configuration for the *nix shell installer\n");
            assert(edits_view(edits@) =~= start + shell_spec(texts_view(installers_table@), *shell));
        },
        None => {
            assert(edits_view(edits@) =~= start + Seq::<TomlEditView>::empty());
        },
    }
}

/// Write the Mac .pkg installer below `installers_table`
fn apply_installers_pkg(edits: &mut Vec<TomlEdit>, installers_table: &Vec<String>, pkg: &Option<BoolOr<PkgInstallerLayer>>)
    ensures
        edits_view(final(edits)@) == edits_view(old(edits)@) + pkg_spec(
            texts_view(installers_table@),
            *pkg,
        ),
{
    let ghost start = edits_view(edits@);
    match pkg {
        Some(BoolOr::Bool(b)) => {
            apply_flag(edits, installers_table, "pkg", "# Whether to build a Mac .pkg installer\n", *b);
        },
        Some(BoolOr::Val(p)) => {
            let pt = child_path(installers_table, "pkg");
            ensure_table(edits, &pt);
            apply_installers_common(edits, &pt, &p.common.install_path, &p.common);
            apply_optional_text(
                edits,
                &pt,
                "identifier",
                "# A unique identifier, in tld.domain.package format\n",
                &p.identifier,
            );
            apply_optional_text(
                edits,
                &pt,
                "install-location",
                "# The location to which software should be installed (defaults to /usr/local)\n",
                &p.install_location,
            );
            // Finalize the table
            table_comment(edits, &pt, "\n# Configuration for the Mac .pkg installer\n");
            assert(edits_view(edits@) =~= start + pkg_spec(texts_view(installers_table@), *pkg));
        },
        None => {
            assert(edits_view(edits@) =~= start + Seq::<TomlEditView>::empty());
        },
    }
}

} // verus!

//! Writing the `[dist.builds]` table

use vstd::prelude::*;

use super::helpers::{
    apply_optional_bool, apply_optional_min_glibc_version, apply_optional_text,
    apply_optional_value, apply_string_list, bool_val, child_path, ensure_table,
    min_glibc_version_spec, optional_value_spec, string_list_spec, table_comment, text_val,
    texts_view,
};
use super::{edits_view, TomlEdit, TomlEditView, TomlValue, TomlValueView};
use crate::config::v1::builds::cargo::CargoBuildLayer;
use crate::config::v1::builds::BuildLayer;
use crate::config::v1::layer::BoolOr;
use crate::strings::clone_strings;

verus! {

/// The edits that write the cargo build settings below `builds`
pub open spec fn cargo_builds_spec(builds: Seq<Seq<char>>, cargo: Option<BoolOr<CargoBuildLayer>>) -> Seq<TomlEditView> {
    match cargo {
        // If it was set as a boolean, simply set it as a boolean.
        Some(BoolOr::Bool(b)) => optional_value_spec(
            builds,
            "cargo"@,
            "# Whether dist should build cargo projects\n# (Use the table format of [dist.builds.cargo] for more nuanced config!)\n"@,
            Some(TomlValueView::Bool(b)),
        ),
        Some(BoolOr::Val(c)) => {
            let ct = builds.push("cargo"@);
            seq![TomlEditView::EnsureTable(ct)] + optional_value_spec(
                ct,
                "rust-toolchain-version"@,
                "# The preferred Rust toolchain to use in CI (rustup toolchain syntax)\n"@,
                text_val(c.rust_toolchain_version),
            ) + optional_value_spec(
                ct,
                "msvc-crt-static"@,
                "# Whether +crt-static should be used on msvc\n"@,
                bool_val(c.msvc_crt_static),
            ) + optional_value_spec(
                ct,
                "precise-builds"@,
                "# Build only the required packages, and individually\n"@,
                bool_val(c.precise_builds),
            ) + string_list_spec(
                ct,
                "features"@,
                "# Features to pass to cargo build\n"@,
                match c.features {
                    Some(f) => Some(texts_view(f@)),
                    None => None,
                },
            ) + optional_value_spec(
                ct,
                "default-features"@,
                "# Whether default-features should be enabled with cargo build\n"@,
                bool_val(c.default_features),
            ) + optional_value_spec(
                ct,
                "all-features"@,
                "# Whether to pass --all-features to cargo build\n"@,
                bool_val(c.all_features),
            ) + optional_value_spec(
                ct,
                "cargo-auditable"@,
                "# Whether to embed dependency information using cargo-auditable\n"@,
                bool_val(c.cargo_auditable),
            ) + optional_value_spec(
                ct,
                "cargo-cyclonedx"@,
                "# Whether to use cargo-cyclonedx to generate an SBOM\n"@,
                bool_val(c.cargo_cyclonedx),
            ) + seq![TomlEditView::TableComment(ct, "\n# How dist should build Cargo projects\n"@)]
        },
        None => Seq::empty(),
    }
}

/// The edits that write the build settings below `t` (the system
/// dependencies are left as they are)
pub open spec fn builds_spec(t: Seq<Seq<char>>, builds: Option<BuildLayer>) -> Seq<TomlEditView> {
    match builds {
        None => Seq::empty(),
        Some(b) => {
            let bt = t.push("builds"@);
            seq![TomlEditView::EnsureTable(bt)] + optional_value_spec(
                bt,
                "ssldotcom-windows-sign"@,
                "# Whether we should sign Windows binaries using ssl.com\n"@,
                match b.ssldotcom_windows_sign {
                    Some(p) => Some(TomlValueView::Text(p.display_spec())),
                    None => None,
                },
            ) + optional_value_spec(
                bt,
                "macos-sign"@,
                "# Whether to sign macOS executables\n"@,
                bool_val(b.macos_sign),
            ) + cargo_builds_spec(bt, b.cargo) + optional_value_spec(
                bt,
                "omnibor"@,
                "# Whether to use omnibor-cli to generate OmniBOR Artifact IDs\n"@,
                bool_val(b.omnibor),
            ) + min_glibc_version_spec(
                bt,
                "min-glibc-version"@,
                "\n# The minimum glibc version supported by the package (overrides auto-detection)\n"@,
                b.min_glibc_version,
            ) + seq![TomlEditView::TableComment(bt, "\n# Build configuration for dist\n"@)]
        },
    }
}

/// Write the build settings below `table`
pub fn apply(edits: &mut Vec<TomlEdit>, table: &Vec<String>, builds: &Option<BuildLayer>)
    ensures
        edits_view(final(edits)@) == edits_view(old(edits)@) + builds_spec(texts_view(table@), *builds),
{
    let ghost start = edits_view(edits@);
    let builds = match builds {
        Some(b) => b,
        None => {
            assert(edits_view(edits@) == start + Seq::<TomlEditView>::empty());
            return ;
        },
    };
    let builds_table = child_path(table, "builds");
    ensure_table(edits, &builds_table);
    apply_optional_value(
        edits,
        &builds_table,
        "ssldotcom-windows-sign",
        "# Whether we should sign Windows binaries using ssl.com\n",
        match builds.ssldotcom_windows_sign {
            Some(p) => Some(TomlValue::Text(p.to_string())),
            None => None,
        },
    );
    apply_optional_bool(
        edits,
        &builds_table,
        "macos-sign",
        "# Whether to sign macOS executables\n",
        builds.macos_sign,
    );
    apply_cargo_builds(edits, &builds_table, &builds.cargo);
    // the system dependencies are not reformatted yet
    apply_optional_bool(
        edits,
        &builds_table,
        "omnibor",
        "# Whether to use omnibor-cli to generate OmniBOR Artifact IDs\n",
        builds.omnibor,
    );
    apply_optional_min_glibc_version(
        edits,
        &builds_table,
        "min-glibc-version",
        "\n# The minimum glibc version supported by the package (overrides auto-detection)\n",
        &builds.min_glibc_version,
    );
    // Finalize the table
    table_comment(edits, &builds_table, "\n# Build configuration for dist\n");
    proof {
        assert(edits_view(edits@) =~= start + builds_spec(texts_view(table@), Some(*builds)));
    }
}

/// Write the cargo build settings below `builds_table`
fn apply_cargo_builds(
    edits: &mut Vec<TomlEdit>,
    builds_table: &Vec<String>,
    cargo: &Option<BoolOr<CargoBuildLayer>>,
)
    ensures
        edits_view(final(edits)@) == edits_view(old(edits)@) + cargo_builds_spec(
            texts_view(builds_table@),
            *cargo,
        ),
{
    let ghost start = edits_view(edits@);
    let cargo_builds = match cargo {
        Some(BoolOr::Bool(b)) => {
            // If it was set as a boolean, simply set it as a boolean and return.
            apply_optional_value(
                edits,
                builds_table,
                "cargo",
                "# Whether dist should build cargo projects\n# (Use the table format of [dist.builds.cargo] for more nuanced config!)\n",
                Some(TomlValue::Bool(*b)),
            );
            return ;
        },
        Some(BoolOr::Val(c)) => c,
        None => {
            assert(edits_view(edits@) == start + Seq::<TomlEditView>::empty());
            return ;
        },
    };
    let cargo_builds_table = child_path(builds_table, "cargo");
    ensure_table(edits, &cargo_builds_table);
    apply_optional_text(
        edits,
        &cargo_builds_table,
        "rust-toolchain-version",
        "# The preferred Rust toolchain to use in CI (rustup toolchain syntax)\n",
        &cargo_builds.rust_toolchain_version,
    );
    apply_optional_bool(
        edits,
        &cargo_builds_table,
        "msvc-crt-static",
        "# Whether +crt-static should be used on msvc\n",
        cargo_builds.msvc_crt_static,
    );
    apply_optional_bool(
        edits,
        &cargo_builds_table,
        "precise-builds",
        "# Build only the required packages, and individually\n",
        cargo_builds.precise_builds,
    );
    apply_string_list(
        edits,
        &cargo_builds_table,
        "features",
        "# Features to pass to cargo build\n",
        match &cargo_builds.features {
            Some(f) => Some(clone_strings(f)),
            None => None,
        },
    );
    let ghost mid = edits_view(edits@);
    assert(mid =~= start + seq![TomlEditView::EnsureTable(texts_view(cargo_builds_table@))] + optional_value_spec(
        texts_view(cargo_builds_table@),
        "rust-toolchain-version"@,
        "# The preferred Rust toolchain to use in CI (rustup toolchain syntax)\n"@,
        text_val(cargo_builds.rust_toolchain_version),
    ) + optional_value_spec(
        texts_view(cargo_builds_table@),
        "msvc-crt-static"@,
        "# Whether +crt-static should be used on msvc\n"@,
        bool_val(cargo_builds.msvc_crt_static),
    ) + optional_value_spec(
        texts_view(cargo_builds_table@),
        "precise-builds"@,
        "# Build only the required packages, and individually\n"@,
        bool_val(cargo_builds.precise_builds),
    ) + string_list_spec(
        texts_view(cargo_builds_table@),
        "features"@,
        "# Features to pass to cargo build\n"@,
        match cargo_builds.features {
            Some(f) => Some(texts_view(f@)),
            None => None,
        },
    ));
    apply_optional_bool(
        edits,
        &cargo_builds_table,
        "default-features",
        "# Whether default-features should be enabled with cargo build\n",
        cargo_builds.default_features,
    );
    apply_optional_bool(
        edits,
        &cargo_builds_table,
        "all-features",
        "# Whether to pass --all-features to cargo build\n",
        cargo_builds.all_features,
    );
    apply_optional_bool(
        edits,
        &cargo_builds_table,
        "cargo-auditable",
        "# Whether to embed dependency information using cargo-auditable\n",
        cargo_builds.cargo_auditable,
    );
    apply_optional_bool(
        edits,
        &cargo_builds_table,
        "cargo-cyclonedx",
        "# Whether to use cargo-cyclonedx to generate an SBOM\n",
        cargo_builds.cargo_cyclonedx,
    );
    // Finalize the table
    table_comment(edits, &cargo_builds_table, "\n# How dist should build Cargo projects\n");
    proof {
        assert(edits_view(edits@) =~= start + cargo_builds_spec(
            texts_view(builds_table@),
            Some(BoolOr::Val(*cargo_builds)),
        ));
    }
}

} // verus!

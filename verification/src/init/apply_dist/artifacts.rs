//! Writing the `[dist.artifacts]` table

use vstd::prelude::*;

use super::helpers::{
    apply_optional_bool, apply_optional_value, apply_string_list, apply_string_or_list, bool_val,
    child_path, ensure_table, optional_value_spec, string_list_spec, string_or_list_spec,
    table_comment, texts_view,
};
use super::{edits_view, TomlEdit, TomlEditView, TomlValue, TomlValueView};
use crate::config::v1::artifacts::archives::ArchiveLayer;
use crate::config::v1::artifacts::ArtifactLayer;
use crate::config::LibraryStyle;
use crate::strings::{clone_strings, owned};

verus! {

/// The names of library kinds
pub open spec fn libraries_texts(v: Seq<LibraryStyle>) -> Seq<Seq<char>> {
    v.map_values(|l: LibraryStyle| l.display_spec())
}

/// The names of library kinds
pub fn libraries_to_texts(v: &Vec<LibraryStyle>) -> (r: Vec<String>)
    ensures
        texts_view(r@) == libraries_texts(v@),
{
    let mut out: Vec<String> = Vec::new();
    let mut i: usize = 0;
    while i < v.len()
        invariant
            i <= v@.len(),
            texts_view(out@) == libraries_texts(v@.take(i as int)),
        decreases v.len() - i,
    {
        let ghost prev = out@;
        let t = v[i].to_string();
        out.push(t);
        proof {
            assert(v@.take(i + 1) == v@.take(i as int).push(v@[i as int]));
            assert(texts_view(out@) =~= texts_view(prev).push(t@));
            assert(libraries_texts(v@.take(i + 1)) =~= libraries_texts(v@.take(i as int)).push(
                v@[i as int].display_spec(),
            ));
        }
        i = i + 1;
    }
    assert(v@.take(v@.len() as int) == v@);
    out
}

/// The edits that write the archive settings below `t`
pub open spec fn archives_spec(t: Seq<Seq<char>>, archives: Option<ArchiveLayer>) -> Seq<TomlEditView> {
    match archives {
        None => Seq::empty(),
        Some(a) => {
            let at = t.push("archives"@);
            seq![TomlEditView::EnsureTable(at)] + string_list_spec(
                at,
                "include"@,
                "# Extra static files to include in each App (path relative to this Cargo.toml's dir)\n"@,
                match a.included_files {
                    Some(v) => Some(texts_view(v@)),
                    None => None,
                },
            ) + optional_value_spec(
                at,
                "auto-includes"@,
                "# Whether to auto-include files like READMEs, LICENSEs, and CHANGELOGs (default true)\n"@,
                bool_val(a.auto_includes),
            ) + optional_value_spec(
                at,
                "windows-archive"@,
                "# The archive format to use for windows builds (defaults .zip)\n"@,
                match a.windows_archive {
                    Some(z) => Some(TomlValueView::Text(z.ext_spec())),
                    None => None,
                },
            ) + optional_value_spec(
                at,
                "unix-archive"@,
                "# The archive format to use for non-windows builds (defaults .tar.xz)\n"@,
                match a.unix_archive {
                    Some(z) => Some(TomlValueView::Text(z.ext_spec())),
                    None => None,
                },
            ) + string_or_list_spec(
                at,
                "package-libraries"@,
                "# Which kinds of built libraries to include in the final archives\n"@,
                match a.package_libraries {
                    Some(v) => Some(libraries_texts(v@)),
                    None => None,
                },
            )
        },
    }
}

/// The edits that write the artifact settings below `t`
pub open spec fn artifacts_spec(t: Seq<Seq<char>>, artifacts: Option<ArtifactLayer>) -> Seq<TomlEditView> {
    match artifacts {
        None => Seq::empty(),
        Some(a) => {
            let at = t.push("artifacts"@);
            seq![TomlEditView::EnsureTable(at)] + archives_spec(at, a.archives) + optional_value_spec(
                at,
                "source-tarball"@,
                "# Generate a source tarball\n"@,
                bool_val(a.source_tarball),
            ) + optional_value_spec(
                at,
                "checksum"@,
                "# The checksum format to generate\n"@,
                match a.checksum {
                    Some(c) => Some(TomlValueView::Text(c.ext_spec())),
                    None => None,
                },
            ) + seq![TomlEditView::TableComment(at, "\n# Artifact configuration for dist\n"@)]
        },
    }
}

/// Write the artifact settings below `table`
pub fn apply(edits: &mut Vec<TomlEdit>, table: &Vec<String>, artifacts: &Option<ArtifactLayer>)
    ensures
        edits_view(final(edits)@) == edits_view(old(edits)@) + artifacts_spec(
            texts_view(table@),
            *artifacts,
        ),
{
    let ghost start = edits_view(edits@);
    let artifacts = match artifacts {
        Some(a) => a,
        None => {
            assert(edits_view(edits@) == start + Seq::<TomlEditView>::empty());
            return ;
        },
    };
    let ghost t = texts_view(table@);
    let artifacts_table = child_path(table, "artifacts");
    let ghost at = texts_view(artifacts_table@);
    ensure_table(edits, &artifacts_table);
    let ghost e1 = edits_view(edits@);

    apply_artifacts_archives(edits, &artifacts_table, &artifacts.archives);
    let ghost e2 = edits_view(edits@);

    apply_optional_bool(
        edits,
        &artifacts_table,
        "source-tarball",
        "# Generate a source tarball\n",
        artifacts.source_tarball,
    );
    let ghost e3 = edits_view(edits@);

    // [dist.artifacts.extra] is not reformatted due to complexity.
    apply_optional_value(
        edits,
        &artifacts_table,
        "checksum",
        "# The checksum format to generate\n",
        match artifacts.checksum {
            Some(cs) => Some(TomlValue::Text(cs.to_string())),
            None => None,
        },
    );
    let ghost e4 = edits_view(edits@);

    // Finalize the table
    table_comment(edits, &artifacts_table, "\n# Artifact configuration for dist\n");
    proof {
        assert(edits_view(edits@) =~= start + artifacts_spec(t, Some(*artifacts)));
    }
}

/// Write the archive settings below `artifacts_table`
fn apply_artifacts_archives(
    edits: &mut Vec<TomlEdit>,
    artifacts_table: &Vec<String>,
    archives: &Option<ArchiveLayer>,
)
    ensures
        edits_view(final(edits)@) == edits_view(old(edits)@) + archives_spec(
            texts_view(artifacts_table@),
            *archives,
        ),
{
    let ghost start = edits_view(edits@);
    let archives = match archives {
        Some(a) => a,
        None => {
            assert(edits_view(edits@) == start + Seq::<TomlEditView>::empty());
            return ;
        },
    };
    let archives_table = child_path(artifacts_table, "archives");
    ensure_table(edits, &archives_table);
    apply_string_list(
        edits,
        &archives_table,
        "include",
        "# Extra static files to include in each App (path relative to this Cargo.toml's dir)\n",
        match &archives.included_files {
            Some(v) => Some(clone_strings(v)),
            None => None,
        },
    );
    apply_optional_bool(
        edits,
        &archives_table,
        "auto-includes",
        "# Whether to auto-include files like READMEs, LICENSEs, and CHANGELOGs (default true)\n",
        archives.auto_includes,
    );
    apply_optional_value(
        edits,
        &archives_table,
        "windows-archive",
        "# The archive format to use for windows builds (defaults .zip)\n",
        match archives.windows_archive {
            Some(a) => Some(TomlValue::Text(owned(a.ext()))),
            None => None,
        },
    );
    apply_optional_value(
        edits,
        &archives_table,
        "unix-archive",
        "# The archive format to use for non-windows builds (defaults .tar.xz)\n",
        match archives.unix_archive {
            Some(a) => Some(TomlValue::Text(owned(a.ext()))),
            None => None,
        },
    );
    apply_string_or_list(
        edits,
        &archives_table,
        "package-libraries",
        "# Which kinds of built libraries to include in the final archives\n",
        match &archives.package_libraries {
            Some(v) => Some(libraries_to_texts(v)),
            None => None,
        },
    );
    proof {
        assert(edits_view(edits@) =~= start + archives_spec(
            texts_view(artifacts_table@),
            Some(*archives),
        ));
    }
}

} // verus!

//! Writing the `[dist.publishers]` table

use vstd::prelude::*;

use super::helpers::{
    apply_optional_bool, apply_optional_value, bool_val, child_path, ensure_table,
    optional_value_spec, table_comment, texts_view,
};
use super::{edits_view, TomlEdit, TomlEditView, TomlValue, TomlValueView};
use crate::config::v1::layer::BoolOr;
use crate::config::v1::publishers::{CommonPublisherLayer, PublisherLayer};

verus! {

/// The edits that write the settings shared by all publishers into table `t`
pub open spec fn publisher_common_spec(t: Seq<Seq<char>>, common: CommonPublisherLayer) -> Seq<TomlEditView> {
    optional_value_spec(
        t,
        "prereleases"@,
        "# Whether to publish prereleases (defaults to false)\n"@,
        bool_val(common.prereleases),
    )
}

/// The edits that write one publisher's settings below `publishers`: a
/// boolean as it is, settings as a table (the comment they leave is put
/// on the table of all publishers)
pub open spec fn publisher_spec(
    publishers: Seq<Seq<char>>,
    name: Seq<char>,
    flag_comment: Seq<char>,
    table_note: Seq<char>,
    publisher: Option<BoolOr<CommonPublisherLayer>>,
) -> Seq<TomlEditView> {
    match publisher {
        Some(BoolOr::Bool(b)) => optional_value_spec(
            publishers,
            name,
            flag_comment,
            Some(TomlValueView::Bool(b)),
        ),
        Some(BoolOr::Val(common)) => {
            let pt = publishers.push(name);
            seq![TomlEditView::EnsureTable(pt)] + publisher_common_spec(pt, common) + seq![
                TomlEditView::TableComment(publishers, table_note),
            ]
        },
        None => Seq::empty(),
    }
}

/// The shared settings of a publisher's settings, if any
pub open spec fn common_of<T>(p: Option<BoolOr<T>>, common: spec_fn(T) -> CommonPublisherLayer) -> Option<BoolOr<CommonPublisherLayer>> {
    match p {
        Some(BoolOr::Bool(b)) => Some(BoolOr::Bool(b)),
        Some(BoolOr::Val(v)) => Some(BoolOr::Val(common(v))),
        None => None,
    }
}

/// The edits that write the publisher settings below `t`
pub open spec fn publishers_spec(t: Seq<Seq<char>>, publishers: Option<PublisherLayer>) -> Seq<TomlEditView> {
    match publishers {
        None => Seq::empty(),
        Some(p) => {
            let pt = t.push("publishers"@);
            seq![TomlEditView::EnsureTable(pt)] + publisher_common_spec(pt, p.common)
                + publisher_spec(
                pt,
                "homebrew"@,
                "# Whether to publish to Homebrew\n"@,
                "\n# Configuration for publishing to Homebrew\n"@,
                common_of(p.homebrew, |h: crate::config::v1::publishers::homebrew::HomebrewPublisherLayer| h.common),
            ) + publisher_spec(
                pt,
                "npm"@,
                "# Whether to publish to NPM\n"@,
                "\n# Configuration for publishing to NPM\n"@,
                common_of(p.npm, |n: crate::config::v1::publishers::npm::NpmPublisherLayer| n.common),
            ) + seq![TomlEditView::TableComment(pt, "\n# Publisher configuration for dist\n"@)]
        },
    }
}

/// Write the publisher settings below `table`
pub fn apply(edits: &mut Vec<TomlEdit>, table: &Vec<String>, publishers: &Option<PublisherLayer>)
    ensures
        edits_view(final(edits)@) == edits_view(old(edits)@) + publishers_spec(
            texts_view(table@),
            *publishers,
        ),
{
    let ghost start = edits_view(edits@);
    let publishers = match publishers {
        Some(p) => p,
        None => {
            assert(edits_view(edits@) == start + Seq::<TomlEditView>::empty());
            return ;
        },
    };
    let publishers_table = child_path(table, "publishers");
    ensure_table(edits, &publishers_table);
    apply_common(edits, &publishers_table, &publishers.common);
    let homebrew = match &publishers.homebrew {
        Some(BoolOr::Bool(b)) => Some(BoolOr::Bool(*b)),
        Some(BoolOr::Val(h)) => Some(BoolOr::Val(h.common)),
        None => None,
    };
    apply_publisher(
        edits,
        &publishers_table,
        "homebrew",
        "# Whether to publish to Homebrew\n",
        "\n# Configuration for publishing to Homebrew\n",
        homebrew,
    );
    let npm = match &publishers.npm {
        Some(BoolOr::Bool(b)) => Some(BoolOr::Bool(*b)),
        Some(BoolOr::Val(n)) => Some(BoolOr::Val(n.common)),
        None => None,
    };
    apply_publisher(
        edits,
        &publishers_table,
        "npm",
        "# Whether to publish to NPM\n",
        "\n# Configuration for publishing to NPM\n",
        npm,
    );
    // Finalize the table
    table_comment(edits, &publishers_table, "\n# Publisher configuration for dist\n");
    proof {
        assert(edits_view(edits@) =~= start + publishers_spec(texts_view(table@), Some(*publishers)));
    }
}

/// Write the settings shared by all publishers into `table`
fn apply_common(edits: &mut Vec<TomlEdit>, table: &Vec<String>, common: &CommonPublisherLayer)
    ensures
        edits_view(final(edits)@) == edits_view(old(edits)@) + publisher_common_spec(
            texts_view(table@),
            *common,
        ),
{
    apply_optional_bool(
        edits,
        table,
        "prereleases",
        "# Whether to publish prereleases (defaults to false)\n",
        common.prereleases,
    );
}

/// Write one publisher's settings below `publishers_table`
fn apply_publisher(
    edits: &mut Vec<TomlEdit>,
    publishers_table: &Vec<String>,
    name: &str,
    flag_comment: &str,
    table_note: &str,
    publisher: Option<BoolOr<CommonPublisherLayer>>,
)
    ensures
        edits_view(final(edits)@) == edits_view(old(edits)@) + publisher_spec(
            texts_view(publishers_table@),
            name@,
            flag_comment@,
            table_note@,
            publisher,
        ),
{
    let ghost start = edits_view(edits@);
    match publisher {
        Some(BoolOr::Bool(b)) => {
            // If it was set as a boolean, simply set it as a boolean and return.
            apply_optional_value(edits, publishers_table, name, flag_comment, Some(TomlValue::Bool(b)));
        },
        Some(BoolOr::Val(common)) => {
            let table = child_path(publishers_table, name);
            ensure_table(edits, &table);
            apply_common(edits, &table, &common);
            // Finalize the table
            table_comment(edits, publishers_table, table_note);
            assert(edits_view(edits@) =~= start + publisher_spec(
                texts_view(publishers_table@),
                name@,
                flag_comment@,
                table_note@,
                publisher,
            ));
        },
        None => {
            assert(edits_view(edits@) == start + Seq::<TomlEditView>::empty());
        },
    }
}

} // verus!

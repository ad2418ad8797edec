//! The edits that write one setting, and the tables that hold them


use vstd::prelude::*;

use super::{edits_view, TomlEdit, TomlEditView, TomlValue, TomlValueView};
use crate::platform::MinGlibcVersion;
use crate::strings::{clone_string, clone_strings, owned};

verus! {

/// A list of strings as text
pub open spec fn texts_view(v: Seq<String>) -> Seq<Seq<char>> {
    v.map_values(|s: String| s@)
}

/// A flag, as a value to write
pub open spec fn bool_val(o: Option<bool>) -> Option<TomlValueView> {
    match o {
        Some(b) => Some(TomlValueView::Bool(b)),
        None => None,
    }
}

/// A string, as a value to write
pub open spec fn text_val(o: Option<String>) -> Option<TomlValueView> {
    match o {
        Some(s) => Some(TomlValueView::Text(s@)),
        None => None,
    }
}

/// A flag, as a value to write
pub fn bool_value(o: Option<bool>) -> (r: Option<TomlValue>)
    ensures
        match r {
            Some(v) => bool_val(o) == Some(v@),
            None => o is None,
        },
{
    match o {
        Some(b) => Some(TomlValue::Bool(b)),
        None => None,
    }
}

/// A string, as a value to write
pub fn text_value(o: &Option<String>) -> (r: Option<TomlValue>)
    ensures
        match r {
            Some(v) => text_val(*o) == Some(v@),
            None => o is None,
        },
{
    match o {
        Some(s) => Some(TomlValue::Text(clone_string(s))),
        None => None,
    }
}

/// The edit for an optional setting: written with its comment when given,
/// removed when not
pub open spec fn optional_value_spec(
    table: Seq<Seq<char>>,
    key: Seq<char>,
    desc: Seq<char>,
    val: Option<TomlValueView>,
) -> Seq<TomlEditView> {
    match val {
        Some(v) => seq![TomlEditView::Write(table, key, v, desc)],
        None => seq![TomlEditView::Remove(table, key)],
    }
}

/// The edit for an optional list setting: written as an array with its
/// comment when given, removed when not
pub open spec fn string_list_spec(
    table: Seq<Seq<char>>,
    key: Seq<char>,
    desc: Seq<char>,
    list: Option<Seq<Seq<char>>>,
) -> Seq<TomlEditView> {
    match list {
        Some(items) => seq![TomlEditView::Write(table, key, TomlValueView::Texts(items), desc)],
        None => seq![TomlEditView::Remove(table, key)],
    }
}

/// The edit for an optional list setting that may be written as a single
/// string when it holds exactly one item
pub open spec fn string_or_list_spec(
    table: Seq<Seq<char>>,
    key: Seq<char>,
    desc: Seq<char>,
    list: Option<Seq<Seq<char>>>,
) -> Seq<TomlEditView> {
    match list {
        Some(items) => if items.len() == 1 {
            seq![TomlEditView::Write(table, key, TomlValueView::Text(items[0]), desc)]
        } else {
            seq![TomlEditView::Write(table, key, TomlValueView::Texts(items), desc)]
        },
        None => seq![TomlEditView::Remove(table, key)],
    }
}

/// Push one edit
pub fn push_edit(edits: &mut Vec<TomlEdit>, edit: TomlEdit)
    ensures
        edits_view(final(edits)@) == edits_view(old(edits)@) + seq![edit@],
{
    let ghost before = edits@;
    edits.push(edit);
    assert(edits_view(edits@) =~= edits_view(before) + seq![edit@]);
}

/// A copy of a table path
pub fn path_of(table: &Vec<String>) -> (r: Vec<String>)
    ensures
        texts_view(r@) == texts_view(table@),
{
    let r = clone_strings(table);
    r
}

/// The path of the table `key` below `table`
pub fn child_path(table: &Vec<String>, key: &str) -> (r: Vec<String>)
    ensures
        texts_view(r@) == texts_view(table@).push(key@),
{
    let mut r = clone_strings(table);
    let ghost before = r@;
    r.push(owned(key));
    assert(texts_view(r@) =~= texts_view(before).push(key@));
    r
}

/// Make sure there is a table at `table`
pub fn ensure_table(edits: &mut Vec<TomlEdit>, table: &Vec<String>)
    ensures
        edits_view(final(edits)@) == edits_view(old(edits)@) + seq![
            TomlEditView::EnsureTable(texts_view(table@)),
        ],
{
    push_edit(edits, TomlEdit::EnsureTable { table: path_of(table) });
}

/// Set the comment above `table`
pub fn table_comment(edits: &mut Vec<TomlEdit>, table: &Vec<String>, comment: &str)
    ensures
        edits_view(final(edits)@) == edits_view(old(edits)@) + seq![
            TomlEditView::TableComment(texts_view(table@), comment@),
        ],
{
    push_edit(edits, TomlEdit::TableComment { table: path_of(table), comment: owned(comment) });
}

/// Update the table to add/remove this value
///
/// If the value is Some we will set the value and hang a description comment off of it.
/// If the given key already existed in the table, this will update it in place and overwrite
/// whatever comment was above it. If the given key is new, it will appear at the end of the
/// table.
///
/// If the value is None, we delete it (and any comment above it).
pub fn apply_optional_value(
    edits: &mut Vec<TomlEdit>,
    table: &Vec<String>,
    key: &str,
    desc: &str,
    val: Option<TomlValue>,
)
    ensures
        edits_view(final(edits)@) == edits_view(old(edits)@) + optional_value_spec(
            texts_view(table@),
            key@,
            desc@,
            match val {
                Some(v) => Some(v@),
                None => None,
            },
        ),
{
    match val {
        Some(v) => push_edit(
            edits,
            TomlEdit::Write { table: path_of(table), key: owned(key), value: v, comment: owned(desc) },
        ),
        None => push_edit(edits, TomlEdit::Remove { table: path_of(table), key: owned(key) }),
    }
}

/// [`apply_optional_value`][] for a flag
pub fn apply_optional_bool(
    edits: &mut Vec<TomlEdit>,
    table: &Vec<String>,
    key: &str,
    desc: &str,
    val: Option<bool>,
)
    ensures
        edits_view(final(edits)@) == edits_view(old(edits)@) + optional_value_spec(
            texts_view(table@),
            key@,
            desc@,
            bool_val(val),
        ),
{
    apply_optional_value(edits, table, key, desc, bool_value(val));
}

/// [`apply_optional_value`][] for a string
pub fn apply_optional_text(
    edits: &mut Vec<TomlEdit>,
    table: &Vec<String>,
    key: &str,
    desc: &str,
    val: &Option<String>,
)
    ensures
        edits_view(final(edits)@) == edits_view(old(edits)@) + optional_value_spec(
            texts_view(table@),
            key@,
            desc@,
            text_val(*val),
        ),
{
    apply_optional_value(edits, table, key, desc, text_value(val));
}

/// Same as [`apply_optional_value`][] but with a list of items
pub fn apply_string_list(
    edits: &mut Vec<TomlEdit>,
    table: &Vec<String>,
    key: &str,
    desc: &str,
    list: Option<Vec<String>>,
)
    ensures
        edits_view(final(edits)@) == edits_view(old(edits)@) + string_list_spec(
            texts_view(table@),
            key@,
            desc@,
            match list {
                Some(v) => Some(texts_view(v@)),
                None => None,
            },
        ),
{
    match list {
        Some(items) => push_edit(
            edits,
            TomlEdit::Write {
                table: path_of(table),
                key: owned(key),
                value: TomlValue::Texts(items),
                comment: owned(desc),
            },
        ),
        None => push_edit(edits, TomlEdit::Remove { table: path_of(table), key: owned(key) }),
    }
}

/// Same as [`apply_string_list`][] but when the list can be shorthanded as a string
pub fn apply_string_or_list(
    edits: &mut Vec<TomlEdit>,
    table: &Vec<String>,
    key: &str,
    desc: &str,
    list: Option<Vec<String>>,
)
    ensures
        edits_view(final(edits)@) == edits_view(old(edits)@) + string_or_list_spec(
            texts_view(table@),
            key@,
            desc@,
            match list {
                Some(v) => Some(texts_view(v@)),
                None => None,
            },
        ),
{
    match list {
        Some(items) => {
            if items.len() == 1 {
                let item = clone_string(&items[0]);
                push_edit(
                    edits,
                    TomlEdit::Write {
                        table: path_of(table),
                        key: owned(key),
                        value: TomlValue::Text(item),
                        comment: owned(desc),
                    },
                );
            } else {
                apply_string_list(edits, table, key, desc, Some(items));
            }
        },
        None => push_edit(edits, TomlEdit::Remove { table: path_of(table), key: owned(key) }),
    }
}

/// The edit for the minimum glibc versions: written as a table with its
/// comment when given (unless something is there already), removed when not
pub open spec fn min_glibc_version_spec(
    table: Seq<Seq<char>>,
    key: Seq<char>,
    desc: Seq<char>,
    val: Option<MinGlibcVersion>,
) -> Seq<TomlEditView> {
    match val {
        Some(m) => seq![
            TomlEditView::SetVersionsIfAbsent(table, key, m@, desc),
        ],
        None => seq![TomlEditView::Remove(table, key)],
    }
}

/// Similar to [`apply_optional_value`][] but specialized to `MinGlibcVersion`
pub fn apply_optional_min_glibc_version(
    edits: &mut Vec<TomlEdit>,
    table: &Vec<String>,
    key: &str,
    desc: &str,
    val: &Option<MinGlibcVersion>,
)
    ensures
        edits_view(final(edits)@) == edits_view(old(edits)@) + min_glibc_version_spec(
            texts_view(table@),
            key@,
            desc@,
            *val,
        ),
{
    match val {
        Some(min_glibc_version) => {
            let versions = min_glibc_version.clone();
            push_edit(
                edits,
                TomlEdit::SetVersionsIfAbsent {
                    table: path_of(table),
                    key: owned(key),
                    versions,
                    comment: owned(desc),
                },
            );
        },
        None => push_edit(edits, TomlEdit::Remove { table: path_of(table), key: owned(key) }),
    }
}

} // verus!

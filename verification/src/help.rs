//! The CLI manual in markdown: each command's long help text, line by line,
//! turned into a section of the manual.

use vstd::prelude::*;

use crate::config::{lemma_split_first, lemma_split_first_none, split_first};
use crate::strings::{
    owned, str_eq, str_split_once, str_strip_prefix, str_strip_suffix, str_trim, string_concat,
    trimmed,
};

verus! {

/// Which part of a help text the lines being read belong to
#[derive(Debug, Clone, Copy, PartialEq, Eq, Structural)]
pub struct HelpState {
    /// The listing of subcommands
    pub in_subcommands_listing: bool,
    /// The global options
    pub in_global_options: bool,
    /// The command's own options
    pub in_normal_options: bool,
}

/// The state at the start of a help text: in no listing
pub open spec fn help_start() -> HelpState {
    HelpState { in_subcommands_listing: false, in_global_options: false, in_normal_options: false }
}

/// The list item for a line of the subcommand listing: the subcommand's
/// name linking to its section, then its description; a name alone (whose
/// description follows on the next line) ends without a line break. None
/// for a line that names nothing.
pub open spec fn subcommand_item(t: Seq<char>) -> Option<Seq<char>> {
    match split_first(t, ' ') {
        Some((first, rest)) => {
            let name = trimmed(first);
            if name.len() > 0 {
                Some(
                    "* ["@ + name + "](#cargo-dist-"@ + name + "): "@ + trimmed(rest) + "\n"@,
                )
            } else {
                None
            }
        },
        None => if t.len() > 0 {
            Some("* ["@ + t + "](#cargo-dist-"@ + t + "): "@)
        } else {
            None
        },
    }
}

/// An ordinary line (without its indentation): argument names become
/// subheadings, default and possible values are escaped, the rest is text
pub open spec fn plain_line_markdown(l: Seq<char>) -> Seq<char> {
    if !"- "@.is_prefix_of(l) && ("-"@.is_prefix_of(l) || "<"@.is_prefix_of(l)) {
        "#### `"@ + l + "`\n"@
    } else if l == "[SYMBOLS_PATH_LEGACY]..."@ {
        "#### `"@ + l + "`\n"@
    } else if "["@.is_prefix_of(l) {
        "\\"@ + l + "  \n"@
    } else {
        l + "\n"@
    }
}

/// One line of a help text: the state after it and the markdown it gives.
/// The usage line becomes a code block; an unindented line ending in `:` is
/// a heading that starts a listing; the command's own options are left out
/// of the top command's section and the global options out of the others;
/// the subcommand listing becomes a list of links.
pub open spec fn line_markdown(st: HelpState, line: Seq<char>, is_full_command: bool) -> (
    HelpState,
    Seq<char>,
) {
    if "Usage: "@.is_prefix_of(line) {
        (st, "### Usage\n\n```text\n"@ + line.skip("Usage: "@.len() as int) + "\n```\n"@)
    } else if ":"@.is_suffix_of(line) && !" "@.is_prefix_of(line) {
        let heading = line.take(line.len() - ":"@.len());
        let next = HelpState {
            in_subcommands_listing: heading == "Commands"@,
            in_global_options: heading == "GLOBAL OPTIONS"@,
            in_normal_options: heading == "Options"@,
        };
        (
            next,
            "### "@ + heading + "\n"@ + if next.in_global_options && !is_full_command {
                "This subcommand accepts all the [global options](#global-options)\n"@
            } else {
                Seq::empty()
            },
        )
    } else if st.in_normal_options && is_full_command {
        (st, Seq::empty())
    } else if st.in_global_options && !is_full_command {
        (st, Seq::empty())
    } else if st.in_subcommands_listing && !"     "@.is_prefix_of(line) && subcommand_item(
        trimmed(line),
    ) is Some {
        (st, subcommand_item(trimmed(line))->0)
    } else {
        (st, plain_line_markdown(trimmed(line)))
    }
}

/// The markdown of the lines, read from state `st`
pub open spec fn lines_markdown(st: HelpState, lines: Seq<Seq<char>>, is_full_command: bool) -> Seq<
    char,
>
    decreases lines.len(),
{
    if lines.len() == 0 {
        Seq::empty()
    } else {
        let (next, out) = line_markdown(st, lines[0], is_full_command);
        out + lines_markdown(next, lines.skip(1), is_full_command)
    }
}

/// The section of the manual for one command: a heading for a subcommand
/// (none for the top command), its help text in markdown, a blank line
pub open spec fn help_section_spec(lines: Seq<Seq<char>>, name: Seq<char>, is_full_command: bool) -> Seq<
    char,
> {
    (if is_full_command {
        Seq::empty()
    } else {
        "<br><br><br>\n## dist "@ + name + "\n"@
    }) + lines_markdown(help_start(), lines, is_full_command) + "\n"@
}

/// The head of the manual
pub fn help_manual_header() -> (r: String)
    ensures
        r@ == "# dist CLI manual\n\n> This manual can be regenerated with `dist help-markdown`\n\n"@,
{
    owned("# dist CLI manual\n\n> This manual can be regenerated with `dist help-markdown`\n\n")
}

fn wrapped(before: &str, middle: &str, after: &str) -> (r: String)
    ensures
        r@ == before@ + middle@ + after@,
{
    string_concat(string_concat(owned(before), middle), after)
}

fn subcommand_item_of(t: &str) -> (r: Option<String>)
    ensures
        match r {
            Some(s) => subcommand_item(t@) == Some(s@),
            None => subcommand_item(t@) is None,
        },
{
    match str_split_once(t, ' ') {
        Some((first, rest)) => {
            proof {
                lemma_split_first(t@, ' ', first@, rest@);
            }
            let name = str_trim(first);
            if !name.is_empty() {
                let mut out = wrapped("* [", name, "](#cargo-dist-");
                out = string_concat(out, name);
                out = string_concat(out, "): ");
                out = string_concat(out, str_trim(rest));
                out = string_concat(out, "\n");
                Some(out)
            } else {
                None
            }
        },
        None => {
            proof {
                lemma_split_first_none(t@, ' ');
            }
            if !t.is_empty() {
                let mut out = wrapped("* [", t, "](#cargo-dist-");
                out = string_concat(out, t);
                out = string_concat(out, "): ");
                Some(out)
            } else {
                None
            }
        },
    }
}

fn plain_line_of(l: &str) -> (r: String)
    ensures
        r@ == plain_line_markdown(l@),
{
    let bullet = str_strip_prefix(l, "- ").is_some();
    let dash = str_strip_prefix(l, "-").is_some();
    let angle = str_strip_prefix(l, "<").is_some();
    if !bullet && (dash || angle) {
        wrapped("#### `", l, "`\n")
    } else if str_eq(l, "[SYMBOLS_PATH_LEGACY]...") {
        wrapped("#### `", l, "`\n")
    } else if str_strip_prefix(l, "[").is_some() {
        wrapped("\\", l, "  \n")
    } else {
        string_concat(owned(l), "\n")
    }
}

/// One line of a help text: the state after it and the markdown it gives
pub fn help_line_markdown(st: HelpState, line: &str, is_full_command: bool) -> (r: (
    HelpState,
    String,
))
    ensures
        (r.0, r.1@) == line_markdown(st, line@, is_full_command),
{
    if let Some(usage) = str_strip_prefix(line, "Usage: ") {
        assert(usage@ =~= line@.skip("Usage: "@.len() as int));
        return (st, wrapped("### Usage\n\n```text\n", usage, "\n```\n"));
    }
    let heading = str_strip_suffix(line, ":");
    let indented = str_strip_prefix(line, " ").is_some();
    if heading.is_some() && !indented {
        let heading = heading.unwrap();
        assert(heading@ =~= line@.take(line@.len() - ":"@.len()));
        let next = HelpState {
            in_subcommands_listing: str_eq(heading, "Commands"),
            in_global_options: str_eq(heading, "GLOBAL OPTIONS"),
            in_normal_options: str_eq(heading, "Options"),
        };
        let mut out = wrapped("### ", heading, "\n");
        if next.in_global_options && !is_full_command {
            out =
            string_concat(out, "This subcommand accepts all the [global options](#global-options)\n");
        } else {
            assert(out@ + Seq::<char>::empty() =~= out@);
        }
        return (next, out);
    }
    if st.in_normal_options && is_full_command {
        return (st, String::new());
    }
    if st.in_global_options && !is_full_command {
        return (st, String::new());
    }
    let t = str_trim(line);
    if st.in_subcommands_listing && str_strip_prefix(line, "     ").is_none() {
        if let Some(item) = subcommand_item_of(t) {
            return (st, item);
        }
    }
    (st, plain_line_of(t))
}

/// The section of the manual for one command, from the lines of its long
/// help text: a heading for a subcommand (none for the top command), the
/// help text in markdown, a blank line
pub fn help_section(lines: &Vec<String>, name: &str, is_full_command: bool) -> (r: String)
    ensures
        r@ == help_section_spec(lines@.map_values(|l: String| l@), name@, is_full_command),
{
    let ghost views = lines@.map_values(|l: String| l@);
    let mut out = if is_full_command {
        String::new()
    } else {
        wrapped("<br><br><br>\n## dist ", name, "\n")
    };
    let ghost head = out@;
    let mut st = HelpState {
        in_subcommands_listing: false,
        in_global_options: false,
        in_normal_options: false,
    };
    let mut i: usize = 0;
    assert(views.skip(0) =~= views);
    while i < lines.len()
        invariant
            i <= lines@.len(),
            views == lines@.map_values(|l: String| l@),
            views.len() == lines@.len(),
            out@ + lines_markdown(st, views.skip(i as int), is_full_command) == head
                + lines_markdown(help_start(), views, is_full_command),
        decreases lines.len() - i,
    {
        let ghost rest = views.skip(i as int);
        assert(rest[0] == lines@[i as int]@);
        let (next, piece) = help_line_markdown(st, lines[i].as_str(), is_full_command);
        assert(rest.skip(1) =~= views.skip(i + 1));
        let ghost before = out@;
        out = string_concat(out, piece.as_str());
        assert(before + lines_markdown(st, rest, is_full_command) =~= out@ + lines_markdown(
            next,
            views.skip(i + 1),
            is_full_command,
        ));
        st = next;
        i = i + 1;
    }
    assert(views.skip(i as int) =~= Seq::<Seq<char>>::empty());
    assert(out@ =~= head + lines_markdown(help_start(), views, is_full_command));
    string_concat(out, "\n")
}

} // verus!

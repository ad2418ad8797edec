use cargo_dist::help::{help_line_markdown, help_manual_header, help_section, HelpState};

fn lines(text: &str) -> Vec<String> {
    text.lines().map(|l| l.to_string()).collect()
}

const TOP_HELP: &str = "Shippable application packaging

Usage: dist [OPTIONS] <COMMAND>

Commands:
  build     Build artifacts
  init      Setup or update dist
  help-long
          Print help for everything

Options:
  -h, --help
          Print help

GLOBAL OPTIONS:
  -v, --verbose <VERBOSE>
          How verbose logging should be

          [default: warn]
          [possible values: off, error]
";

#[test]
fn top_command_section() {
    let out = help_section(&lines(TOP_HELP), "dist", true);
    let expected = "Shippable application packaging
\n### Usage\n\n```text\ndist [OPTIONS] <COMMAND>\n```\n\
\n### Commands\n\
* [build](#cargo-dist-build): Build artifacts\n\
* [init](#cargo-dist-init): Setup or update dist\n\
* [help-long](#cargo-dist-help-long): Print help for everything\n\
\n### Options\n\
### GLOBAL OPTIONS\n\
#### `-v, --verbose <VERBOSE>`\n\
How verbose logging should be\n\
\n\
\\[default: warn]  \n\
\\[possible values: off, error]  \n\
\n";
    assert_eq!(out, expected);
}

#[test]
fn subcommand_section_skips_global_options() {
    let help = "Build artifacts

Usage: dist build [OPTIONS]

Options:
  -a, --artifacts <ARTIFACTS>
          Which artifacts to build

  [SYMBOLS_PATH_LEGACY]...
          Old paths

GLOBAL OPTIONS:
  -v, --verbose <VERBOSE>
          How verbose
";
    let out = help_section(&lines(help), "build", false);
    let expected = "<br><br><br>\n## dist build\n\
Build artifacts\n\
\n\
### Usage\n\n```text\ndist build [OPTIONS]\n```\n\
\n\
### Options\n\
#### `-a, --artifacts <ARTIFACTS>`\n\
Which artifacts to build\n\
\n\
#### `[SYMBOLS_PATH_LEGACY]...`\n\
Old paths\n\
\n\
### GLOBAL OPTIONS\n\
This subcommand accepts all the [global options](#global-options)\n\
\n";
    assert_eq!(out, expected);
}

#[test]
fn bullets_stay_text() {
    let st = HelpState {
        in_subcommands_listing: false,
        in_global_options: false,
        in_normal_options: false,
    };
    let (next, out) = help_line_markdown(st, "          - a bullet", false);
    assert_eq!(next, st);
    assert_eq!(out, "- a bullet\n");
    let (_, out) = help_line_markdown(st, "  <PATH>", false);
    assert_eq!(out, "#### `<PATH>`\n");
    let (heading, out) = help_line_markdown(st, "Commands:", false);
    assert!(heading.in_subcommands_listing && !heading.in_global_options);
    assert_eq!(out, "### Commands\n");
    // an indented line ending in a colon is no heading
    let (_, out) = help_line_markdown(st, "  example:", false);
    assert_eq!(out, "example:\n");
}

#[test]
fn manual_header() {
    assert_eq!(
        help_manual_header(),
        "# dist CLI manual\n\n> This manual can be regenerated with `dist help-markdown`\n\n"
    );
}

//! Writing the `[dist.hosts]` table

use vstd::prelude::*;

use super::helpers::{
    apply_optional_bool, apply_optional_text, apply_optional_value, bool_val, child_path,
    ensure_table, optional_value_spec, table_comment, text_val, texts_view,
};
use super::{edits_view, TomlEdit, TomlEditView, TomlValue, TomlValueView};
use crate::config::v1::hosts::github::GithubHostLayer;
use crate::config::v1::hosts::HostLayer;
use crate::config::v1::layer::BoolOr;
use crate::config::GithubRepoPair;

verus! {

/// The edits that write the github host settings below `hosts`
pub open spec fn github_spec(hosts: Seq<Seq<char>>, github: Option<BoolOr<GithubHostLayer>>) -> Seq<TomlEditView> {
    match github {
        // If it was set as a boolean, simply set it as a boolean.
        Some(BoolOr::Bool(b)) => optional_value_spec(
            hosts,
            "github"@,
            "# Configuration for GitHub hosting\n# (Use the table format of [dist.hosts.github] for more nuanced config!)\n"@,
            Some(TomlValueView::Bool(b)),
        ),
        Some(BoolOr::Val(g)) => {
            let gh = hosts.push("github"@);
            seq![TomlEditView::EnsureTable(gh)] + optional_value_spec(
                gh,
                "create"@,
                "# Whether dist should create the GitHub release (default: true)\n"@,
                bool_val(g.create),
            ) + optional_value_spec(
                gh,
                "repo"@,
                "# Publish GitHub Releases to this repo instead\n"@,
                match g.repo {
                    Some(r) => Some(
                        TomlValueView::Text(GithubRepoPair::display_spec(r.owner@, r.repo@)),
                    ),
                    None => None,
                },
            ) + optional_value_spec(
                gh,
                "during"@,
                "# Which phase dist should use to create the GitHub release\n"@,
                match g.during {
                    Some(d) => Some(TomlValueView::Text(d.display_spec())),
                    None => None,
                },
            ) + optional_value_spec(
                gh,
                "submodule-path"@,
                "# Read the commit to be tagged from the submodule at this path\n"@,
                text_val(g.submodule_path),
            ) + optional_value_spec(
                gh,
                "attestations"@,
                "# Whether to enable GitHub Attestations\n"@,
                bool_val(g.attestations),
            ) + seq![TomlEditView::TableComment(gh, "\n# Configuration for GitHub hosting\n"@)]
        },
        None => Seq::empty(),
    }
}

/// The edits that write the axo.dev host setting below `hosts`: any
/// setting at all enables it
pub open spec fn axodotdev_spec<T>(hosts: Seq<Seq<char>>, axodotdev: Option<BoolOr<T>>) -> Seq<TomlEditView> {
    match axodotdev {
        Some(BoolOr::Bool(b)) => optional_value_spec(
            hosts,
            "axodotdev"@,
            "# Whether to use axo.dev hosting\n"@,
            Some(TomlValueView::Bool(b)),
        ),
        Some(BoolOr::Val(_)) => optional_value_spec(
            hosts,
            "axodotdev"@,
            "# Whether to use axo.dev hosting\n"@,
            Some(TomlValueView::Bool(true)),
        ),
        None => Seq::empty(),
    }
}

/// The edits that write the host settings below `t`
pub open spec fn hosts_spec(t: Seq<Seq<char>>, hosts: Option<HostLayer>) -> Seq<TomlEditView> {
    match hosts {
        None => Seq::empty(),
        Some(h) => {
            let ht = t.push("hosts"@);
            seq![TomlEditView::EnsureTable(ht)] + optional_value_spec(
                ht,
                "force-latest"@,
                "# Always regard releases as stable (defaults to false)\n"@,
                bool_val(h.force_latest),
            ) + optional_value_spec(
                ht,
                "display"@,
                "# Whether artifacts/installers for this app should be displayed in release bodies\n"@,
                bool_val(h.display),
            ) + optional_value_spec(
                ht,
                "display-name"@,
                "# How to refer to the app in release bodies\n"@,
                text_val(h.display_name),
            ) + github_spec(ht, h.github) + axodotdev_spec(ht, h.axodotdev) + seq![
                TomlEditView::TableComment(ht, "\n# Hosting configuration for dist\n"@),
            ]
        },
    }
}

/// Write the host settings below `table`
pub fn apply(edits: &mut Vec<TomlEdit>, table: &Vec<String>, hosts: &Option<HostLayer>)
    ensures
        edits_view(final(edits)@) == edits_view(old(edits)@) + hosts_spec(texts_view(table@), *hosts),
{
    let ghost start = edits_view(edits@);
    let hosts = match hosts {
        Some(h) => h,
        None => {
            assert(edits_view(edits@) == start + Seq::<TomlEditView>::empty());
            return ;
        },
    };
    let hosts_table = child_path(table, "hosts");
    ensure_table(edits, &hosts_table);
    // hosts.common is just `CommonHostLayer {}`, so there's nothing to do.
    apply_optional_bool(
        edits,
        &hosts_table,
        "force-latest",
        "# Always regard releases as stable (defaults to false)\n",
        hosts.force_latest,
    );
    apply_optional_bool(
        edits,
        &hosts_table,
        "display",
        "# Whether artifacts/installers for this app should be displayed in release bodies\n",
        hosts.display,
    );
    apply_optional_text(
        edits,
        &hosts_table,
        "display-name",
        "# How to refer to the app in release bodies\n",
        &hosts.display_name,
    );
    apply_github(edits, &hosts_table, &hosts.github);
    apply_axodotdev(edits, &hosts_table, &hosts.axodotdev);
    // Finalize the table
    table_comment(edits, &hosts_table, "\n# Hosting configuration for dist\n");
    proof {
        assert(edits_view(edits@) =~= start + hosts_spec(texts_view(table@), Some(*hosts)));
    }
}

/// Write the github host settings below `hosts_table`
fn apply_github(edits: &mut Vec<TomlEdit>, hosts_table: &Vec<String>, github: &Option<BoolOr<GithubHostLayer>>)
    ensures
        edits_view(final(edits)@) == edits_view(old(edits)@) + github_spec(
            texts_view(hosts_table@),
            *github,
        ),
{
    let ghost start = edits_view(edits@);
    let github = match github {
        Some(BoolOr::Bool(b)) => {
            // If it was set as a boolean, simply set it as a boolean and return.
            apply_optional_value(
                edits,
                hosts_table,
                "github",
                "# Configuration for GitHub hosting\n# (Use the table format of [dist.hosts.github] for more nuanced config!)\n",
                Some(TomlValue::Bool(*b)),
            );
            return ;
        },
        Some(BoolOr::Val(g)) => g,
        None => {
            assert(edits_view(edits@) == start + Seq::<TomlEditView>::empty());
            return ;
        },
    };
    let gh_table = child_path(hosts_table, "github");
    ensure_table(edits, &gh_table);
    apply_optional_bool(
        edits,
        &gh_table,
        "create",
        "# Whether dist should create the GitHub release (default: true)\n",
        github.create,
    );
    apply_optional_value(
        edits,
        &gh_table,
        "repo",
        "# Publish GitHub Releases to this repo instead\n",
        match &github.repo {
            Some(r) => Some(TomlValue::Text(r.to_string())),
            None => None,
        },
    );
    apply_optional_value(
        edits,
        &gh_table,
        "during",
        "# Which phase dist should use to create the GitHub release\n",
        match github.during {
            Some(d) => Some(TomlValue::Text(d.to_string())),
            None => None,
        },
    );
    apply_optional_text(
        edits,
        &gh_table,
        "submodule-path",
        "# Read the commit to be tagged from the submodule at this path\n",
        &github.submodule_path,
    );
    apply_optional_bool(
        edits,
        &gh_table,
        "attestations",
        "# Whether to enable GitHub Attestations\n",
        github.attestations,
    );
    // Finalize the table
    table_comment(edits, &gh_table, "\n# Configuration for GitHub hosting\n");
    proof {
        assert(edits_view(edits@) =~= start + github_spec(
            texts_view(hosts_table@),
            Some(BoolOr::Val(*github)),
        ));
    }
}

/// Write the axo.dev host setting below `hosts_table`
fn apply_axodotdev<T>(edits: &mut Vec<TomlEdit>, hosts_table: &Vec<String>, axodotdev: &Option<BoolOr<T>>)
    ensures
        edits_view(final(edits)@) == edits_view(old(edits)@) + axodotdev_spec(
            texts_view(hosts_table@),
            *axodotdev,
        ),
{
    let ghost start = edits_view(edits@);
    match axodotdev {
        Some(BoolOr::Bool(b)) => {
            // If it was set as a boolean, simply set it as a boolean and return.
            apply_optional_value(
                edits,
                hosts_table,
                "axodotdev",
                "# Whether to use axo.dev hosting\n",
                Some(TomlValue::Bool(*b)),
            );
        },
        Some(BoolOr::Val(_)) => {
            // There is no valid representation of the axo.dev settings
            // which isn't empty, so a table of them just turns it on.
            apply_optional_value(
                edits,
                hosts_table,
                "axodotdev",
                "# Whether to use axo.dev hosting\n",
                Some(TomlValue::Bool(true)),
            );
        },
        None => {
            assert(edits_view(edits@) == start + Seq::<TomlEditView>::empty());
        },
    }
}

} // verus!

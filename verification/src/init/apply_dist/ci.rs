//! Writing the `[dist.ci]` table

use vstd::prelude::*;

use super::helpers::{
    apply_optional_bool, apply_optional_text, apply_optional_value, apply_string_list, bool_val, child_path, ensure_table,
    optional_value_spec, string_list_spec, table_comment, text_val, texts_view,
};
use super::{edits_view, TomlEdit, TomlEditView, TomlValue, TomlValueView};
use crate::config::v1::ci::github::GithubCiLayer;
use crate::config::v1::ci::{CiLayer, CommonCiLayer};
use crate::config::v1::layer::BoolOr;
use crate::config::JobStyle;

verus! {

/// The text of jobs
pub open spec fn jobs_texts(v: Seq<JobStyle>) -> Seq<Seq<char>> {
    v.map_values(|j: JobStyle| JobStyle::display_spec(j@))
}

/// An optional list of jobs, as text
pub open spec fn jobs_val(v: Option<Vec<JobStyle>>) -> Option<Seq<Seq<char>>> {
    match v {
        Some(jobs) => Some(jobs_texts(jobs@)),
        None => None,
    }
}

/// The text of jobs
fn jobs_to_texts(v: &Option<Vec<JobStyle>>) -> (r: Option<Vec<String>>)
    ensures
        match r {
            Some(t) => jobs_val(*v) == Some(texts_view(t@)),
            None => v is None,
        },
{
    let v = match v {
        Some(v) => v,
        None => return None,
    };
    let mut out: Vec<String> = Vec::new();
    let mut i: usize = 0;
    while i < v.len()
        invariant
            i <= v@.len(),
            texts_view(out@) == jobs_texts(v@.take(i as int)),
        decreases v.len() - i,
    {
        let ghost prev = out@;
        let t = v[i].to_string();
        out.push(t);
        proof {
            assert(v@.take(i + 1) == v@.take(i as int).push(v@[i as int]));
            assert(texts_view(out@) =~= texts_view(prev).push(t@));
            assert(jobs_texts(v@.take(i + 1)) =~= jobs_texts(v@.take(i as int)).push(
                JobStyle::display_spec(v@[i as int]@),
            ));
        }
        i = i + 1;
    }
    assert(v@.take(v@.len() as int) == v@);
    Some(out)
}

/// The edits that write the CI settings shared by all CI providers into table `t`
pub open spec fn ci_common_spec(t: Seq<Seq<char>>, common: CommonCiLayer) -> Seq<TomlEditView> {
    ci_flags_spec(t, common) + ci_jobs_spec(t, common)
}

/// The edits that write the shared CI flags and names into table `t`
pub open spec fn ci_flags_spec(t: Seq<Seq<char>>, common: CommonCiLayer) -> Seq<TomlEditView> {
    optional_value_spec(
        t,
        "merge-tasks"@,
        "# Whether to run otherwise-parallelizable tasks on the same machine\n"@,
        bool_val(common.merge_tasks),
    ) + optional_value_spec(
        t,
        "fail-fast"@,
        "# Whether failing tasks should make us give up on all other tasks\n"@,
        bool_val(common.fail_fast),
    ) + optional_value_spec(
        t,
        "cache-builds"@,
        "# Whether builds should try to be cached in CI\n"@,
        bool_val(common.cache_builds),
    ) + optional_value_spec(
        t,
        "build-local-artifacts"@,
        "# Whether CI should include auto-generated code to build local artifacts\n"@,
        bool_val(common.build_local_artifacts),
    ) + optional_value_spec(
        t,
        "dispatch-releases"@,
        "# Whether CI should trigger releases with dispatches instead of tag pushes\n"@,
        bool_val(common.dispatch_releases),
    ) + optional_value_spec(
        t,
        "release-branch"@,
        "# Trigger releases on pushes to this branch instead of tag pushes\n"@,
        text_val(common.release_branch),
    ) + optional_value_spec(
        t,
        "pr-run-mode"@,
        "# Which actions to run on pull requests\n"@,
        match common.pr_run_mode {
            Some(m) => Some(TomlValueView::Text(m.display_spec())),
            None => None,
        },
    ) + optional_value_spec(
        t,
        "tag-namespace"@,
        "# A prefix git tags must include for dist to care about them\n"@,
        text_val(common.tag_namespace),
    )
}

/// The edits that write the shared CI job lists into table `t`
pub open spec fn ci_jobs_spec(t: Seq<Seq<char>>, common: CommonCiLayer) -> Seq<TomlEditView> {
    string_list_spec(
        t,
        "plan-jobs"@,
        "# Additional plan jobs to run in CI\n"@,
        jobs_val(common.plan_jobs),
    ) + string_list_spec(
        t,
        "build-local-jobs"@,
        "# Additional local artifacts jobs to run in CI\n"@,
        jobs_val(common.build_local_jobs),
    ) + string_list_spec(
        t,
        "build-global-jobs"@,
        "# Additional global artifacts jobs to run in CI\n"@,
        jobs_val(common.build_global_jobs),
    ) + string_list_spec(
        t,
        "host-jobs"@,
        "# Additional hosts jobs to run in CI\n"@,
        jobs_val(common.host_jobs),
    ) + string_list_spec(
        t,
        "publish-jobs"@,
        "# Additional publish jobs to run in CI\n"@,
        jobs_val(common.publish_jobs),
    ) + string_list_spec(
        t,
        "post-announce-jobs"@,
        "# Additional jobs to run in CI, after the announce job finishes\n"@,
        jobs_val(common.post_announce_jobs),
    )
}

/// The edits that write the github CI settings below `ci` (the runners and
/// permissions are left as they are)
pub open spec fn ci_github_spec(ci: Seq<Seq<char>>, github: GithubCiLayer) -> Seq<TomlEditView> {
    let gh = ci.push("github"@);
    seq![TomlEditView::EnsureTable(gh)] + ci_common_spec(gh, github.common) + optional_value_spec(
        gh,
        "build-setup"@,
        "# Path to a file containing a YAML array of steps, to be performed before 'dist build'\n# KNOWN BUG: https://github.com/axodotdev/cargo-dist/issues/1750\n"@,
        text_val(github.build_setup),
    ) + seq![TomlEditView::TableComment(gh, "\n# Configure generated workflows for GitHub CI\n"@)]
}

/// The edits that write the CI settings below `t`
pub open spec fn ci_spec(t: Seq<Seq<char>>, ci: Option<CiLayer>) -> Seq<TomlEditView> {
    match ci {
        None => Seq::empty(),
        Some(c) => {
            let ct = t.push("ci"@);
            seq![TomlEditView::EnsureTable(ct)] + ci_common_spec(ct, c.common) + match c.github {
                Some(BoolOr::Bool(b)) => optional_value_spec(
                    ct,
                    "github"@,
                    "# Whether dist should generate workflows for GitHub CI\n"@,
                    Some(TomlValueView::Bool(b)),
                ),
                Some(BoolOr::Val(v)) => ci_github_spec(ct, v),
                None => Seq::empty(),
            } + seq![TomlEditView::TableComment(ct, "\n# CI configuration for dist\n"@)]
        },
    }
}

/// Write the CI settings below `table`
pub fn apply(edits: &mut Vec<TomlEdit>, table: &Vec<String>, ci: &Option<CiLayer>)
    ensures
        edits_view(final(edits)@) == edits_view(old(edits)@) + ci_spec(texts_view(table@), *ci),
{
    let ghost start = edits_view(edits@);
    let ci = match ci {
        Some(c) => c,
        None => {
            assert(edits_view(edits@) == start + Seq::<TomlEditView>::empty());
            return ;
        },
    };
    let ci_table = child_path(table, "ci");
    ensure_table(edits, &ci_table);
    apply_ci_common(edits, &ci_table, &ci.common);
    let ghost mid = edits_view(edits@);
    match &ci.github {
        Some(BoolOr::Bool(b)) => {
            apply_optional_value(
                edits,
                &ci_table,
                "github",
                "# Whether dist should generate workflows for GitHub CI\n",
                Some(TomlValue::Bool(*b)),
            );
        },
        Some(BoolOr::Val(v)) => {
            apply_ci_github(edits, &ci_table, v);
        },
        None => {
            assert(edits_view(edits@) == mid + Seq::<TomlEditView>::empty());
        },
    }
    // Finalize the table
    table_comment(edits, &ci_table, "\n# CI configuration for dist\n");
    proof {
        assert(edits_view(edits@) =~= start + ci_spec(texts_view(table@), Some(*ci)));
    }
}

/// Write the github CI settings below `ci_table`
fn apply_ci_github(edits: &mut Vec<TomlEdit>, ci_table: &Vec<String>, github: &GithubCiLayer)
    ensures
        edits_view(final(edits)@) == edits_view(old(edits)@) + ci_github_spec(
            texts_view(ci_table@),
            *github,
        ),
{
    let ghost start = edits_view(edits@);
    let gh_table = child_path(ci_table, "github");
    ensure_table(edits, &gh_table);
    apply_ci_common(edits, &gh_table, &github.common);
    // [dist.ci.github.runners] is not reformatted due to complexity.
    // [dist.ci.github.permissions] is not reformatted due to complexity.
    apply_optional_text(
        edits,
        &gh_table,
        "build-setup",
        "# Path to a file containing a YAML array of steps, to be performed before 'dist build'\n# KNOWN BUG: https://github.com/axodotdev/cargo-dist/issues/1750\n",
        &github.build_setup,
    );
    // Finalize the table
    table_comment(edits, &gh_table, "\n# Configure generated workflows for GitHub CI\n");
    proof {
        assert(edits_view(edits@) =~= start + ci_github_spec(texts_view(ci_table@), *github));
    }
}

/// Write the CI settings shared by all CI providers into `table`
fn apply_ci_common(edits: &mut Vec<TomlEdit>, table: &Vec<String>, common: &CommonCiLayer)
    ensures
        edits_view(final(edits)@) == edits_view(old(edits)@) + ci_common_spec(
            texts_view(table@),
            *common,
        ),
{
    let ghost start = edits_view(edits@);
    apply_ci_flags(edits, table, common);
    apply_ci_jobs(edits, table, common);
    assert(edits_view(edits@) =~= start + ci_common_spec(texts_view(table@), *common));
}

/// Write the shared CI flags and names into `table`
fn apply_ci_flags(edits: &mut Vec<TomlEdit>, table: &Vec<String>, common: &CommonCiLayer)
    ensures
        edits_view(final(edits)@) == edits_view(old(edits)@) + ci_flags_spec(
            texts_view(table@),
            *common,
        ),
{
    let ghost start = edits_view(edits@);
    apply_optional_bool(
        edits,
        table,
        "merge-tasks",
        "# Whether to run otherwise-parallelizable tasks on the same machine\n",
        common.merge_tasks,
    );
    apply_optional_bool(
        edits,
        table,
        "fail-fast",
        "# Whether failing tasks should make us give up on all other tasks\n",
        common.fail_fast,
    );
    apply_optional_bool(
        edits,
        table,
        "cache-builds",
        "# Whether builds should try to be cached in CI\n",
        common.cache_builds,
    );
    apply_optional_bool(
        edits,
        table,
        "build-local-artifacts",
        "# Whether CI should include auto-generated code to build local artifacts\n",
        common.build_local_artifacts,
    );
    apply_optional_bool(
        edits,
        table,
        "dispatch-releases",
        "# Whether CI should trigger releases with dispatches instead of tag pushes\n",
        common.dispatch_releases,
    );
    apply_optional_text(
        edits,
        table,
        "release-branch",
        "# Trigger releases on pushes to this branch instead of tag pushes\n",
        &common.release_branch,
    );
    apply_optional_value(
        edits,
        table,
        "pr-run-mode",
        "# Which actions to run on pull requests\n",
        match common.pr_run_mode {
            Some(m) => Some(TomlValue::Text(m.to_string())),
            None => None,
        },
    );
    apply_optional_text(
        edits,
        table,
        "tag-namespace",
        "# A prefix git tags must include for dist to care about them\n",
        &common.tag_namespace,
    );
    assert(edits_view(edits@) =~= start + ci_flags_spec(texts_view(table@), *common));
}

/// Write the shared CI job lists into `table`
fn apply_ci_jobs(edits: &mut Vec<TomlEdit>, table: &Vec<String>, common: &CommonCiLayer)
    ensures
        edits_view(final(edits)@) == edits_view(old(edits)@) + ci_jobs_spec(
            texts_view(table@),
            *common,
        ),
{
    let ghost start = edits_view(edits@);
    apply_string_list(
        edits,
        table,
        "plan-jobs",
        "# Additional plan jobs to run in CI\n",
        jobs_to_texts(&common.plan_jobs),
    );
    apply_string_list(
        edits,
        table,
        "build-local-jobs",
        "# Additional local artifacts jobs to run in CI\n",
        jobs_to_texts(&common.build_local_jobs),
    );
    apply_string_list(
        edits,
        table,
        "build-global-jobs",
        "# Additional global artifacts jobs to run in CI\n",
        jobs_to_texts(&common.build_global_jobs),
    );
    apply_string_list(
        edits,
        table,
        "host-jobs",
        "# Additional hosts jobs to run in CI\n",
        jobs_to_texts(&common.host_jobs),
    );
    apply_string_list(
        edits,
        table,
        "publish-jobs",
        "# Additional publish jobs to run in CI\n",
        jobs_to_texts(&common.publish_jobs),
    );
    apply_string_list(
        edits,
        table,
        "post-announce-jobs",
        "# Additional jobs to run in CI, after the announce job finishes\n",
        jobs_to_texts(&common.post_announce_jobs),
    );
    assert(edits_view(edits@) =~= start + ci_jobs_spec(texts_view(table@), *common));
}

} // verus!

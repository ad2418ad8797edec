use cargo_dist::config::v1::ci::github::{GithubCiConfig, GithubCiLayer, GithubSecretSpec};
use cargo_dist::config::v1::ci::{CiConfigInheritable, CiLayer, CommonCiConfig, CommonCiLayer};
use cargo_dist::config::v1::layer::{ApplyLayer, BoolOr};
use cargo_dist::config::{JobStyle, PrRunMode};
use cargo_dist::schema::{
    ContainerConfigInput, GithubRunnerConfigInput, PackageManager, StringLikeOr,
};
use cargo_dist::workspace::WorkspaceGraph;

fn s(x: &str) -> String {
    x.to_owned()
}

fn empty_workspace() -> WorkspaceGraph {
    WorkspaceGraph {
        root_workspace_dir: s("/work"),
        packages: vec![],
    }
}

fn secrets_of<'a>(config: &'a GithubCiConfig, job: &str) -> Option<&'a Vec<(String, String)>> {
    config
        .secrets
        .iter()
        .find(|(name, _)| name == job)
        .map(|(_, map)| map)
}

fn runner_of<'a>(
    config: &'a GithubCiConfig,
    target: &str,
) -> Option<&'a cargo_dist::schema::GithubRunnerConfig> {
    config
        .runners
        .iter()
        .find(|(t, _)| t == target)
        .map(|(_, r)| r)
}

fn layer_with_runners(
    runners: Vec<(String, StringLikeOr<String, GithubRunnerConfigInput>)>,
) -> GithubCiLayer {
    GithubCiLayer {
        common: CommonCiLayer::default(),
        runners: Some(runners),
        permissions: None,
        secrets: None,
        build_setup: None,
        action_commits: None,
    }
}

#[test]
fn github_ci_layer_normalizes_secret_specs() {
    let mut config = GithubCiConfig::default();
    config.apply_layer(GithubCiLayer {
        common: CommonCiLayer::default(),
        runners: None,
        permissions: None,
        secrets: Some(vec![
            (
                s("job-list"),
                GithubSecretSpec::List(vec![s("TOKEN_A"), s("TOKEN_B")]),
            ),
            (
                s("job-map"),
                GithubSecretSpec::Mapping(vec![(s("NPM_TOKEN"), s("ORG_NPM_TOKEN"))]),
            ),
            (s("job-empty-list"), GithubSecretSpec::List(vec![])),
            (s("job-empty-map"), GithubSecretSpec::Mapping(vec![])),
        ]),
        build_setup: None,
        action_commits: None,
    });

    assert_eq!(
        secrets_of(&config, "job-list"),
        Some(&vec![
            (s("TOKEN_A"), s("TOKEN_A")),
            (s("TOKEN_B"), s("TOKEN_B")),
        ])
    );
    assert_eq!(
        secrets_of(&config, "job-map"),
        Some(&vec![(s("NPM_TOKEN"), s("ORG_NPM_TOKEN"))])
    );
    assert_eq!(secrets_of(&config, "job-empty-list"), Some(&vec![]));
    assert_eq!(secrets_of(&config, "job-empty-map"), Some(&vec![]));

    assert!(config.configured_secret_jobs.contains(&s("job-list")));
    assert!(config.configured_secret_jobs.contains(&s("job-map")));
    assert!(config.configured_secret_jobs.contains(&s("job-empty-list")));
    assert!(config.configured_secret_jobs.contains(&s("job-empty-map")));
}

#[test]
fn secret_list_maps_each_name_to_itself() {
    let map = GithubSecretSpec::List(vec![s("B"), s("A"), s("B")]).into_map();
    assert_eq!(map, vec![(s("A"), s("A")), (s("B"), s("B"))]);
}

#[test]
fn secret_mapping_is_kept_by_name_last_wins() {
    let map = GithubSecretSpec::Mapping(vec![
        (s("Z"), s("ONE")),
        (s("A"), s("TWO")),
        (s("Z"), s("THREE")),
    ])
    .into_map();
    assert_eq!(map, vec![(s("A"), s("TWO")), (s("Z"), s("THREE"))]);
}

#[test]
fn secrets_and_runners_are_kept_by_key() {
    let mut config = GithubCiConfig::default();
    config.apply_layer(GithubCiLayer {
        common: CommonCiLayer::default(),
        runners: Some(vec![
            (s("x86_64-unknown-linux-gnu"), StringLikeOr::StringLike(s("one"))),
            (s("aarch64-apple-darwin"), StringLikeOr::StringLike(s("two"))),
            (s("x86_64-unknown-linux-gnu"), StringLikeOr::StringLike(s("three"))),
        ]),
        permissions: None,
        secrets: Some(vec![
            (s("publish"), GithubSecretSpec::List(vec![s("T")])),
            (s("build"), GithubSecretSpec::List(vec![])),
        ]),
        build_setup: None,
        action_commits: None,
    });
    let targets: Vec<&str> = config.runners.iter().map(|(t, _)| t.as_str()).collect();
    assert_eq!(targets, vec!["aarch64-apple-darwin", "x86_64-unknown-linux-gnu"]);
    assert_eq!(runner_of(&config, "x86_64-unknown-linux-gnu").unwrap().runner, "three");
    let jobs: Vec<&str> = config.secrets.iter().map(|(j, _)| j.as_str()).collect();
    assert_eq!(jobs, vec!["build", "publish"]);
    assert_eq!(config.configured_secret_jobs, vec![s("build"), s("publish")]);
}

#[test]
fn known_runner_gets_its_image_host() {
    let mut config = GithubCiConfig::default();
    config.apply_layer(layer_with_runners(vec![(
        s("aarch64-unknown-linux-gnu"),
        StringLikeOr::StringLike(s("ubuntu-20.04")),
    )]));
    let runner = runner_of(&config, "aarch64-unknown-linux-gnu").unwrap();
    assert_eq!(runner.runner, "ubuntu-20.04");
    assert_eq!(runner.host, "x86_64-unknown-linux-gnu");
    assert!(runner.container.is_none());
}

#[test]
fn custom_runner_is_taken_to_be_the_target() {
    let mut config = GithubCiConfig::default();
    config.apply_layer(layer_with_runners(vec![(
        s("riscv64gc-unknown-linux-gnu"),
        StringLikeOr::StringLike(s("my-own-runner")),
    )]));
    let runner = runner_of(&config, "riscv64gc-unknown-linux-gnu").unwrap();
    assert_eq!(runner.runner, "my-own-runner");
    assert_eq!(runner.host, "riscv64gc-unknown-linux-gnu");
}

#[test]
fn runner_config_defaults_runner_and_container_host() {
    let mut config = GithubCiConfig::default();
    config.apply_layer(layer_with_runners(vec![
        (
            s("x86_64-unknown-linux-musl"),
            StringLikeOr::Val(GithubRunnerConfigInput {
                runner: None,
                host: None,
                container: Some(StringLikeOr::StringLike(s("alpine:3"))),
            }),
        ),
        (
            s("aarch64-unknown-linux-musl"),
            StringLikeOr::Val(GithubRunnerConfigInput {
                runner: Some(s("buildjet-8vcpu-ubuntu-2204-arm")),
                host: Some(s("custom-host")),
                container: Some(StringLikeOr::Val(ContainerConfigInput {
                    image: s("quay.io/thing"),
                    host: Some(s("aarch64-unknown-linux-gnu")),
                    package_manager: Some(PackageManager::Apt),
                })),
            }),
        ),
    ]));
    let first = runner_of(&config, "x86_64-unknown-linux-musl").unwrap();
    assert_eq!(first.runner, "ubuntu-22.04");
    assert_eq!(first.host, "x86_64-unknown-linux-gnu");
    let container = first.container.as_ref().unwrap();
    assert_eq!(container.image, "alpine:3");
    assert_eq!(container.host, "x86_64-unknown-linux-musl");
    assert_eq!(container.package_manager, None);

    let second = runner_of(&config, "aarch64-unknown-linux-musl").unwrap();
    assert_eq!(second.runner, "buildjet-8vcpu-ubuntu-2204-arm");
    assert_eq!(second.host, "custom-host");
    let container = second.container.as_ref().unwrap();
    assert_eq!(container.image, "quay.io/thing");
    assert_eq!(container.host, "aarch64-unknown-linux-gnu");
    assert_eq!(container.package_manager, Some(PackageManager::Apt));
    // the runners are kept by target
    assert_eq!(config.runners[0].0, "aarch64-unknown-linux-musl");
    assert_eq!(config.runners[1].0, "x86_64-unknown-linux-musl");
}

#[test]
fn workspace_ci_defaults() {
    let ws = empty_workspace();
    let common = CommonCiConfig::defaults_for_workspace(&ws);
    assert!(!common.merge_tasks);
    assert!(!common.fail_fast);
    assert!(common.build_local_artifacts);
    assert_eq!(common.pr_run_mode, PrRunMode::Plan);
    assert!(common.plan_jobs.is_empty());
}

#[test]
fn ci_layer_later_wins_and_github_is_enabled_by_bool() {
    let ws = empty_workspace();
    let mut ci = CiConfigInheritable::defaults_for_workspace(&ws);
    let mut first = CommonCiLayer::default();
    first.fail_fast = Some(true);
    first.plan_jobs = Some(vec![JobStyle::User(s("plan-a"))]);
    ci.apply_layer(CiLayer {
        common: first,
        github: Some(BoolOr::Bool(true)),
    });
    let mut second = CommonCiLayer::default();
    second.fail_fast = Some(false);
    second.pr_run_mode = Some(PrRunMode::Upload);
    let mut gh = GithubCiLayer::default();
    gh.build_setup = Some(s("setup.yml"));
    ci.apply_layer(CiLayer {
        common: second,
        github: Some(BoolOr::Val(gh)),
    });
    assert!(!ci.common.fail_fast);
    assert_eq!(ci.common.pr_run_mode, PrRunMode::Upload);
    assert_eq!(ci.common.plan_jobs.len(), 1);
    let cfg = ci.apply_inheritance_for_workspace(&ws);
    let github = cfg.github.unwrap();
    assert_eq!(github.build_setup, Some(s("setup.yml")));
    assert_eq!(github.common.pr_run_mode, PrRunMode::Upload);
    assert!(github.common.build_local_artifacts);
}

#[test]
fn ci_github_false_disables() {
    let ws = empty_workspace();
    let mut ci = CiConfigInheritable::defaults_for_workspace(&ws);
    ci.apply_layer(CiLayer {
        common: CommonCiLayer::default(),
        github: Some(BoolOr::Bool(true)),
    });
    ci.apply_layer(CiLayer {
        common: CommonCiLayer::default(),
        github: Some(BoolOr::Bool(false)),
    });
    assert!(ci.apply_inheritance_for_workspace(&ws).github.is_none());
}

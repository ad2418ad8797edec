use cargo_dist::env::{calculate_cflags, calculate_ldflags, formulas_from_env, parse_env, select_brew_env, EnvMap};
use cargo_dist::errors::DistError;

fn lines(v: &[&str]) -> Vec<String> {
    v.iter().map(|s| s.to_string()).collect()
}

fn brew_env() -> EnvMap {
    parse_env(&lines(&[
        "HOMEBREW_DEPENDENCIES=openssl@3,homebrew/core/libssh2,xz",
        "HOMEBREW_OPT=/opt/homebrew/opt",
        "PKG_CONFIG_PATH=/opt/homebrew/lib/pkgconfig",
        "CMAKE_LIBRARY_PATH=/opt/homebrew/lib",
        "UNRELATED=1",
    ]))
    .unwrap()
}

#[test]
fn parse_env_splits_at_first_equals() {
    let env = parse_env(&lines(&["A=1", "B=x=y", "C="])).unwrap();
    assert_eq!(env.get("A").map(|s| s.as_str()), Some("1"));
    assert_eq!(env.get("B").map(|s| s.as_str()), Some("x=y"));
    assert_eq!(env.get("C").map(|s| s.as_str()), Some(""));
    assert_eq!(env.get("D"), None);
}

#[test]
fn parse_env_last_occurrence_wins() {
    let env = parse_env(&lines(&["A=1", "B=2", "A=3"])).unwrap();
    assert_eq!(env.get("A").map(|s| s.as_str()), Some("3"));
    assert_eq!(env.get("B").map(|s| s.as_str()), Some("2"));
}

#[test]
fn parse_env_rejects_line_without_equals() {
    let err = parse_env(&lines(&["A=1", "garbage", "B=2"])).unwrap_err();
    match &err {
        DistError::EnvParseError { line } => assert_eq!(line, "garbage"),
        other => panic!("unexpected error {other:?}"),
    }
    assert_eq!(
        err.to_string(),
        "Unable to parse environment variable as a key/value pair: garbage"
    );
}

#[test]
fn parse_env_empty_is_empty() {
    let env = parse_env(&[]).unwrap();
    assert!(env.entries.is_empty());
}

#[test]
fn formulas_use_short_names_under_opt() {
    let formulas = formulas_from_env(&brew_env());
    assert_eq!(
        formulas,
        vec![
            ("openssl@3".to_owned(), "/opt/homebrew/opt/openssl@3".to_owned()),
            (
                "homebrew/core/libssh2".to_owned(),
                "/opt/homebrew/opt/libssh2".to_owned()
            ),
            ("xz".to_owned(), "/opt/homebrew/opt/xz".to_owned()),
        ]
    );
}

#[test]
fn no_formulas_without_opt_prefix() {
    let env = parse_env(&lines(&["HOMEBREW_DEPENDENCIES=xz"])).unwrap();
    assert!(formulas_from_env(&env).is_empty());
    assert_eq!(calculate_ldflags(&env), "");
}

#[test]
fn ldflags_and_cflags() {
    let env = brew_env();
    assert_eq!(
        calculate_ldflags(&env),
        "-L/opt/homebrew/opt/openssl@3/lib -L/opt/homebrew/opt/libssh2/lib -L/opt/homebrew/opt/xz/lib"
    );
    assert_eq!(
        calculate_cflags(&env),
        "-I/opt/homebrew/opt/openssl@3/include -I/opt/homebrew/opt/libssh2/include -I/opt/homebrew/opt/xz/include"
    );
}

#[test]
fn brew_env_keeps_search_paths_and_extends_path() {
    let env = brew_env();
    let selected = select_brew_env(&env, Some("/usr/bin"));
    assert_eq!(
        selected,
        vec![
            (
                "PATH".to_owned(),
                "/usr/bin:/opt/homebrew/opt/openssl@3/bin:/opt/homebrew/opt/openssl@3/sbin:/opt/homebrew/opt/libssh2/bin:/opt/homebrew/opt/libssh2/sbin:/opt/homebrew/opt/xz/bin:/opt/homebrew/opt/xz/sbin"
                    .to_owned()
            ),
            (
                "PKG_CONFIG_PATH".to_owned(),
                "/opt/homebrew/lib/pkgconfig".to_owned()
            ),
            ("CMAKE_LIBRARY_PATH".to_owned(), "/opt/homebrew/lib".to_owned()),
        ]
    );
}

#[test]
fn brew_env_without_our_path_sets_no_path() {
    let env = brew_env();
    let selected = select_brew_env(&env, None);
    assert_eq!(selected.len(), 2);
    assert_eq!(selected[0].0, "PKG_CONFIG_PATH");
}

use cargo_dist::plan::{group_releases_by_version, plan_notes, plan_tags};

fn release(version: &str, name: &str) -> (String, String) {
    (version.to_string(), name.to_string())
}

#[test]
fn releases_are_grouped_by_version_in_order() {
    let releases = vec![
        release("0.2.0", "beta"),
        release("0.1.0", "alpha"),
        release("0.2.0", "gamma"),
    ];
    let groups = group_releases_by_version(&releases);
    assert_eq!(
        groups,
        vec![
            ("0.1.0".to_string(), vec!["alpha".to_string()]),
            (
                "0.2.0".to_string(),
                vec!["beta".to_string(), "gamma".to_string()]
            ),
        ]
    );
    assert_eq!(plan_tags(&groups), vec!["v0.1.0", "v0.2.0"]);
}

#[test]
fn one_version_needs_no_note() {
    let groups = group_releases_by_version(&vec![release("1.0.0", "a"), release("1.0.0", "b")]);
    assert_eq!(plan_tags(&groups), vec!["v1.0.0"]);
    assert!(plan_notes(&groups).is_empty());
}

#[test]
fn several_versions_get_a_note_and_an_example() {
    let groups = group_releases_by_version(&vec![
        release("0.2.0", "beta"),
        release("0.1.0", "alpha"),
        release("0.2.0", "gamma"),
    ]);
    let notes = plan_notes(&groups);
    assert_eq!(notes.len(), 4);
    assert!(notes[0].starts_with("NOTE:\n  There are multiple version numbers in your workspace.\n"));
    assert_eq!(notes[1], "  --tag=v0.1.0 will match: alpha");
    assert_eq!(notes[2], "  --tag=v0.2.0 will match: beta, gamma");
    assert_eq!(
        notes[3],
        "\n  You can also filter by name and version. For example, to select 'alpha' you could specify --tag=alpha-v0.1.0"
    );
}

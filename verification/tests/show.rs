use hdcquery::hubapi::{Repository, Timestamp};
use hdcquery::show::{
    details, output, repository_slug, repository_url, show_repository, updated, Output,
    NO_REPOSITORIES, REPOSITORY_URL,
};

fn rust() -> Repository {
    Repository {
        namespace: Some("rustlang".to_string()),
        name: Some("rust".to_string()),
        description: Some("Automated builds".to_string()),
        star_count: Some(42),
        pull_count: Some(1234567),
        full_description: Some("# Rust\n\nDocker images.".to_string()),
        is_automated: Some(false),
        last_updated: Some(Timestamp { secs: 1431648000, nanos: 0 }),
    }
}

fn bare() -> Repository {
    Repository {
        namespace: None,
        name: None,
        description: None,
        star_count: None,
        pull_count: None,
        full_description: None,
        is_automated: None,
        last_updated: None,
    }
}

#[test]
fn repository_url_of_a_slug_with_namespace() {
    assert_eq!(
        repository_url("rustlang/rust"),
        "https://hub.docker.com/v2/repositories/rustlang/rust/"
    );
    assert_eq!(REPOSITORY_URL, "https://hub.docker.com/v2/repositories/");
}

#[test]
fn repository_url_of_a_slug_without_namespace_is_in_the_library() {
    assert_eq!(repository_url("httpd"), "https://hub.docker.com/v2/repositories/library/httpd/");
    assert_eq!(repository_url(""), "https://hub.docker.com/v2/repositories/library//");
}

#[test]
fn repository_slug_needs_namespace_and_name() {
    assert_eq!(repository_slug(&rust()), Some("rustlang/rust".to_string()));
    let mut nameless = rust();
    nameless.name = None;
    assert_eq!(repository_slug(&nameless), None);
    let mut homeless = rust();
    homeless.namespace = None;
    assert_eq!(repository_slug(&homeless), None);
    assert_eq!(repository_slug(&bare()), None);
}

#[test]
fn details_write_a_line_for_each_known_value() {
    let text = details(&rust(), Some("2015-05-15 00:00 UTC (2015-05-15)"));
    assert_eq!(
        text,
        "Namespace: rustlang\n\
         Name: rust\n\
         Description: Automated builds\n\
         Starts: 42\n\
         Pulls: 1234567\n\
         Automated: no\n\
         Last updated: 2015-05-15 00:00 UTC (2015-05-15)\n\
         \n----\n\n# Rust\n\nDocker images.\n\n----\n"
    );
}

#[test]
fn details_leave_out_what_is_not_known() {
    assert_eq!(details(&bare(), None), "");
    let mut some = bare();
    some.name = Some("rust".to_string());
    some.is_automated = Some(true);
    some.star_count = Some(0);
    assert_eq!(details(&some, None), "Name: rust\nStarts: 0\nAutomated: yes\n");
    let mut described = bare();
    described.full_description = Some("text".to_string());
    assert_eq!(details(&described, None), "\n----\n\ntext\n\n----\n");
}

#[test]
fn updated_writes_the_moment_and_the_distance() {
    assert_eq!(
        updated(&Timestamp { secs: 1431648000, nanos: 0 }),
        Some("2015-05-15 00:00 UTC (2015-05-15)".to_string())
    );
    assert_eq!(
        updated(&Timestamp { secs: 946771199, nanos: 999_999_999 }),
        Some("2000-01-01 23:59 UTC (2000-01-01)".to_string())
    );
    assert_eq!(updated(&Timestamp { secs: i64::MAX, nanos: 0 }), None);
}

#[test]
fn show_repository_reads_the_clock_for_the_last_update() {
    let text = show_repository(&rust());
    assert!(text.contains("Namespace: rustlang"));
    assert!(text.contains("Name: rust"));
    assert!(text.contains("---"));
    assert_eq!(text, details(&rust(), Some("2015-05-15 00:00 UTC (2015-05-15)")));
    assert_eq!(show_repository(&bare()), "");
}

#[test]
fn output_of_the_description_alone_is_plain() {
    match output(&rust(), true) {
        Output::Plain(text) => assert_eq!(text, "# Rust\n\nDocker images.\n"),
        other => panic!("expected the description, got {:?}", other),
    }
    assert!(matches!(output(&bare(), true), Output::Nothing));
}

#[test]
fn output_of_the_details_goes_through_the_pager() {
    match output(&rust(), false) {
        Output::Paged(text) => assert_eq!(text, show_repository(&rust())),
        other => panic!("expected the details, got {:?}", other),
    }
    match output(&bare(), false) {
        Output::Paged(text) => assert_eq!(text, ""),
        other => panic!("expected the details, got {:?}", other),
    }
}

#[test]
fn message_for_no_repositories() {
    assert_eq!(NO_REPOSITORIES, "No repositories");
}

use hdcquery::pager::{
    command, command_from_words, default_pager, PagerError, PAGER_ENV, REPOSITORY_ENV,
    VERSION_ENV,
};

fn pair(key: &str, value: &str) -> (String, String) {
    (key.to_string(), value.to_string())
}

#[test]
fn no_pager_unless_the_output_is_a_terminal() {
    assert!(matches!(command(false, None, false, "1.0.0", None), Ok(None)));
    assert!(matches!(command(false, Some("less"), false, "1.0.0", Some("library/rust")), Ok(None)));
    assert!(matches!(command(false, Some("less 'open"), true, "1.0.0", None), Ok(None)));
}

#[test]
fn default_pager_depends_on_the_system() {
    assert_eq!(default_pager(false), "pager -F");
    assert_eq!(default_pager(true), "more");
    assert_eq!(PAGER_ENV, "HDC_PAGER");
}

#[test]
fn default_pager_is_run_with_its_flag() {
    let pager = command(true, None, false, "1.2.3", Some("library/rust")).unwrap().unwrap();
    assert_eq!(pager.program, "pager");
    assert_eq!(pager.args, vec!["-F".to_string()]);
    assert_eq!(
        pager.envs,
        vec![pair("HDCQUERY_VERSION", "1.2.3"), pair("HDCQUERY_REPOSITORY", "library/rust")]
    );

    let pager = command(true, None, true, "1.2.3", None).unwrap().unwrap();
    assert_eq!(pager.program, "more");
    assert!(pager.args.is_empty());
    assert_eq!(pager.envs, vec![pair(VERSION_ENV, "1.2.3")]);
}

#[test]
fn pager_from_the_environment_is_split_like_a_shell_does() {
    let pager = command(true, Some("less -R  'a b' \"c d\" e\\ f"), false, "0.1.0", None)
        .unwrap()
        .unwrap();
    assert_eq!(pager.program, "less");
    assert_eq!(
        pager.args,
        vec!["-R".to_string(), "a b".to_string(), "c d".to_string(), "e f".to_string()]
    );
    assert_eq!(pager.envs, vec![pair("HDCQUERY_VERSION", "0.1.0")]);
}

#[test]
fn pager_with_an_open_quote_is_an_error() {
    assert!(matches!(
        command(true, Some("less 'open"), false, "0.1.0", None),
        Err(PagerError::MissingQuote)
    ));
    assert!(matches!(
        command(true, Some("less \"open"), false, "0.1.0", Some("a/b")),
        Err(PagerError::MissingQuote)
    ));
}

#[test]
fn pager_without_words_is_no_pager() {
    assert!(matches!(command(true, Some(""), false, "0.1.0", None), Ok(None)));
    assert!(matches!(command(true, Some("  \t "), false, "0.1.0", None), Ok(None)));
    assert!(matches!(command(true, Some("# less"), false, "0.1.0", None), Ok(None)));
}

#[test]
fn command_from_words_takes_the_first_word_as_program() {
    assert!(command_from_words(Vec::new(), "1.0", None).is_none());
    let pager = command_from_words(
        vec!["bat".to_string(), "--plain".to_string(), "-l".to_string(), "md".to_string()],
        "1.0",
        Some("rustlang/rust"),
    )
    .unwrap();
    assert_eq!(pager.program, "bat");
    assert_eq!(pager.args, vec!["--plain".to_string(), "-l".to_string(), "md".to_string()]);
    assert_eq!(pager.envs, vec![pair(VERSION_ENV, "1.0"), pair(REPOSITORY_ENV, "rustlang/rust")]);
}

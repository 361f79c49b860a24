//! Tests for the command-line argument parsing and URL validation.

use shorty::cli_utils::{ShortyArgs, ShortyCommand};

const SHORTY_EXEC: &str = "shorty";
const SHORTEN_COMMAND: &str = "shorten";
const LENGTHEN_COMMAND: &str = "lengthen";

#[test]
fn should_build_shorten_command() {
    let test_url = "https://example.com".to_string();
    let args = vec![
        SHORTY_EXEC.to_string(),
        SHORTEN_COMMAND.to_string(),
        test_url.clone(),
    ];
    let built_args = ShortyArgs::build(args);

    assert!(built_args.is_ok());
    assert_eq!(
        built_args.unwrap().command,
        ShortyCommand::Shorten(test_url)
    );
}

#[test]
fn should_build_lengthen_command() {
    let test_short_id = "abcdAbc123".to_string();
    let args = vec![
        SHORTY_EXEC.to_string(),
        LENGTHEN_COMMAND.to_string(),
        test_short_id.clone(),
    ];
    let built_args = ShortyArgs::build(args);

    assert!(built_args.is_ok());
    assert_eq!(
        built_args.unwrap().command,
        ShortyCommand::Lengthen(test_short_id)
    );
}

#[test]
fn should_require_an_argument_to_shorten() {
    let args = vec![SHORTY_EXEC.to_string(), SHORTEN_COMMAND.to_string()];
    let built_args = ShortyArgs::build(args);

    assert!(built_args.is_err());
}

#[test]
fn should_require_an_argument_to_lengthen() {
    let args = vec![SHORTY_EXEC.to_string(), LENGTHEN_COMMAND.to_string()];
    let built_args = ShortyArgs::build(args);

    assert!(built_args.is_err());
}

#[test]
fn should_not_shorten_invalid_url() {
    let args = vec![
        SHORTY_EXEC.to_string(),
        SHORTEN_COMMAND.to_string(),
        "https;//example.com".to_string(),
    ];
    let built_args = ShortyArgs::build(args);

    assert!(built_args.is_err());
}

#[test]
fn should_reject_unknown_command() {
    let args = vec![
        SHORTY_EXEC.to_string(),
        "embiggen".to_string(),
        "https://example.com".to_string(),
    ];
    assert!(ShortyArgs::build(args).is_err());
}

#[test]
fn should_require_a_command() {
    let args = vec![SHORTY_EXEC.to_string()];
    assert!(ShortyArgs::build(args).is_err());
}

#[test]
fn validates_urls_by_pattern() {
    // Accepted: `https?://` followed by at least one character that is
    // neither a space nor a double quote.
    assert!(ShortyArgs::is_valid_url("http://a"));
    assert!(ShortyArgs::is_valid_url("https://a"));
    assert!(ShortyArgs::is_valid_url("https://example.com/path?q=1#frag"));

    // Rejected: wrong scheme, nothing after the scheme, or a forbidden
    // character in the body.
    assert!(!ShortyArgs::is_valid_url(""));
    assert!(!ShortyArgs::is_valid_url("http://"));
    assert!(!ShortyArgs::is_valid_url("https://"));
    assert!(!ShortyArgs::is_valid_url("ftp://example.com"));
    assert!(!ShortyArgs::is_valid_url("https;//example.com"));
    assert!(!ShortyArgs::is_valid_url("https://exa mple.com"));
    assert!(!ShortyArgs::is_valid_url("https://exa\"mple.com"));
    assert!(!ShortyArgs::is_valid_url("example.com"));
}

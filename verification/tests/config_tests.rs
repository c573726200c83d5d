use tw_ctrl::config::{filter_comments, parse_line, Config};
use tw_ctrl::log::{str_to_loglvl, Level};

fn config_of(lines: &[&str]) -> Config {
    let owned: Vec<String> = lines.iter().map(|l| l.to_string()).collect();
    Config::from_lines(&owned)
}

// Comments on their own line never become a binding.
#[test]
fn test_comment_lines_ignored() {
    let cfg = config_of(&["#Test comment"]);
    assert!(cfg.get("#Test comment").is_none());
}

// A key=value line is parsed into a binding.
#[test]
fn test_key_value_parsed() {
    let cfg = config_of(&["key=value"]);
    assert_eq!(cfg.get("key"), Some(&String::from("value")));
}

// A comment sharing a line with a binding is cut away, and a
// commented-out binding stays out.
#[test]
fn test_comment_shares_line() {
    let cfg = config_of(&["key=value # A comment", "#key1=value1"]);
    assert_eq!(cfg.get("key"), Some(&String::from("value")));
    assert!(cfg.get("#key1").is_none());
    assert!(cfg.get("key1").is_none());
}

// Lines missing a key or a value are ignored.
#[test]
fn test_incomplete_pairs_ignored() {
    let cfg = config_of(&["key=", "=value"]);
    assert!(cfg.get("key").is_none());
    assert!(cfg.get("").is_none());
}

// When a key is bound twice, the later line wins.
#[test]
fn test_last_binding_wins() {
    let cfg = config_of(&["key=first", "key=second"]);
    assert_eq!(cfg.get("key"), Some(&String::from("second")));
}

#[test]
fn test_missing_key_is_none() {
    let cfg = config_of(&["key=value"]);
    assert!(cfg.get("other").is_none());
}

#[test]
fn test_filter_comments_trims() {
    assert_eq!(filter_comments("key=value # A comment"), "key=value");
    assert_eq!(filter_comments("no comment here"), "no comment here");
    assert_eq!(filter_comments("   spaced   # tail"), "spaced");
    assert_eq!(filter_comments("#whole line"), "");
}

#[test]
fn test_parse_line_pairs() {
    let kv = parse_line(String::from("serial.baud=9600")).unwrap();
    assert_eq!(kv.key, "serial.baud");
    assert_eq!(kv.value, "9600");
    assert!(parse_line(String::from("no separator")).is_none());
    assert!(parse_line(String::from("novalue=")).is_none());
    assert!(parse_line(String::from("=nokey")).is_none());
}

#[test]
fn test_log_level_names() {
    assert_eq!(str_to_loglvl("debug"), Some(Level::Debug));
    assert_eq!(str_to_loglvl("Info"), Some(Level::Info));
    assert_eq!(str_to_loglvl("WARNING"), Some(Level::Warning));
    assert_eq!(str_to_loglvl("error"), Some(Level::Error));
    assert_eq!(str_to_loglvl("Fatal"), Some(Level::Fatal));
    assert_eq!(str_to_loglvl("off"), Some(Level::Off));
    assert_eq!(str_to_loglvl("verbose"), None);
    assert_eq!(str_to_loglvl(""), None);
}

#[test]
fn test_log_level_labels_and_ranks() {
    assert_eq!(Level::Debug.label(), "DEBUG");
    assert_eq!(Level::Warning.label(), "WARN");
    assert_eq!(Level::Off.label(), "");
    assert!(Level::Fatal.rank() < Level::Debug.rank());
    assert!(Level::Error.rank() < Level::Info.rank());
}

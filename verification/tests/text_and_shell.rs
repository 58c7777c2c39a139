use ruos_mcp::shell::{shell_outcome, shq, spawn_failure};
use ruos_mcp::text::{int_text, is_blank, same_text, trim};

#[test]
fn shq_wraps_plain_text_in_quotes() {
    assert_eq!(shq("hello world"), "'hello world'");
}

#[test]
fn shq_of_empty_text_is_empty_quotes() {
    assert_eq!(shq(""), "''");
}

#[test]
fn shq_escapes_single_quotes() {
    assert_eq!(shq("it's"), "'it'\\''s'");
    assert_eq!(shq("'"), "''\\'''");
}

#[test]
fn shq_leaves_shell_metacharacters_inside_quotes() {
    assert_eq!(shq("$(rm -rf /); `x` \"y\" \\z"), "'$(rm -rf /); `x` \"y\" \\z'");
}

#[test]
fn int_text_writes_decimal() {
    assert_eq!(int_text(0), "0");
    assert_eq!(int_text(7), "7");
    assert_eq!(int_text(1920), "1920");
    assert_eq!(int_text(-42), "-42");
    assert_eq!(int_text(i64::MAX), "9223372036854775807");
    assert_eq!(int_text(i64::MIN), "-9223372036854775808");
}

#[test]
fn trim_removes_unicode_white_space_at_both_ends() {
    assert_eq!(trim("  1920 1080\n"), "1920 1080");
    assert_eq!(trim("\u{3000}\tx y\u{a0}"), "x y");
    assert_eq!(trim("   "), "");
    assert_eq!(trim(""), "");
    assert_eq!(trim("a"), "a");
}

#[test]
fn is_blank_holds_only_for_white_space() {
    assert!(is_blank(""));
    assert!(is_blank(" \n\t\u{2003}"));
    assert!(!is_blank(" x "));
}

#[test]
fn same_text_compares_characters() {
    assert!(same_text("wait", "wait"));
    assert!(!same_text("wait", "waits"));
}

#[test]
fn shell_outcome_keeps_stdout_when_stderr_is_blank() {
    assert_eq!(shell_outcome(true, b"out\n", b"  \n"), (true, "out\n".to_string()));
}

#[test]
fn shell_outcome_puts_stderr_on_its_own_line() {
    assert_eq!(shell_outcome(false, b"out", b"err\n"), (false, "out\nerr\n".to_string()));
    assert_eq!(shell_outcome(false, b"out\n", b"err"), (false, "out\nerr".to_string()));
    assert_eq!(shell_outcome(false, b"", b"err"), (false, "err".to_string()));
}

#[test]
fn shell_outcome_decodes_invalid_utf8_leniently() {
    assert_eq!(shell_outcome(true, b"a\xffb", b""), (true, "a\u{fffd}b".to_string()));
}

#[test]
fn spawn_failure_names_the_reason() {
    assert_eq!(spawn_failure("no such file"), (false, "failed to spawn: no such file".to_string()));
}

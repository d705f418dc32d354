use genkit::shell::{escape_for_shell, export_line};

#[test]
fn test_escape_for_shell() {
    // Test basic string without quotes
    assert_eq!(escape_for_shell("hello"), "'hello'");

    // Test string with single quotes
    assert_eq!(escape_for_shell("hello'world"), "'hello'\"'\"'world'");

    // Test string with multiple single quotes
    assert_eq!(
        escape_for_shell("hello''world"),
        "'hello'\"'\"''\"'\"'world'"
    );

    // Test empty string
    assert_eq!(escape_for_shell(""), "''");

    // Test string with special characters
    assert_eq!(escape_for_shell("hello$world"), "'hello$world'");
}

#[test]
fn test_escape_for_shell_complex() {
    // Test string with double quotes
    assert_eq!(escape_for_shell("hello\"world"), "'hello\"world'");

    // Test string with mixed quotes
    assert_eq!(escape_for_shell("hello'\"world"), "'hello'\"'\"'\"world'");

    // Test string with spaces
    assert_eq!(escape_for_shell("hello world"), "'hello world'");

    // Test string with special shell characters
    assert_eq!(escape_for_shell("hello $world !@#"), "'hello $world !@#'");
}

#[test]
fn escape_only_quote_and_non_ascii() {
    assert_eq!(escape_for_shell("'"), "''\"'\"''");
    assert_eq!(escape_for_shell("钟表"), "'钟表'");
}

#[test]
fn export_line_for_entry() {
    assert_eq!(export_line("API_KEY", "a'b"), Some("export API_KEY='a'\"'\"'b'".to_string()));
    assert_eq!(export_line("EMPTY", ""), Some("export EMPTY=''".to_string()));
}

#[test]
fn export_line_skips_empty_key() {
    assert_eq!(export_line("", "value"), None);
}

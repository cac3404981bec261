//! Tokenizer scenarios, including comparisons against the shlex crate.

use testutils::os_cmd::Runner;
use testutils::os_cmd::lexer::shell_split;
use testutils::os_cmd::runner::remove_comments_and_collect;

#[test]
fn raw_text_scenario() {
    let argv = Runner::collect_raw("cargo +nightly fmt", true);
    assert_eq!(argv, ["cargo", "+nightly", "fmt"]);
}

#[test]
fn comment_line_scenario() {
    let argv = Runner::collect_raw("// comment\ncargo fmt", true);
    assert_eq!(argv, ["cargo", "fmt"]);
}

#[test]
fn comment_stripping_details() {
    assert_eq!(remove_comments_and_collect("  // c\nx"), "x");
    assert_eq!(remove_comments_and_collect("a\r\n// c\r\nb"), "ab");
    assert_eq!(remove_comments_and_collect("// only\n// comments"), "");
    assert_eq!(remove_comments_and_collect(""), "");
    assert_eq!(remove_comments_and_collect("cargo fmt"), "cargo fmt");
}

#[test]
fn multiline_raw_command() {
    let raw = r#"
    rustc
    --print target-list
  "#;
    let argv = Runner::collect_raw(raw, true);
    assert_eq!(argv, ["rustc", "--print", "target-list"]);
}

#[test]
fn quoting_rules() {
    let (toks, failed) = shell_split("echo \"a b\" 'c d' e\\ f");
    assert!(!failed);
    assert_eq!(toks, ["echo", "a b", "c d", "e f"]);

    let (toks, failed) = shell_split("a#b # trailing comment\nnext");
    assert!(!failed);
    assert_eq!(toks, ["a#b", "next"]);

    let (toks, failed) = shell_split("\"esc \\$ \\` \\\" \\\\ end\"");
    assert!(!failed);
    assert_eq!(toks, ["esc $ ` \" \\ end"]);

    let (toks, failed) = shell_split("''");
    assert!(!failed);
    assert_eq!(toks, [""]);
}

#[test]
fn unterminated_quote_drops_word() {
    let (toks, failed) = shell_split("ok \"unterminated");
    assert!(failed);
    assert_eq!(toks, ["ok"]);

    let (toks, failed) = shell_split("trailing\\");
    assert!(failed);
    assert!(toks.is_empty());
}

#[test]
fn agrees_with_shlex() {
    let inputs = [
        "cargo +nightly fmt",
        "echo \"a b\" 'c d' e\\ f",
        "a#b # comment\nnext",
        "  spaced\tout\ttokens  ",
        "\"esc \\$ \\` \\\" \\\\ x\" plain",
        "'single \" quote' end",
        "back\\\nslash-newline",
        "ok \"unterminated",
        "trailing\\",
        "",
        "# only a comment",
    ];
    for input in inputs {
        let (toks, failed) = shell_split(input);
        let mut lexer = shlex::Shlex::new(input);
        let expected: Vec<String> = lexer.by_ref().collect();
        assert_eq!(toks, expected, "tokens differ on {input:?}");
        assert_eq!(failed, lexer.had_error, "error flag differs on {input:?}");
    }
}

#[test]
fn unicode_whitespace_in_comment_test() {
    // The comment test trims Unicode whitespace, so a no-break space or an
    // ideographic space before `//` still makes the line a comment.
    assert_eq!(remove_comments_and_collect("\u{A0}// c\nx"), "x");
    assert_eq!(remove_comments_and_collect("\u{3000}// c\nx"), "x");
    // A slash pair split across content is not a comment.
    assert_eq!(remove_comments_and_collect("a / / b"), "a / / b");
}

#[test]
fn ascii_whitespace_trimming() {
    // Form feed and carriage return are ASCII whitespace; the tokenizer
    // itself splits only on space, tab and newline.
    let argv = Runner::collect_raw("\u{C}\r cargo fmt \r\u{C}", false);
    assert_eq!(argv, ["cargo", "fmt"]);

    // A no-break space is not ASCII whitespace: it stays in the token.
    let argv = Runner::collect_raw("a\u{A0}b", false);
    assert_eq!(argv, ["a\u{A0}b"]);
}

#[test]
fn metacharacters_stay_literal() {
    // No shell runs: pipes, logical operators and variables are plain tokens.
    let argv = Runner::collect_raw("echo $VAR | grep x && ls *.rs", false);
    assert_eq!(argv, ["echo", "$VAR", "|", "grep", "x", "&&", "ls", "*.rs"]);
}

use gemini_mcp::escape::windows_escape;

#[test]
fn escape_leaves_plain_text_alone() {
    assert_eq!(windows_escape("list the files in src"), "list the files in src");
    assert_eq!(windows_escape(""), "");
    assert_eq!(windows_escape("héllo wörld ✓"), "héllo wörld ✓");
}

#[test]
fn escape_doubles_backslashes() {
    assert_eq!(windows_escape("C:\\temp\\x"), "C:\\\\temp\\\\x");
}

#[test]
fn escape_marks_quotes() {
    assert_eq!(windows_escape("say \"hi\""), "say \\\"hi\\\"");
    assert_eq!(windows_escape("it's"), "it\\'s");
}

#[test]
fn escape_spells_out_control_characters() {
    assert_eq!(windows_escape("a\nb"), "a\\nb");
    assert_eq!(windows_escape("a\rb"), "a\\rb");
    assert_eq!(windows_escape("a\tb"), "a\\tb");
    assert_eq!(windows_escape("a\u{8}b"), "a\\bb");
    assert_eq!(windows_escape("a\u{c}b"), "a\\fb");
}

#[test]
fn escape_handles_every_special_character_at_once() {
    let input = "\\\"\n\r\t\u{8}\u{c}'";
    assert_eq!(windows_escape(input), "\\\\\\\"\\n\\r\\t\\b\\f\\'");
}

#[test]
fn escape_agrees_with_replacing_one_character_after_the_other() {
    let inputs = [
        "plain",
        "back\\slash and \"quotes\"",
        "line\nbreak\r\n\ttabbed",
        "\\n is not a newline",
        "'\\''",
        "\u{8}\u{c}\\b\\f",
    ];
    for input in inputs {
        let chained = input
            .replace('\\', "\\\\")
            .replace('"', "\\\"")
            .replace('\n', "\\n")
            .replace('\r', "\\r")
            .replace('\t', "\\t")
            .replace('\u{8}', "\\b")
            .replace('\u{c}', "\\f")
            .replace('\'', "\\'");
        assert_eq!(windows_escape(input), chained);
    }
}

#[test]
fn escape_never_shortens_and_at_most_doubles() {
    for input in ["", "abc", "\\\\\\", "a\"b'c\n"] {
        let out = windows_escape(input);
        let n = input.chars().count();
        let m = out.chars().count();
        assert!(n <= m && m <= 2 * n);
    }
}

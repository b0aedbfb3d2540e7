use gemini_mcp::args::build_args;

fn owned(items: &[&str]) -> Vec<String> {
    items.iter().map(|s| s.to_string()).collect()
}

#[test]
fn args_with_nothing_optional() {
    let args = build_args("hello", false, None, None, false);
    assert_eq!(args, owned(&["--prompt", "hello", "-o", "stream-json"]));
}

#[test]
fn args_with_sandbox() {
    let args = build_args("hello", true, None, None, false);
    assert_eq!(args, owned(&["--prompt", "hello", "-o", "stream-json", "--sandbox"]));
}

#[test]
fn args_with_everything_in_order() {
    let args = build_args("do it", true, Some("sess-1"), Some("gemini-pro"), false);
    assert_eq!(
        args,
        owned(&[
            "--prompt",
            "do it",
            "-o",
            "stream-json",
            "--sandbox",
            "--model",
            "gemini-pro",
            "--resume",
            "sess-1",
        ])
    );
}

#[test]
fn args_skip_empty_model_and_session() {
    let args = build_args("p", false, Some(""), Some(""), false);
    assert_eq!(args, owned(&["--prompt", "p", "-o", "stream-json"]));
}

#[test]
fn args_with_session_only() {
    let args = build_args("p", false, Some("abc123"), None, false);
    assert_eq!(args, owned(&["--prompt", "p", "-o", "stream-json", "--resume", "abc123"]));
}

#[test]
fn args_with_model_only() {
    let args = build_args("p", false, None, Some("m"), false);
    assert_eq!(args, owned(&["--prompt", "p", "-o", "stream-json", "--model", "m"]));
}

#[test]
fn args_pass_the_prompt_through_where_no_escaping_is_needed() {
    let prompt = "say \"hi\"\nand 'bye' \\ done";
    let args = build_args(prompt, false, None, None, false);
    assert_eq!(args[1], prompt);
}

#[test]
fn args_escape_the_prompt_where_the_platform_needs_it() {
    let args = build_args("say \"hi\"\nnow", false, None, None, true);
    assert_eq!(args[1], "say \\\"hi\\\"\\nnow");
    assert_eq!(args.len(), 4);
}

#[test]
fn args_never_escape_model_or_session() {
    let args = build_args("p", false, Some("a\"b"), Some("m'n"), true);
    assert_eq!(args[5], "m'n");
    assert_eq!(args[7], "a\"b");
}

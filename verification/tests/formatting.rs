use housebot::answer::prepare_answer;
use housebot::formatting::{
    append_tool_summary, extract_code_files, hint_text, lang_ext, split_text, tool_hint,
};
use housebot::redaction::SecretRedactor;

#[test]
fn split_short_text_single_chunk() {
    assert_eq!(split_text("hello", 2000), vec!["hello"]);
}

#[test]
fn split_exact_limit_not_split() {
    let text = "a".repeat(2000);
    assert_eq!(split_text(&text, 2000), vec![text.clone()]);
}

#[test]
fn split_over_limit_on_newline() {
    let text = format!("{}\n{}", "a".repeat(1900), "b".repeat(200));
    let chunks = split_text(&text, 2000);
    assert_eq!(chunks.len(), 2);
    assert!(chunks.iter().all(|c| c.chars().count() <= 2000));
    assert_eq!(chunks.concat(), text.replacen('\n', "", 1));
}

#[test]
fn split_over_limit_no_newline() {
    let text = "x".repeat(2500);
    let chunks = split_text(&text, 2000);
    assert_eq!(chunks, vec!["x".repeat(2000), "x".repeat(500)]);
}

#[test]
fn split_multiple_chunks() {
    let text = vec!["a".repeat(1999); 3].join("\n");
    let chunks = split_text(&text, 2000);
    assert_eq!(chunks.len(), 3);
    assert!(chunks.iter().all(|c| c.chars().count() <= 2000));
}

#[test]
fn split_empty_string() {
    assert_eq!(split_text("", 2000), vec![""]);
}

#[test]
fn split_custom_limit() {
    let chunks = split_text("hello\nworld", 6);
    assert_eq!(chunks, vec!["hello", "world"]);
}

#[test]
fn tool_summary_lists_tools_in_call_order() {
    let summary = append_tool_summary("answer", &vec!["web_search".into(), "translate".into()]);
    assert!(summary.ends_with("🛠️ **Tools used:** `web_search`, `translate`"));
}

#[test]
fn tool_summary_shows_none_when_no_tools_were_called() {
    assert!(append_tool_summary("answer", &vec![]).ends_with("🛠️ **Tools used:** none"));
}

#[test]
fn code_short_block_not_extracted() {
    let text = "Here:\n```python\nprint('hi')\n```";
    let (modified, files) = extract_code_files(text);
    assert!(files.is_empty());
    assert!(modified.contains("```"));
}

#[test]
fn code_large_block_extracted() {
    let code = "x = 1\n".repeat(200);
    let text = format!("Here:\n```python\n{code}```");
    let (modified, files) = extract_code_files(&text);
    assert_eq!(files.len(), 1);
    assert_eq!(files[0].0, "script_1.py");
    assert_eq!(files[0].1, code.as_bytes());
    assert!(!modified.contains("```"));
    assert!(modified.contains("script_1.py"));
}

#[test]
fn code_extension_from_language() {
    let code = "echo hi\n".repeat(150);
    let (_, files) = extract_code_files(&format!("```bash\n{code}```"));
    assert!(files[0].0.ends_with(".sh"));
}

#[test]
fn code_unknown_language_txt() {
    let code = "blah\n".repeat(200);
    let (_, files) = extract_code_files(&format!("```brainfuck\n{code}```"));
    assert!(files[0].0.ends_with(".txt"));
}

#[test]
fn code_unclosed_block_still_extracted() {
    let code = "x = 1\n".repeat(200);
    let (modified, files) = extract_code_files(&format!("```python\n{code}"));
    assert_eq!(files.len(), 1);
    assert!(modified.contains("script_1.py"));
}

#[test]
fn code_multiple_blocks_numbered() {
    let code = "x = 1\n".repeat(200);
    let (_, files) = extract_code_files(&format!("```python\n{code}```\n```bash\n{code}```"));
    assert_eq!(files.len(), 2);
    assert_eq!(files[0].0, "script_1.py");
    assert_eq!(files[1].0, "script_2.sh");
}

#[test]
fn code_mixed_small_and_large() {
    let small = "print('hi')\n";
    let large = "x = 1\n".repeat(200);
    let (modified, files) =
        extract_code_files(&format!("```python\n{small}```\n```python\n{large}```"));
    assert_eq!(files.len(), 1);
    assert!(modified.contains("script_1.py"));
    assert!(modified.contains("```python"));
}

#[test]
fn redact_known_secret() {
    let r = SecretRedactor::from_vars(vec![(
        "MY_SECRET_TOKEN".into(),
        "super-secret-token-abc123xyz".into(),
    )]);
    let out = r.redact("The token is super-secret-token-abc123xyz");
    assert!(!out.contains("super-secret-token-abc123xyz"));
    assert!(out.contains("[REDACTED]"));
}

#[test]
fn redact_non_secret_env_not_redacted() {
    let r = SecretRedactor::from_vars(vec![("MY_NAME".into(), "alice-longenough".into())]);
    assert_eq!(r.redact("hello alice-longenough"), "hello alice-longenough");
}

#[test]
fn redact_short_value_not_redacted() {
    let r = SecretRedactor::from_vars(vec![("MY_TOKEN".into(), "abc".into())]);
    assert_eq!(r.redact("abc"), "abc");
}

#[test]
fn redact_multiple_secrets() {
    let r = SecretRedactor::from_vars(vec![
        ("BOT_TOKEN".into(), "discord-token-xyz987".into()),
        ("JELLYFIN_API_KEY".into(), "jellyfin-api-key-456def".into()),
    ]);
    let out = r.redact("token=discord-token-xyz987 key=jellyfin-api-key-456def");
    assert!(!out.contains("discord-token-xyz987"));
    assert!(!out.contains("jellyfin-api-key-456def"));
    assert_eq!(out.matches("[REDACTED]").count(), 2);
}

#[test]
fn redact_text_without_secrets_unchanged() {
    let r = SecretRedactor::from_vars(Vec::new());
    assert_eq!(
        r.redact("hello world, no secrets here"),
        "hello world, no secrets here"
    );
}

// ------------------------------------------------------------------- edge cases

#[test]
fn a_break_in_front_is_no_place_to_cut() {
    assert_eq!(split_text("\nabcdef", 4), vec!["\nabc", "def"]);
    assert_eq!(split_text("äöü\nß", 4), vec!["äöü", "ß"]);
}

#[test]
fn extensions_follow_the_language() {
    assert_eq!(lang_ext("python"), "py");
    assert_eq!(lang_ext("shell"), "sh");
    assert_eq!(lang_ext("rust"), "rs");
    assert_eq!(lang_ext("json"), "json");
    assert_eq!(lang_ext(""), "txt");
}

#[test]
fn an_inline_fence_opens_no_block() {
    let text = format!("```not a block``` {}", "x".repeat(2000));
    let (modified, files) = extract_code_files(&text);
    assert!(files.is_empty());
    assert_eq!(modified, text);
}

#[test]
fn code_is_cut_out_exactly() {
    let code = "y".repeat(1000);
    let (modified, files) = extract_code_files(&format!("a\n```js\n{code}```\nb"));
    assert_eq!(modified, "a\n📎 `script_1.js`\nb");
    assert_eq!(files, vec![("script_1.js".to_string(), code.into_bytes())]);
}

#[test]
fn an_answer_leaves_out_secrets_in_text_and_files() {
    let secret = "hunter2hunter2";
    let redactor = SecretRedactor::from_vars(vec![("DB_PASSWORD".into(), secret.into())]);
    let code = format!("{secret}\n").repeat(100);
    let prepared = prepare_answer(
        &format!("It is {secret}.\n```python\n{code}```"),
        &vec!["recall".to_string()],
        &redactor,
    );
    assert!(!prepared.text.contains(secret));
    assert_eq!(
        prepared.text,
        "It is [REDACTED].\n📎 `script_1.py`\n\n🛠️ **Tools used:** `recall`"
    );
    assert_eq!(prepared.files.len(), 1);
    assert_eq!(prepared.files[0].0, "script_1.py");
    assert_eq!(prepared.files[0].1, "[REDACTED]\n".repeat(100));
}

#[test]
fn one_odd_secret_leaves_the_others_redacted() {
    let redactor = SecretRedactor::from_vars(vec![
        ("BOT_TOKEN".into(), "hunter2hunter2".into()),
        ("DB_PASSWORD".into(), "p[ssw0rd1".into()),
    ]);
    let text = redactor.redact("a hunter2hunter2 b p[ssw0rd1 c");
    assert_eq!(text, "a [REDACTED] b [REDACTED] c");
}

#[test]
fn secrets_of_many_lines_stay_out_of_answers() {
    let key = "-----BEGIN KEY-----\nabc\ndef\n-----END KEY-----";
    let redactor = SecretRedactor::from_vars(vec![("PRIVATE_KEY".into(), key.into())]);
    let prepared = prepare_answer(&format!("here:\n{key}\n"), &vec![], &redactor);
    assert_eq!(
        prepared.text,
        "here:\n[REDACTED]\n\n\n🛠️ **Tools used:** none"
    );
}

// ----------------------------------------------------------------------- hints

#[test]
fn hint_run_skill_with_name_and_input() {
    let h = tool_hint("run_skill", r#"{"name": "summarize", "input": "some text"}"#);
    assert!(h.contains("summarize"));
    assert!(h.contains("some text"));
}

#[test]
fn hint_run_skill_no_name() {
    assert_eq!(tool_hint("run_skill", r#"{"input": "some text"}"#), "");
}

#[test]
fn hint_falls_back_to_query() {
    assert!(tool_hint("web_search", r#"{"query": "latest news"}"#).contains("latest news"));
}

#[test]
fn hint_falls_back_to_task() {
    assert!(tool_hint("some_tool", r#"{"task": "write a script"}"#).contains("write a script"));
}

#[test]
fn hint_long_value_truncated() {
    let arguments = format!(r#"{{"task": "{}"}}"#, "x".repeat(200));
    let h = tool_hint("some_tool", &arguments);
    assert!(h.chars().count() <= 85);
    assert_eq!(h, format!("{}…", "x".repeat(80)));
}

#[test]
fn hint_unknown_tool_no_known_key() {
    assert_eq!(tool_hint("some_tool", r#"{"foo": "bar"}"#), "");
}

#[test]
fn hint_multiline_flattened() {
    let h = tool_hint("some_tool", r#"{"task": "line1\nline2"}"#);
    assert!(!h.contains('\n'));
    assert_eq!(h, "line1 line2");
}

#[test]
fn hints_follow_the_arguments() {
    assert_eq!(
        hint_text("run_skill", Some("sum"), Some("a\nb"), Some("q"), None),
        "sum: a b"
    );
    assert_eq!(hint_text("run_skill", Some("sum"), None, None, None), "sum");
    assert_eq!(hint_text("other", Some("n"), None, Some("q"), Some("t")), "q");
    let full = "y".repeat(80);
    assert_eq!(hint_text("other", None, None, Some(&full), None), full);
    assert_eq!(tool_hint("other", "no object"), "");
}

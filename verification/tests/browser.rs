use imoocs::batch::{check_batch, final_url, BatchBuilder, BatchOutcome, LoadKind, OutcomeResult, Target};
use imoocs::error::BrowserError;
use imoocs::js::{click_submit_js, fill_value_js, js_string, open_problem_js};
use imoocs::session::FakeBrowserSession;
use imoocs::slide_url::build_slide_url;
use imoocs::snapshot::{RefInfo, Snapshot};

fn outcome(command: &[&str], success: bool, error: Option<&str>, url: Option<&str>) -> BatchOutcome {
    BatchOutcome {
        command: command.iter().map(|s| s.to_string()).collect(),
        error: error.map(|e| e.to_string()),
        result: url.map(|u| OutcomeResult { url: Some(u.to_string()), text: None, number: None }),
        success,
    }
}

fn snapshot(refs: &[(&str, &str, &str)]) -> Snapshot {
    Snapshot {
        snapshot: String::new(),
        refs: refs
            .iter()
            .map(|(k, role, name)| (k.to_string(), RefInfo { role: role.to_string(), name: name.to_string() }))
            .collect(),
        origin: None,
    }
}

#[test]
fn target_ref_normalization() {
    assert_eq!(Target::Ref("e2".into()).as_token(), "@e2");
    assert_eq!(Target::Ref("@e2".into()).as_token(), "@e2");
    assert_eq!(Target::Css("input#id".into()).as_token(), "input#id");
}

#[test]
fn batch_builder_open_wait_pdf() {
    let mut b = BatchBuilder::new();
    b.set_viewport(1280, 720)
        .open("https://example.com")
        .wait_load(LoadKind::NetworkIdle)
        .pdf("/tmp/out.pdf");
    let json = b.to_json().unwrap();
    assert!(json.contains("\"set\""));
    assert!(json.contains("\"viewport\""));
    assert!(json.contains("\"1280\""));
    assert!(json.contains("\"open\""));
    assert!(json.contains("\"https://example.com\""));
    assert!(json.contains("\"wait\""));
    assert!(json.contains("\"networkidle\""));
    assert!(json.contains("\"pdf\""));
    assert!(json.contains("/tmp/out.pdf"));
}

#[test]
fn batch_builder_fill_click() {
    let mut b = BatchBuilder::new();
    b.fill(&Target::Css("#username".into()), "alice")
        .fill(&Target::Css("#password".into()), "p@ss")
        .click(&Target::Css("#kc-login".into()));
    let cmds = b.build();
    assert_eq!(cmds.len(), 3);
    assert_eq!(cmds[0], vec!["fill", "#username", "alice"]);
    assert_eq!(cmds[1], vec!["fill", "#password", "p@ss"]);
    assert_eq!(cmds[2], vec!["click", "#kc-login"]);
}

#[test]
fn batch_json_is_an_array_of_string_arrays() {
    let mut b = BatchBuilder::new();
    b.open("https://example.com").wait_ms(250).get_url();
    assert_eq!(
        b.to_json().unwrap(),
        r#"[["open","https://example.com"],["wait","250"],["get","url"]]"#
    );
    let empty = BatchBuilder::new();
    assert_eq!(empty.to_json().unwrap(), "[]");
}

#[test]
fn batch_json_escapes_quotes_and_newlines() {
    let mut b = BatchBuilder::new();
    b.eval("say(\"hi\")\n");
    assert_eq!(b.to_json().unwrap(), r#"[["eval","say(\"hi\")\n"]]"#);
}

#[test]
fn batch_json_escape_table_and_round_trip() {
    let mut b = BatchBuilder::new();
    b.eval("a\\b/\u{1}\u{8}\u{c}\t\r\u{7f}é'");
    let json = b.to_json().unwrap();
    assert_eq!(json, "[[\"eval\",\"a\\\\b/\\u0001\\b\\f\\t\\r\u{7f}é'\"]]");
    let back: Vec<Vec<String>> = serde_json::from_str(&json).unwrap();
    assert_eq!(back, b.build().to_vec());
}

#[test]
fn wait_commands_carry_their_timeout() {
    let mut b = BatchBuilder::new();
    b.wait_url("**/courses/**", 30_000)
        .wait_fn("document.body !== null", 5_000)
        .wait_text("Done", 1_000)
        .snapshot_scoped("#main")
        .state_save("/tmp/state.json");
    let cmds = b.build();
    assert_eq!(cmds[0], vec!["wait", "--url", "**/courses/**", "--timeout", "30000"]);
    assert_eq!(cmds[1], vec!["wait", "--fn", "document.body !== null", "--timeout", "5000"]);
    assert_eq!(cmds[2], vec!["wait", "--text", "Done", "--timeout", "1000"]);
    assert_eq!(cmds[3], vec!["snapshot", "-i", "-s", "#main"]);
    assert_eq!(cmds[4], vec!["state", "save", "/tmp/state.json"]);
}

#[test]
fn upload_lists_every_file_after_the_target() {
    let mut b = BatchBuilder::new();
    let files = vec!["/tmp/a.py".to_string(), "/tmp/b.txt".to_string()];
    b.upload(&Target::Ref("e7".into()), &files);
    assert_eq!(b.build()[0], vec!["upload", "@e7", "/tmp/a.py", "/tmp/b.txt"]);
}

#[test]
fn check_batch_reports_the_first_failed_step() {
    let outs = vec![
        outcome(&["open", "https://example.com"], true, None, Some("https://example.com")),
        outcome(&["snapshot"], false, Some("timeout"), None),
        outcome(&["get", "url"], false, Some("later"), None),
    ];
    match check_batch(&outs, "submit_answer") {
        Err(BrowserError::CommandFailed(m)) => {
            assert_eq!(m, r#"submit_answer: command #1 (["snapshot"]) failed: timeout"#)
        }
        other => panic!("expected CommandFailed, got {other:?}"),
    }
    let ok = vec![outcome(&["open", "x"], true, None, Some("x"))];
    assert!(check_batch(&ok, "op").is_ok());
}

#[test]
fn check_batch_without_error_text_says_unknown() {
    let outs = vec![outcome(&["click", "@e1"], false, None, None)];
    match check_batch(&outs, "op") {
        Err(BrowserError::CommandFailed(m)) => assert_eq!(m, r#"op: command #0 (["click", "@e1"]) failed: unknown"#),
        other => panic!("expected CommandFailed, got {other:?}"),
    }
}

#[test]
fn final_url_reads_the_last_outcome() {
    let outs = vec![
        outcome(&["open", "a"], true, None, Some("https://a")),
        outcome(&["get", "url"], true, None, Some("https://b")),
    ];
    assert_eq!(final_url(&outs), "https://b");
    assert_eq!(final_url(&Vec::new()), "");
}

#[test]
fn js_string_escapes_quote_backslash_newline() {
    assert_eq!(js_string("hello"), r#""hello""#);
    assert_eq!(js_string(r#"a"b"#), r#""a\"b""#);
    assert_eq!(js_string("a\\b"), r#""a\\b""#);
    assert_eq!(js_string("a\nb"), r#""a\nb""#);
    assert_eq!(js_string(""), r#""""#);
}

#[test]
fn js_string_escapes_control_characters() {
    assert_eq!(js_string("a\tb\rc"), r#""a\tb\rc""#);
    assert_eq!(js_string("\u{1}"), r#""\u0001""#);
}

#[test]
fn js_string_escapes_single_quote() {
    assert_eq!(js_string("it's"), r#""it\'s""#);
}

#[test]
fn fill_value_js_includes_all_args_and_handles_both_input_types() {
    let js = fill_value_js(
        r#".problem-container[data-urlprefix="/assignments/2026/INI301/ai-s01-assign1"]"#,
        "p01",
        "hello\nworld",
    );
    assert!(js.contains("p01"));
    assert!(js.contains("hello"));
    assert!(js.contains("\\n"), "newline should be escaped: {js}");
    assert!(js.contains("textarea"), "should target textarea: {js}");
    assert!(js.contains("input"), "should also target text input: {js}");
}

#[test]
fn open_problem_js_uses_start_answer_class() {
    let js = open_problem_js(r#".problem-container[data-urlprefix="/x"]"#);
    assert!(js.contains("start-answer"));
    assert!(js.contains("offsetParent"));
}

#[test]
fn click_submit_js_uses_submit_answer_class() {
    let js = click_submit_js(r#".problem-container[data-urlprefix="/x"]"#);
    assert!(js.contains("submit-answer"));
}

#[test]
fn build_slide_url_appends_when_no_query() {
    let got = build_slide_url("https://docs.google.com/presentation/d/e/abc/pubembed", 3);
    assert_eq!(got, "https://docs.google.com/presentation/d/e/abc/pubembed?slide=id.p3");
}

#[test]
fn build_slide_url_preserves_other_query_params() {
    let got = build_slide_url("https://docs.google.com/presentation/d/e/abc/pubembed?start=false&loop=false", 5);
    assert!(got.contains("start=false"));
    assert!(got.contains("loop=false"));
    assert!(got.contains("slide=id.p5"));
}

#[test]
fn build_slide_url_replaces_existing_slide_param() {
    let got = build_slide_url("https://docs.google.com/presentation/d/e/abc/pubembed?slide=id.p1&start=false", 7);
    assert!(got.contains("slide=id.p7"));
    assert!(!got.contains("slide=id.p1"));
    assert!(got.contains("start=false"));
}

#[test]
fn build_slide_url_exact_text_keeps_order_and_puts_slide_last() {
    let got = build_slide_url("https://x/pubembed?slide=id.p1&start=false&slide=id.p2&loop=true", 0);
    assert_eq!(got, "https://x/pubembed?start=false&loop=true&slide=id.p0");
}

#[test]
fn find_by_name_contains() {
    let snap = snapshot(&[("e1", "button", "続行"), ("e2", "heading", "本人確認")]);
    let (key, info) = snap.find_by_name_contains("続行").unwrap();
    assert_eq!(key, "e1");
    assert_eq!(info.role, "button");
}

#[test]
fn find_by_role_returns_first_match() {
    let snap = snapshot(&[("e1", "button", "Cancel"), ("e2", "textbox", "search")]);
    let result = snap.find_by_role("textbox");
    assert!(result.is_some());
    assert_eq!(result.unwrap().1.name, "search");
}

#[test]
fn find_by_role_prefers_the_earliest_reference() {
    let snap = snapshot(&[("e3", "textbox", "ユーザー名"), ("e4", "textbox", "パスワード"), ("e5", "button", "LOG IN")]);
    assert_eq!(snap.find_by_role("textbox").unwrap().0, "e3");
    assert!(snap.find_by_role("link").is_none());
    assert!(snap.find_by_name_contains("nothing").is_none());
}

#[test]
fn fake_session_navigate_and_current_url() {
    let mut fake = FakeBrowserSession::new();
    fake.navigate("https://example.com").unwrap();
    assert_eq!(fake.current_url().unwrap(), "https://example.com");
}

#[test]
fn fake_session_returns_fixture_snapshot() {
    let mut fake = FakeBrowserSession::new();
    fake.set_snapshot(snapshot(&[("e1", "button", "OK")]));
    let got = fake.snapshot_interactive(None).unwrap();
    assert_eq!(got.refs.len(), 1);
    assert_eq!(got.refs[0].1.name, "OK");
}

#[test]
fn fake_session_errors_when_no_snapshot_set() {
    let fake = FakeBrowserSession::new();
    let result = fake.snapshot_interactive(None);
    assert!(matches!(result, Err(BrowserError::Internal(_))));
}

#[test]
fn fake_session_batch_fixture_and_initial_url() {
    let mut fake = FakeBrowserSession::with_initial_url("https://start");
    assert_eq!(fake.current_url().unwrap(), "https://start");
    assert!(matches!(fake.run_batch("[]"), Err(BrowserError::Internal(_))));
    fake.set_batch_response(vec![outcome(&["get", "url"], true, None, Some("https://b"))]);
    let got = fake.run_batch("[]").unwrap();
    assert_eq!(got.len(), 1);
    assert_eq!(got[0].command, vec!["get", "url"]);
}

#[test]
fn build_slide_url_last_call_wins() {
    let base = "https://docs.google.com/presentation/d/e/abc/pubembed?start=false&slide=id.p1&loop=false";
    let once = build_slide_url(base, 3);
    assert_eq!(build_slide_url(&once, 5), build_slide_url(base, 5));
    assert_eq!(build_slide_url(&once, 3), once);
    let bare = "https://docs.google.com/presentation/d/e/abc/pubembed";
    assert_eq!(build_slide_url(&build_slide_url(bare, 2), 9), build_slide_url(bare, 9));
}

#[test]
fn snapshot_from_entries_keeps_each_id_once_with_its_last_info() {
    let entry = |k: &str, role: &str, name: &str| (k.to_string(), RefInfo { role: role.to_string(), name: name.to_string() });
    let snap = Snapshot::from_entries(
        "tree".to_string(),
        vec![entry("e1", "button", "Old"), entry("e2", "textbox", "Answer"), entry("e1", "link", "New")],
        Some("https://moocs.iniad.org".to_string()),
    );
    assert_eq!(snap.refs.len(), 2);
    assert_eq!(snap.refs[0].0, "e1");
    assert_eq!(snap.refs[0].1.role, "link");
    assert_eq!(snap.refs[0].1.name, "New");
    assert_eq!(snap.refs[1].0, "e2");
    assert_eq!(snap.snapshot, "tree");
    assert_eq!(snap.find_by_role("button").map(|(k, _)| k), None);
    assert_eq!(snap.find_by_role("link").map(|(k, _)| k), Some("e1"));
}

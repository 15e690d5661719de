use std::path::PathBuf;

use imoocs::assignment::{
    data_read_error, filter_listing, lesson_target_from_url, locate_from_url, make_page_url, page_url_from_list,
    pick_problem, push_listing, AssignmentKey, AssignmentSummary, DataSource, DerivedStatus, Lang, LangArg,
    MoocsPath, StatusFilter, UrlLocation,
};
use imoocs::auth_cmd::{
    after_daemon_google_login, after_daemon_moocs_login, forget_password_after, map_dialoguer_err, password_source,
    status_exit_code, DaemonLogin, PasswordSource,
};
use imoocs::auth_flow::{
    auth_save_args, continue_button_token, google_login_verdict, moocs_login_verdict, recovery_next, GoogleRecovery,
};
use imoocs::batch::{BatchOutcome, OutcomeResult};
use imoocs::cli_opts::lesson_fetches_slides;
use imoocs::doctor::doctor_exit_code;
use imoocs::error::{BrowserError, ImoocsError};
use imoocs::install::{binary_candidates, exe_name, first_found};
use imoocs::pages::{
    count_slides_batch, count_slides_verdict, drive_folder_page, drive_listing_verdict, fetch_page_verdict,
    screenshot_batch, screenshot_file_names, screenshot_verdict, DriveItem, DriveItemKind,
};
use imoocs::process::{dispatch_envelope, settle_output, AgentBrowser, Envelope, Stdout};
use imoocs::push_flow::{
    cleared_all_summary, file_label, is_draft_file, missing_draft_error, no_draft_error, page_url_or,
    push_step_error, staged_summary, staged_upload_summary, submitted_summary, unresolvable_file_error,
    uploaded_summary, PushStep,
};
use imoocs::session::{snapshot_args, url_or, BrowserSession};
use imoocs::setup::{completion_answer, mode_for_choice, with_confirm_mode, SkillInstallHint, StepReport};
use imoocs::confirm::{AssignmentConfig, Config, ConfirmMode};
use imoocs::skills::{report_from_files, should_write, ScopeArgs, SkillDetectionMethod};
use imoocs::snapshot::{RefInfo, Snapshot, SnapshotOpts};
use imoocs::submit::{submit_answer_batch, upload_file_batch};

fn outcome(command: &[&str], success: bool, error: Option<&str>, result: Option<OutcomeResult>) -> BatchOutcome {
    BatchOutcome {
        command: command.iter().map(|s| s.to_string()).collect(),
        error: error.map(|e| e.to_string()),
        result,
        success,
    }
}

fn url_result(u: &str) -> Option<OutcomeResult> {
    Some(OutcomeResult { url: Some(u.to_string()), text: None, number: None })
}

fn text_result(t: &str) -> Option<OutcomeResult> {
    Some(OutcomeResult { url: None, text: Some(t.to_string()), number: None })
}

fn summary(pid: &str, lesson: Option<&str>, page: &str, status: DerivedStatus) -> AssignmentSummary {
    AssignmentSummary {
        problem_id: pid.into(),
        lesson_id: lesson.map(|l| l.to_string()),
        page_id: page.into(),
        derived_status: status,
    }
}

// ---- locating assignments ----

#[test]
fn page_url_with_problem_id_needs_no_page_read() {
    let path = MoocsPath::Page { year: 2026, course_id: "CS101".into(), lesson_id: "L1".into(), page_id: "P1".into() };
    match locate_from_url(Some(path), Some("prob-a".into()), "u").unwrap() {
        UrlLocation::Resolved(k, u) => {
            assert_eq!((k.year, k.course_id.as_str(), k.problem_id.as_str()), (2026, "CS101", "prob-a"));
            assert_eq!(u, "https://moocs.iniad.org/courses/2026/CS101/L1/P1");
        }
        other => panic!("expected Resolved, got {other:?}"),
    }
    let lesson = MoocsPath::Lesson { year: 2026, course_id: "CS101".into(), lesson_id: "L1".into() };
    assert!(matches!(locate_from_url(Some(lesson), None, "u"), Ok(UrlLocation::NeedsPage { page_id: None, .. })));
    match locate_from_url(Some(MoocsPath::Year(2026)), None, "https://moocs.iniad.org/courses/2026") {
        Err(ImoocsError::Validation(m)) => {
            assert_eq!(m, "URL does not point to a lesson/page: https://moocs.iniad.org/courses/2026")
        }
        other => panic!("expected Validation, got {other:?}"),
    }
}

#[test]
fn pick_problem_rules() {
    let one = vec!["p1".to_string()];
    let two = vec!["p1".to_string(), "p2".to_string()];
    let (k, u) = pick_problem(2026, "C", "L", "01", &one, None, "url").unwrap();
    assert_eq!(k.problem_id, "p1");
    assert_eq!(u, "https://moocs.iniad.org/courses/2026/C/L/01");
    match pick_problem(2026, "C", "L", "01", &two, None, "url") {
        Err(ImoocsError::Validation(m)) => {
            assert_eq!(m, "page has 2 assignments; pass --problem-id explicitly (one of: p1, p2)")
        }
        other => panic!("expected Validation, got {other:?}"),
    }
    match pick_problem(2026, "C", "L", "01", &two, Some("p9".into()), "url") {
        Err(ImoocsError::NotFound { what }) => assert_eq!(what, "problem_id `p9` not on page url (found: p1, p2)"),
        other => panic!("expected NotFound, got {other:?}"),
    }
    assert_eq!(pick_problem(2026, "C", "L", "01", &two, Some("p2".into()), "url").unwrap().0.problem_id, "p2");
    match pick_problem(2026, "C", "L", "01", &Vec::new(), None, "url") {
        Err(ImoocsError::NotFound { what }) => assert_eq!(what, "no `.problem-container` on page url"),
        other => panic!("expected NotFound, got {other:?}"),
    }
}

#[test]
fn page_url_from_list_rules() {
    let key = AssignmentKey { year: 2026, course_id: "C".into(), problem_id: "p2".into() };
    let list = vec![
        summary("p1", Some("L1"), "01", DerivedStatus::Pending),
        summary("p2", Some("L2"), "03", DerivedStatus::Submitted),
    ];
    assert_eq!(page_url_from_list(&key, &list).unwrap(), "https://moocs.iniad.org/courses/2026/C/L2/03");
    match page_url_from_list(&key, &list[..1].to_vec()) {
        Err(ImoocsError::NotFound { what }) => assert_eq!(
            what,
            "problem_id `p2` not found in course `C` (year 2026); double-check the id or pass --url"
        ),
        other => panic!("expected NotFound, got {other:?}"),
    }
    let no_lesson = vec![summary("p2", None, "03", DerivedStatus::Pending)];
    assert!(matches!(page_url_from_list(&key, &no_lesson), Err(ImoocsError::Internal(_))));
}

#[test]
fn lesson_url_resolution() {
    let page = MoocsPath::Page { year: 2026, course_id: "INI301".into(), lesson_id: "AI-10".into(), page_id: "09".into() };
    let t = lesson_target_from_url(Some(page), "u").unwrap();
    assert_eq!(t.page_id.as_deref(), Some("09"));
    match lesson_target_from_url(None, "https://example.com") {
        Err(ImoocsError::Validation(m)) => assert_eq!(m, "URL does not point to a lesson or page: https://example.com"),
        other => panic!("expected Validation, got {other:?}"),
    }
    assert_eq!(make_page_url(2026, "A", "B", "C"), "https://moocs.iniad.org/courses/2026/A/B/C");
}

#[test]
fn listing_filters_by_lesson_and_status() {
    let list = vec![
        summary("p1", Some("L1"), "01", DerivedStatus::Pending),
        summary("p2", Some("L2"), "01", DerivedStatus::Submitted),
        summary("p3", Some("L1"), "02", DerivedStatus::Closed),
        summary("p4", None, "03", DerivedStatus::Pending),
    ];
    let open: Vec<String> = filter_listing(list.clone(), None, StatusFilter::Open).into_iter().map(|a| a.problem_id).collect();
    assert_eq!(open, vec!["p1", "p2", "p4"]);
    let l1: Vec<String> = filter_listing(list.clone(), Some("L1"), StatusFilter::All).into_iter().map(|a| a.problem_id).collect();
    assert_eq!(l1, vec!["p1", "p3"]);
    assert!(filter_listing(list, Some("L1"), StatusFilter::Graded).is_empty());
    assert_eq!(LangArg::En.to_lang(), Lang::En);
}

#[test]
fn push_listing_sorts_fields() {
    let (answers, files) = push_listing(
        &vec!["q2".into(), "q10".into(), "q1".into()],
        &vec![("b".into(), "x.txt".into()), ("a".into(), "y.txt".into())],
    );
    assert_eq!(answers, vec!["q1", "q10", "q2"]);
    assert_eq!(files, vec![("a".to_string(), "y.txt".to_string()), ("b".to_string(), "x.txt".to_string())]);
}

#[test]
fn data_read_errors_name_the_source() {
    match data_read_error(&DataSource::Stdin, "broken pipe") {
        ImoocsError::Validation(m) => assert_eq!(m, "cannot read stdin: broken pipe"),
        other => panic!("expected Validation, got {other:?}"),
    }
    match data_read_error(&DataSource::File("/tmp/a.json".into()), "No such file") {
        ImoocsError::Validation(m) => assert_eq!(m, "cannot read /tmp/a.json: No such file"),
        other => panic!("expected Validation, got {other:?}"),
    }
}

// ---- push, submit, upload, drafts texts ----

#[test]
fn push_step_errors_keep_the_draft_note() {
    match push_step_error(&PushStep::PutAnswers, ImoocsError::Api("boom".into()), "/d.json") {
        ImoocsError::Api(m) => assert!(m.ends_with("Draft retained at /d.json. Re-run `imoocs assignment push` to resume.")),
        other => panic!("expected Api, got {other:?}"),
    }
    match push_step_error(&PushStep::RemoveDraft, ImoocsError::Io("denied".into()), "/d.json") {
        ImoocsError::Io(m) => assert_eq!(m, "denied"),
        other => panic!("expected Io, got {other:?}"),
    }
}

#[test]
fn command_summaries() {
    assert_eq!(
        staged_summary("C", "P", 2, 1),
        "✓ C/P staged (answers=2, files=1) — `imoocs assignment push` で確定"
    );
    assert_eq!(submitted_summary("C", "P", 3, "Submitted"), "✓ C/P submitted (answers=3, status=Submitted)");
    assert_eq!(uploaded_summary("C", "P", "f1", "a.py"), "✓ C/P uploaded f1 (a.py)");
    assert_eq!(staged_upload_summary("C", "P", "f1"), "✓ C/P staged f1 — `imoocs assignment push` で確定");
    assert_eq!(cleared_all_summary(12), "✓ Cleared 12 draft(s)");
    assert_eq!(file_label(None), "file");
    assert_eq!(file_label(Some("a.py")), "a.py");
    assert_eq!(page_url_or(None, "looked-up".into()), "looked-up");
    assert_eq!(page_url_or(Some("hint".into()), "looked-up".into()), "hint");
    assert!(is_draft_file(Some("json")));
    assert!(!is_draft_file(Some("txt")));
    assert!(!is_draft_file(None));
}

#[test]
fn draft_error_messages() {
    let key = AssignmentKey { year: 2026, course_id: "C".into(), problem_id: "P".into() };
    match missing_draft_error(&key) {
        ImoocsError::NotFound { what } => {
            assert_eq!(what, "no draft staged for C/P. Run `imoocs assignment submit` or `upload` first.")
        }
        other => panic!("expected NotFound, got {other:?}"),
    }
    match no_draft_error(&key) {
        ImoocsError::NotFound { what } => assert_eq!(what, "no draft staged for C/P"),
        other => panic!("expected NotFound, got {other:?}"),
    }
    match unresolvable_file_error("a.py", "not found") {
        ImoocsError::Validation(m) => assert_eq!(m, "cannot resolve file path a.py: not found"),
        other => panic!("expected Validation, got {other:?}"),
    }
    assert_eq!(ImoocsError::NotFound { what: String::new() }.exit_code(), 4);
    assert_eq!(ImoocsError::NonPublic(String::new()).exit_code(), 8);
}

// ---- auth ----

#[test]
fn auth_decisions() {
    assert!(matches!(password_source(true, Some("x".into())), PasswordSource::Stdin));
    assert!(matches!(password_source(false, Some("x".into())), PasswordSource::Stored(ref p) if p == "x"));
    assert!(matches!(password_source(false, None), PasswordSource::Prompt));
    assert!(forget_password_after(&ImoocsError::Auth { message: "bad".into() }));
    assert!(!forget_password_after(&ImoocsError::Network("down".into())));
    assert!(matches!(map_dialoguer_err("eof"), ImoocsError::Internal(ref m) if m == "prompt failed: eof"));
    assert_eq!(status_exit_code(false), 2);
    assert_eq!(doctor_exit_code(true), 0);
}

#[test]
fn daemon_login_warnings() {
    assert!(matches!(after_daemon_moocs_login(Some(Ok(()))), DaemonLogin::ContinueWithGoogle));
    assert!(matches!(after_daemon_moocs_login(None), DaemonLogin::Stop(None)));
    match after_daemon_moocs_login(Some(Err("boom".into()))) {
        DaemonLogin::Stop(Some(w)) => assert!(w.starts_with("warning: agent-browser MOOCs login failed (boom); write 系")),
        other => panic!("expected a warning, got {other:?}"),
    }
    assert!(after_daemon_google_login(Some(Ok(()))).is_none());
    assert!(after_daemon_google_login(Some(Err("x".into()))).unwrap().ends_with("`imoocs auth login-google`"));
}

#[test]
fn browser_login_steps() {
    let args = auth_save_args("s1f1");
    assert_eq!(
        args,
        vec![
            "auth", "save", "moocs", "--url", "https://moocs.iniad.org/auth/iniad", "--username", "s1f1",
            "--password-stdin", "--username-selector", "#username", "--password-selector", "#password",
            "--submit-selector", "#kc-login",
        ]
    );
    let snap = Snapshot {
        snapshot: String::new(),
        refs: vec![
            ("e1".into(), RefInfo { role: "heading".into(), name: "本人確認".into() }),
            ("e2".into(), RefInfo { role: "button".into(), name: "続行".into() }),
        ],
        origin: None,
    };
    assert_eq!(continue_button_token(&snap).unwrap(), "@e2");
    let none = Snapshot { snapshot: String::new(), refs: Vec::new(), origin: None };
    assert!(matches!(continue_button_token(&none), Err(BrowserError::CommandFailed(ref m)) if m == "speedbump page does not have a `続行` button"));
    assert!(google_login_verdict("https://myaccount.google.com/?pli=1").is_ok());
    assert!(matches!(
        google_login_verdict("https://accounts.google.com/v3/signin/challenge/pwd"),
        Err(BrowserError::ChallengeRequired { ref current_url }) if current_url == "https://accounts.google.com/v3/signin/challenge/pwd"
    ));
    assert!(matches!(
        google_login_verdict("https://example.com"),
        Err(BrowserError::CommandFailed(ref m)) if m == "Google SAML did not complete, ended at https://example.com"
    ));
    assert!(moocs_login_verdict(true).is_ok());
    assert!(moocs_login_verdict(false).is_err());
    assert_eq!(recovery_next(GoogleRecovery::CheckGoogle, true), GoogleRecovery::Done);
    assert_eq!(recovery_next(GoogleRecovery::CheckGoogle, false), GoogleRecovery::CheckMoocs);
    assert_eq!(recovery_next(GoogleRecovery::CheckMoocs, false), GoogleRecovery::RestoreMoocs);
    assert_eq!(recovery_next(GoogleRecovery::RestoreMoocs, true), GoogleRecovery::LoginGoogle);
}

// ---- pages ----

#[test]
fn count_slides_reads_the_fourth_step() {
    let b = count_slides_batch("https://docs.google.com/presentation/d/e/x/pubembed");
    assert_eq!(b.build().len(), 5);
    let mut outs = vec![
        outcome(&["open", "u"], true, None, None),
        outcome(&["wait"], true, None, None),
        outcome(&["wait"], true, None, None),
        outcome(&["eval"], true, None, Some(OutcomeResult { url: None, text: None, number: Some(12) })),
        outcome(&["get", "url"], true, None, url_result("https://docs.google.com/x")),
    ];
    assert_eq!(count_slides_verdict(&outs).unwrap(), 12);
    outs[4] = outcome(&["get", "url"], true, None, url_result("https://accounts.google.com/signin"));
    assert!(matches!(
        count_slides_verdict(&outs),
        Err(BrowserError::CommandFailed(ref m)) if m == "Slides navigation redirected to Google sign-in; session expired"
    ));
    outs[4] = outcome(&["get", "url"], true, None, url_result("https://docs.google.com/x"));
    outs[1] = outcome(&["wait", "--load", "domcontentloaded"], false, Some("timeout"), None);
    assert!(matches!(
        count_slides_verdict(&outs),
        Err(BrowserError::CommandFailed(ref m)) if m == r#"count_slides: step ["wait", "--load", "domcontentloaded"] failed: timeout"#
    ));
}

#[test]
fn screenshot_plan_and_names() {
    let b = screenshot_batch("https://x/pubembed?slide=id.p1", 3, "/tmp/page_003.png");
    let cmds = b.build();
    assert_eq!(cmds[0], vec!["set", "viewport", "1280", "720"]);
    assert_eq!(cmds[1], vec!["open", "https://x/pubembed?slide=id.p3"]);
    assert_eq!(cmds[5], vec!["screenshot", "/tmp/page_003.png"]);
    let names = screenshot_file_names(3).unwrap();
    assert_eq!(names, vec!["page_001.png", "page_002.png", "page_003.png"]);
    assert!(screenshot_file_names(0).is_err());
    let outs = vec![outcome(&["get", "url"], true, None, url_result("https://accounts.google.com/x"))];
    assert!(matches!(
        screenshot_verdict(&outs, 4),
        Err(BrowserError::CommandFailed(ref m)) if m == "fetch_slide_screenshot(4): redirected to Google sign-in"
    ));
}

#[test]
fn drive_listing_and_page_fetch() {
    assert_eq!(drive_folder_page("root"), "https://drive.google.com/drive/my-drive");
    assert_eq!(drive_folder_page("abc"), "https://drive.google.com/drive/folders/abc");
    let outs = vec![
        outcome(&["open"], true, None, None),
        outcome(&["wait"], true, None, None),
        outcome(&["wait"], true, None, None),
        outcome(&["eval"], true, None, text_result("[]")),
        outcome(&["get", "url"], true, None, url_result("https://drive.google.com/drive/folders/abc")),
    ];
    assert_eq!(drive_listing_verdict(&outs).unwrap(), "[]");
    let item = DriveItem::from_row("id".into(), "n".into(), "t".into(), true);
    assert_eq!(item.kind, DriveItemKind::Folder);
    let page = vec![
        outcome(&["open"], true, None, None),
        outcome(&["wait"], true, None, None),
        outcome(&["eval"], true, None, text_result("<html></html>")),
        outcome(&["get", "url"], true, None, url_result("https://moocs.iniad.org/courses")),
    ];
    let p = fetch_page_verdict(&page).unwrap();
    assert_eq!((p.html.as_str(), p.final_url.as_str()), ("<html></html>", "https://moocs.iniad.org/courses"));
    assert!(matches!(fetch_page_verdict(&page[..2].to_vec()), Err(BrowserError::Internal(ref m)) if m == "fetch_page: missing eval result"));
}

#[test]
fn submit_and_upload_batches() {
    let answers = vec![("p1".to_string(), "a".to_string()), ("p2".to_string(), "b".to_string())];
    let b = submit_answer_batch("https://moocs.iniad.org/courses/2026/C/L/01", "/assignments/2026/C/p", &answers);
    let cmds = b.build();
    assert_eq!(cmds.len(), 12);
    assert_eq!(cmds[0], vec!["open", "https://moocs.iniad.org/courses/2026/C/L/01"]);
    assert_eq!(
        cmds[2],
        vec![
            "wait",
            "--fn",
            r#"document.querySelector('.problem-container[data-urlprefix="/assignments/2026/C/p"]') !== null"#,
            "--timeout",
            "30000"
        ]
    );
    assert!(cmds[5][1].contains(r#"var pid="p1""#));
    assert_eq!(cmds[11], vec!["close"]);
    let u = upload_file_batch("https://x", "/a", "f1", "/tmp/a.py");
    assert_eq!(
        u.build()[5],
        vec!["upload", r#".problem-container[data-urlprefix="/a"] input[type="file"][name="f1"]"#, "/tmp/a.py"]
    );
}

// ---- process ----

#[test]
fn every_invocation_names_the_session() {
    let agent = AgentBrowser::new(PathBuf::from("/usr/bin/agent-browser"), "imoocs").with_env("AGENT_BROWSER_DOWNLOAD_PATH", "/tmp/d");
    assert_eq!(agent.command_args(&vec!["get".into(), "url".into()]), vec!["--session-name", "imoocs", "--json", "get", "url"]);
    assert_eq!(agent.envs(), &[("AGENT_BROWSER_DOWNLOAD_PATH".to_string(), "/tmp/d".to_string())]);
    let session = BrowserSession::new(PathBuf::from("/bin/ab"));
    assert_eq!(session.agent().session_name(), "imoocs");
    assert_eq!(snapshot_args(Some("#main")), vec!["snapshot", "-i", "-s", "#main"]);
    assert_eq!(url_or(None, "fallback"), "fallback");
}

#[test]
fn envelopes_and_exit_status() {
    let ok: Envelope<u32> = Envelope { success: Some(true), data: Some(7), error: None };
    assert_eq!(dispatch_envelope(ok, 0).unwrap(), 7);
    let empty: Envelope<u32> = Envelope { success: Some(true), data: None, error: None };
    assert_eq!(dispatch_envelope(empty, 0).unwrap(), 0);
    let failed: Envelope<u32> = Envelope { success: Some(false), data: None, error: Some("no such ref".into()) };
    assert!(matches!(dispatch_envelope(failed, 0), Err(BrowserError::CommandFailed(ref m)) if m == "no such ref"));
    let silent: Envelope<u32> = Envelope { success: None, data: Some(1), error: None };
    assert!(matches!(dispatch_envelope(silent, 0), Err(BrowserError::CommandFailed(ref m)) if m == "unknown agent-browser error"));
    let bad = serde_json::from_str::<serde_json::Value>("not json").unwrap_err();
    assert!(matches!(
        settle_output::<u32>(false, Some(2), "crash".into(), Stdout::NotJson(bad), true, 0),
        Err(BrowserError::NonZeroExit { code: Some(2), ref stderr }) if stderr == "crash"
    ));
    let bad = serde_json::from_str::<serde_json::Value>("not json").unwrap_err();
    assert!(matches!(settle_output::<u32>(true, Some(0), String::new(), Stdout::NotJson(bad), true, 0), Err(BrowserError::Json(_))));
    let raw = settle_output(false, Some(1), String::new(), Stdout::Json(5u32, Envelope { success: None, data: None, error: None }), false, 0);
    assert_eq!(raw.unwrap(), 5);
}

// ---- setup, skills, install, misc ----

#[test]
fn setup_helpers() {
    assert_eq!(mode_for_choice(0), ConfirmMode::Confirm);
    assert_eq!(mode_for_choice(1), ConfirmMode::Auto);
    let cfg = Config { username: Some("u".into()), assignment: None, slides: None };
    let cfg = with_confirm_mode(cfg, ConfirmMode::Auto);
    assert_eq!(cfg.confirm_mode(), Some(ConfirmMode::Auto));
    assert_eq!(cfg.username.as_deref(), Some("u"));
    assert!(completion_answer(Ok(true)));
    assert!(!completion_answer(Err("eof".into())));
    let hint = SkillInstallHint::new("o/r", "s");
    assert_eq!(hint.command, "gh skill install o/r s");
    let step = StepReport::skipped("confirmMode", "already set to auto");
    assert_eq!(step.status.as_str(), "skipped");
    let keep = Config { username: None, assignment: Some(AssignmentConfig { confirm: None }), slides: None };
    assert_eq!(keep.confirm_mode(), None);
}

#[test]
fn skill_scope_and_writes() {
    let user = ScopeArgs { user: false, project: false };
    let project = ScopeArgs { user: false, project: true };
    assert_eq!(user.scope_label(), "user");
    assert_eq!(project.scope_label(), "project");
    assert_eq!(project.install_base("/work", "/home/u"), "/work");
    assert_eq!(user.install_base("/work", "/home/u"), "/home/u");
    assert!(should_write(false, false, None));
    assert!(!should_write(true, false, Some(true)));
    assert!(should_write(true, false, Some(false)));
    assert!(should_write(true, true, Some(true)));
    assert!(should_write(true, false, None));
    let r = report_from_files(true, false);
    assert_eq!(r.method, SkillDetectionMethod::Filesystem);
}

#[test]
fn binary_search_path() {
    assert_eq!(exe_name(true), "agent-browser.exe");
    let c = binary_candidates(&vec!["/usr/bin".into(), "/opt/bin/".into()], false);
    assert_eq!(c, vec!["/usr/bin/agent-browser", "/opt/bin/agent-browser"]);
    assert_eq!(first_found(&c, &vec![false, true]), Some("/opt/bin/agent-browser".to_string()));
    assert_eq!(first_found(&c, &vec![false, false]), None);
    assert!(lesson_fetches_slides(false, true));
    assert!(!lesson_fetches_slides(false, false));
    let opts = SnapshotOpts::new();
    assert!(!opts.interactive && opts.depth.is_none());
}

use imoocs::assignment::{data_source, decorate_push_err, drafts_clear_check, parse_data_text, DataSource};
use imoocs::auth_cmd::{choose_username, render_export, render_status, require_password, require_username, stdin_password};
use imoocs::cli_opts::{open_route, tracing_directives, OpenRoute, OutputMode, ShellArg, ShellKind};
use imoocs::confirm::{
    decide_push_precheck, decide_submit_gate, push_reply_verdict, resolve_submit_gate, slides_out_dir_value,
    AssignmentConfig, Config, ConfirmMode, PromptReply, PushAction, SlidesConfig, SubmitGate,
};
use imoocs::doctor::{quick_start_ready, render, CompletionStatus, DoctorReport, DriveFoldersSummary};
use imoocs::drive_target::{
    file_id_for_fetch, folder_id_for_list, parse_drive_target, render_folders, CourseDriveFolders, CourseFolder,
    DriveTarget, MatchStrategy,
};
use imoocs::error::ImoocsError;
use imoocs::skills::{combine_detection, has_suffix_component, report_from_gh_names, SkillDetectionMethod, SkillDetectionReport};

fn draft_path() -> &'static str {
    "/tmp/d.json"
}

fn empty_config() -> Config {
    Config { username: None, assignment: None, slides: None }
}

fn all_green() -> DoctorReport {
    DoctorReport {
        version: "test".into(),
        moocs_authenticated: true,
        google_authenticated: true,
        config_dir: "/c".into(),
        data_dir: "/d".into(),
        cache_dir: "/cache".into(),
        username: Some("u".into()),
        drive_folders: Some(DriveFoldersSummary { total: 3, resolved: 3, unresolved: 0 }),
        confirm_mode: Some(ConfirmMode::Auto),
        completion: Some(CompletionStatus {
            shell: "fish".into(),
            path: "/c/fish/completions/imoocs.fish".into(),
            installed: true,
        }),
        skills: SkillDetectionReport { method: SkillDetectionMethod::Gh, imoocs: true, imoocs_drive_setup: true },
        quick_start_complete: true,
    }
}

fn derive(r: &DoctorReport) -> bool {
    quick_start_ready(
        r.moocs_authenticated,
        r.google_authenticated,
        r.confirm_mode,
        &r.completion,
        r.drive_folders,
        r.skills,
    )
}

// ---- confirm gates ----

#[test]
fn decide_submit_gate_missing_is_error() {
    assert!(decide_submit_gate(None).is_err());
}

#[test]
fn decide_submit_gate_auto_is_direct() {
    assert_eq!(decide_submit_gate(Some(ConfirmMode::Auto)).unwrap(), SubmitGate::Direct);
}

#[test]
fn decide_submit_gate_confirm_is_stage() {
    assert_eq!(decide_submit_gate(Some(ConfirmMode::Confirm)).unwrap(), SubmitGate::Stage);
}

#[test]
fn decide_push_precheck_missing_is_error() {
    assert!(decide_push_precheck(None, true).is_err());
    assert!(decide_push_precheck(None, false).is_err());
}

#[test]
fn decide_push_precheck_non_tty_is_error() {
    assert!(decide_push_precheck(Some(ConfirmMode::Auto), false).is_err());
    assert!(decide_push_precheck(Some(ConfirmMode::Confirm), false).is_err());
}

#[test]
fn decide_push_precheck_tty_with_config_passes() {
    assert!(decide_push_precheck(Some(ConfirmMode::Auto), true).is_ok());
    assert!(decide_push_precheck(Some(ConfirmMode::Confirm), true).is_ok());
}

#[test]
fn push_action_prompt_contains_summary() {
    let answer_pids = vec!["p1".to_string(), "p2".to_string()];
    let file_pids = vec![("html".to_string(), "report.html".to_string())];
    let action = PushAction { course: "CS101", problem: "prob-a", answer_pids: &answer_pids, file_pids: &file_pids };
    let prompt = action.prompt_text();
    assert!(prompt.contains("CS101/prob-a"), "prompt should contain target: {prompt}");
    assert!(prompt.contains("answers=2"), "prompt should contain answers count: {prompt}");
    assert!(prompt.contains("files=1"), "prompt should contain files count: {prompt}");
    let detail = action.detail_text();
    assert!(detail.contains("CS101/prob-a"));
    assert!(detail.contains("p1"));
    assert!(detail.contains("p2"));
    assert!(detail.contains("html=report.html"));
}

#[test]
fn push_prompt_and_detail_exact_text() {
    let none: Vec<String> = Vec::new();
    let no_files: Vec<(String, String)> = Vec::new();
    let empty = PushAction { course: "C", problem: "P", answer_pids: &none, file_pids: &no_files };
    assert_eq!(empty.prompt_text(), "Push C/P? [empty]");
    assert_eq!(empty.detail_text(), "Push target: C/P\n  answers: -\n  files:   -");
    let files = vec![("a".to_string(), "x.py".to_string()), ("b".to_string(), "y.txt".to_string())];
    let only_files = PushAction { course: "C", problem: "P", answer_pids: &none, file_pids: &files };
    assert_eq!(only_files.prompt_text(), "Push C/P? [files=2]");
    assert_eq!(only_files.detail_text(), "Push target: C/P\n  answers: -\n  files:   a=x.py, b=y.txt");
}

#[test]
fn push_reply_only_yes_proceeds() {
    assert_eq!(push_reply_verdict(PromptReply::Yes).unwrap(), true);
    match push_reply_verdict(PromptReply::No) {
        Err(ImoocsError::Validation(m)) => assert!(m.starts_with("Push cancelled.")),
        other => panic!("expected Validation, got {other:?}"),
    }
    match push_reply_verdict(PromptReply::Interrupted) {
        Err(ImoocsError::Validation(m)) => assert!(m.contains("prompt interrupted")),
        other => panic!("expected Validation, got {other:?}"),
    }
    match push_reply_verdict(PromptReply::Failed("tty gone".into())) {
        Err(ImoocsError::Internal(m)) => assert_eq!(m, "prompt failed: tty gone"),
        other => panic!("expected Internal, got {other:?}"),
    }
}

#[test]
fn submit_without_confirm_config_emits_validation_error_with_hint() {
    let err = resolve_submit_gate(&empty_config()).unwrap_err();
    assert_eq!(err.exit_code(), 3);
    match err {
        ImoocsError::Validation(m) => assert!(m.contains("assignment.confirm"), "message should mention `assignment.confirm`: {m}"),
        other => panic!("expected Validation, got {other:?}"),
    }
}

#[test]
fn failure_envelope_is_a_single_json_object() {
    let err = resolve_submit_gate(&empty_config()).unwrap_err();
    assert!(matches!(err, ImoocsError::Validation(_)), "expected Validation for missing assignment.confirm config, got {err:?}");
    assert_eq!(err.exit_code(), 3);
}

#[test]
fn confirm_mode_in_config_decides_the_gate() {
    let cfg = Config {
        username: None,
        assignment: Some(AssignmentConfig { confirm: Some(ConfirmMode::Confirm) }),
        slides: None,
    };
    assert_eq!(resolve_submit_gate(&cfg).unwrap(), SubmitGate::Stage);
}

#[test]
fn slides_setting_precedence() {
    let mut cfg = empty_config();
    assert_eq!(slides_out_dir_value(None, &cfg), "tmp");
    cfg.slides = Some(SlidesConfig { out_dir: Some("cache".into()) });
    assert_eq!(slides_out_dir_value(None, &cfg), "cache");
    assert_eq!(slides_out_dir_value(Some("/srv/s"), &cfg), "/srv/s");
    cfg.slides = Some(SlidesConfig { out_dir: None });
    assert_eq!(slides_out_dir_value(None, &cfg), "tmp");
}

// ---- assignment ----

#[test]
fn decorate_api_keeps_code_and_appends_resume() {
    let decorated = decorate_push_err(ImoocsError::Api("boom".into()), draft_path());
    match decorated {
        ImoocsError::Api(msg) => {
            assert!(msg.contains("boom"));
            assert!(msg.contains("Draft retained at /tmp/d.json"));
            assert!(msg.contains("Re-run `imoocs assignment push`"));
        }
        other => panic!("expected Api, got {other:?}"),
    }
}

#[test]
fn decorate_network_keeps_code() {
    let decorated = decorate_push_err(ImoocsError::Network("down".into()), draft_path());
    assert!(matches!(decorated, ImoocsError::Network(ref m) if m.contains("down") && m.contains("Draft retained")));
}

#[test]
fn decorate_io_maps_to_validation() {
    let decorated = decorate_push_err(ImoocsError::Io("file gone".into()), draft_path());
    match decorated {
        ImoocsError::Validation(msg) => {
            assert!(msg.contains("local file I/O failed"));
            assert!(msg.contains("Draft retained"));
            assert!(msg.contains("staged file paths"));
        }
        other => panic!("expected Validation, got {other:?}"),
    }
}

#[test]
fn decorate_unrelated_passes_through() {
    let decorated = decorate_push_err(ImoocsError::NotFound { what: "x".into() }, draft_path());
    assert!(matches!(decorated, ImoocsError::NotFound { .. }));
}

#[test]
fn decorate_http_client_error_becomes_network() {
    match decorate_push_err(ImoocsError::Reqwest("timed out".into()), draft_path()) {
        ImoocsError::Network(m) => assert_eq!(
            m,
            "timed out Draft retained at /tmp/d.json. Re-run `imoocs assignment push` to resume."
        ),
        other => panic!("expected Network, got {other:?}"),
    }
}

#[test]
fn drafts_clear_without_args_emits_validation_error_listing_options() {
    let err = drafts_clear_check(false, false, false).unwrap_err();
    assert_eq!(err.exit_code(), 3);
    match err {
        ImoocsError::Validation(m) => assert!(m.contains("requires") && m.contains("--all"), "message should mention `requires` and `--all`: {m}"),
        other => panic!("expected Validation, got {other:?}"),
    }
    assert!(drafts_clear_check(true, false, false).is_ok());
    assert!(drafts_clear_check(false, true, true).is_ok());
    assert!(drafts_clear_check(false, true, false).is_err());
}

#[test]
fn submit_with_invalid_json_payload_emits_validation_error() {
    let err = parse_data_text("not-json").unwrap_err();
    assert_eq!(err.exit_code(), 3);
    match err {
        ImoocsError::Validation(m) => assert!(m.contains("invalid JSON in --data"), "expected `invalid JSON in --data`: {m}"),
        other => panic!("expected Validation, got {other:?}"),
    }
}

#[test]
fn data_must_be_a_json_object() {
    match parse_data_text("[1, 2]") {
        Err(ImoocsError::Validation(m)) => assert_eq!(m, "--data must be a JSON object mapping pid -> value"),
        other => panic!("expected Validation, got {other:?}"),
    }
    let members = parse_data_text("  {\"p2\": \"b\", \"p1\": 3}\n").unwrap();
    let keys: Vec<&str> = members.iter().map(|(k, _)| k.as_str()).collect();
    assert_eq!(keys, vec!["p1", "p2"]);
    assert_eq!(members[0].1, "3");
    assert_eq!(members[1].1, "\"b\"");
    let nested = parse_data_text("{\"p1\": {\"a\": [1, true, null]}, \"p2\": \"x\\ny\"}").unwrap();
    assert_eq!(nested, vec![("p1".to_string(), "{\"a\":[1,true,null]}".to_string()), ("p2".to_string(), "\"x\\ny\"".to_string())]);
}

#[test]
fn data_source_reads_prefixes() {
    assert!(matches!(data_source("-"), DataSource::Stdin));
    assert!(matches!(data_source("@/tmp/a.json"), DataSource::File(ref p) if p == "/tmp/a.json"));
    assert!(matches!(data_source("{}"), DataSource::Inline(ref t) if t == "{}"));
}

// ---- drive ----

#[test]
fn parses_file_view_url() {
    assert_eq!(
        parse_drive_target("https://drive.google.com/file/d/FAKE_DRIVE_FILE_ID_HIST_REDACT001/view?usp=drive_link"),
        DriveTarget::File("FAKE_DRIVE_FILE_ID_HIST_REDACT001".into())
    );
}

#[test]
fn parses_folder_url() {
    assert_eq!(
        parse_drive_target("https://drive.google.com/drive/folders/FAKE_DRIVE_FOLDER_ID_HIST_REDACT1"),
        DriveTarget::Folder("FAKE_DRIVE_FOLDER_ID_HIST_REDACT1".into())
    );
}

#[test]
fn parses_legacy_uc_url() {
    assert_eq!(
        parse_drive_target("https://drive.google.com/uc?export=download&id=1ABC_23"),
        DriveTarget::File("1ABC_23".into())
    );
}

#[test]
fn parses_id_first_uc_url() {
    assert_eq!(
        parse_drive_target("https://drive.google.com/uc?id=1ABC_23&export=download"),
        DriveTarget::File("1ABC_23".into())
    );
}

#[test]
fn parses_id_first_usercontent_url() {
    assert_eq!(
        parse_drive_target("https://drive.usercontent.google.com/download?id=1ABC_23"),
        DriveTarget::File("1ABC_23".into())
    );
}

#[test]
fn file_url_fragment_does_not_leak_into_id() {
    assert_eq!(
        parse_drive_target("https://drive.google.com/file/d/1ABC_23/view#junk"),
        DriveTarget::File("1ABC_23".into())
    );
}

#[test]
fn folder_url_fragment_does_not_leak_into_id() {
    assert_eq!(
        parse_drive_target("https://drive.google.com/drive/folders/1ABC_23#junk"),
        DriveTarget::Folder("1ABC_23".into())
    );
}

#[test]
fn parses_usercontent_url() {
    assert_eq!(
        parse_drive_target("https://drive.usercontent.google.com/download?id=1XYZ&export=download&confirm=t"),
        DriveTarget::File("1XYZ".into())
    );
}

#[test]
fn parses_bare_id_as_ambiguous() {
    assert_eq!(
        parse_drive_target("FAKE_DRIVE_FILE_ID_HIST_REDACT001"),
        DriveTarget::Ambiguous("FAKE_DRIVE_FILE_ID_HIST_REDACT001".into())
    );
}

#[test]
fn rejects_garbage() {
    assert_eq!(parse_drive_target("http://example.com/"), DriveTarget::Unrecognized);
}

#[test]
fn surrounding_whitespace_is_ignored_and_short_ids_are_not_bare() {
    assert_eq!(
        parse_drive_target("  https://drive.google.com/drive/folders/abc \n"),
        DriveTarget::Folder("abc".into())
    );
    assert_eq!(parse_drive_target("short_id"), DriveTarget::Unrecognized);
    assert_ne!(DriveTarget::File("a".into()), DriveTarget::Folder("a".into()));
}

#[test]
fn drive_list_with_file_url_is_validation_error() {
    let target = "https://drive.google.com/file/d/FAKE_DRIVE_FILE_ID_FOR_TESTS_0001/view";
    let err = folder_id_for_list(parse_drive_target(target), target).unwrap_err();
    assert_eq!(err.exit_code(), 3);
    match err {
        ImoocsError::Validation(m) => assert!(m.contains("drive fetch"), "should redirect user to `drive fetch`: {m}"),
        other => panic!("expected Validation, got {other:?}"),
    }
}

#[test]
fn drive_fetch_with_folder_url_is_validation_error() {
    let target = "https://drive.google.com/drive/folders/FAKE_DRIVE_FOLDER_ID_FOR_TESTS_0001";
    let err = file_id_for_fetch(parse_drive_target(target), target).unwrap_err();
    assert_eq!(err.exit_code(), 3);
    match err {
        ImoocsError::Validation(m) => assert!(m.contains("drive list"), "should redirect user to `drive list`: {m}"),
        other => panic!("expected Validation, got {other:?}"),
    }
}

#[test]
fn drive_list_unrecognized_target_is_validation_error() {
    let target = "http://example.com/not-a-drive-url";
    let err = folder_id_for_list(parse_drive_target(target), target).unwrap_err();
    assert_eq!(err.exit_code(), 3);
    match err {
        ImoocsError::Validation(m) => {
            assert!(m.contains("cannot recognise"), "expected target-parse error: {m}");
            assert_eq!(m, "cannot recognise Drive target: http://example.com/not-a-drive-url");
        }
        other => panic!("expected Validation, got {other:?}"),
    }
}

#[test]
fn bare_ids_go_to_both_list_and_fetch() {
    let id = "FAKE_DRIVE_FILE_ID_HIST_REDACT001";
    assert_eq!(folder_id_for_list(parse_drive_target(id), id).unwrap(), id);
    assert_eq!(file_id_for_fetch(parse_drive_target(id), id).unwrap(), id);
}

#[test]
fn drive_folders_with_clean_xdg_reports_not_registered() {
    let summary = DriveFoldersSummary { total: 0, resolved: 0, unresolved: 0 };
    let stdout = render_folders(&None, summary);
    assert!(stdout.contains("No course-drive-folders.toml"), "expected registration hint, got:\n{stdout}");
}

#[test]
fn drive_folders_table() {
    let cdf = CourseDriveFolders {
        drive_root_folder_id: "root1".into(),
        courses: vec![
            CourseFolder {
                year: 2026,
                course_id: "INI301".into(),
                name: "AI".into(),
                match_strategy: MatchStrategy::UserConfirmed,
                drive_folder_url: "https://drive.google.com/drive/folders/x".into(),
            },
            CourseFolder {
                year: 2026,
                course_id: "INI302".into(),
                name: "DS".into(),
                match_strategy: MatchStrategy::Unresolved,
                drive_folder_url: String::new(),
            },
        ],
    };
    let s = render_folders(&Some(cdf), DriveFoldersSummary { total: 2, resolved: 1, unresolved: 1 });
    assert_eq!(
        s,
        "Drive root: root1\n\nyear | courseId | name | strategy | url\n\
         2026 | INI301 | AI | user-confirmed | https://drive.google.com/drive/folders/x\n\
         2026 | INI302 | DS | unresolved | -\n\n2 courses (1 resolved, 1 unresolved)"
    );
    let empty = CourseDriveFolders { drive_root_folder_id: "r".into(), courses: Vec::new() };
    assert_eq!(
        render_folders(&Some(empty), DriveFoldersSummary { total: 0, resolved: 0, unresolved: 0 }),
        "Drive root: r\n(no courses registered)"
    );
}

// ---- skills ----

#[test]
fn has_suffix_component_matches_bare_name() {
    assert!(has_suffix_component("imoocs", "imoocs"));
}

#[test]
fn has_suffix_component_matches_owner_repo_skill() {
    assert!(has_suffix_component("rarandeyo/iniad-moocs-cli/imoocs", "imoocs"));
    assert!(has_suffix_component("rarandeyo/iniad-moocs-cli/imoocs-drive-setup", "imoocs-drive-setup"));
}

#[test]
fn has_suffix_component_rejects_partial() {
    assert!(!has_suffix_component("imoocs-drive-setup", "imoocs"));
    assert!(!has_suffix_component("my-imoocs", "imoocs"));
}

#[test]
fn has_suffix_component_edge_cases() {
    assert!(!has_suffix_component("owner/imoocs/", "imoocs"));
    assert!(has_suffix_component("", ""));
    assert!(!has_suffix_component("a/imoocs/b", "imoocs"));
}

#[test]
fn skills_are_found_by_name_and_gh_wins() {
    let names = vec!["someone/tools/other".to_string(), "rarandeyo/iniad-moocs-cli/imoocs".to_string()];
    let gh = report_from_gh_names(&names);
    assert_eq!(gh, SkillDetectionReport { method: SkillDetectionMethod::Gh, imoocs: true, imoocs_drive_setup: false });
    let fs = SkillDetectionReport { method: SkillDetectionMethod::Filesystem, imoocs: true, imoocs_drive_setup: true };
    assert_eq!(combine_detection(Some(gh), Some(fs)), gh);
    assert_eq!(combine_detection(None, Some(fs)), fs);
    assert_eq!(
        combine_detection(None, None),
        SkillDetectionReport { method: SkillDetectionMethod::Unknown, imoocs: false, imoocs_drive_setup: false }
    );
}

// ---- doctor ----

#[test]
fn all_green_is_complete() {
    let r = all_green();
    assert!(derive(&r));
}

#[test]
fn missing_confirm_mode_is_incomplete() {
    let mut r = all_green();
    r.confirm_mode = None;
    assert!(!derive(&r));
}

#[test]
fn completion_not_installed_is_incomplete() {
    let mut r = all_green();
    if let Some(c) = r.completion.as_mut() {
        c.installed = false;
    }
    assert!(!derive(&r));
}

#[test]
fn unresolved_drive_is_incomplete() {
    let mut r = all_green();
    r.drive_folders = Some(DriveFoldersSummary { total: 3, resolved: 2, unresolved: 1 });
    assert!(!derive(&r));
}

#[test]
fn missing_skill_is_incomplete() {
    let mut r = all_green();
    r.skills.imoocs_drive_setup = false;
    assert!(!derive(&r));
}

#[test]
fn render_all_green_shows_quick_start_line() {
    let r = all_green();
    let s = render(&r);
    assert!(s.contains("Quick start: ✓ 全項目クリア"));
}

#[test]
fn render_warn_shows_incomplete_line() {
    let mut r = all_green();
    r.quick_start_complete = false;
    r.confirm_mode = None;
    let s = render(&r);
    assert!(s.contains("⚠ assignment.confirm 未設定"));
    assert!(s.contains("Quick start: 未完了"));
}

#[test]
fn render_all_green_exact_text() {
    let s = render(&all_green());
    assert_eq!(
        s,
        "imoocs test\n  ✓ MOOCs login   (u)\n  ✓ Google SSO\n  ✓ assignment.confirm = auto\n\
         \x20 ✓ completion 配置済 (fish) /c/fish/completions/imoocs.fish\n  ✓ skill 検出 (gh 経由)\n\
         \x20 ✓ Drive folders (3 courses)\nPaths\n  config  /c\n  data    /d\n  cache   /cache\n\
         Quick start: ✓ 全項目クリア"
    );
}

#[test]
fn render_warnings_for_each_check() {
    let mut r = all_green();
    r.moocs_authenticated = false;
    r.username = None;
    r.completion = None;
    r.skills = SkillDetectionReport { method: SkillDetectionMethod::Filesystem, imoocs: true, imoocs_drive_setup: false };
    r.drive_folders = Some(DriveFoldersSummary { total: 4, resolved: 3, unresolved: 1 });
    let s = render(&r);
    assert!(s.contains("  ✗ MOOCs login   (-)\n"));
    assert!(s.contains("  ⚠ completion: shell 未検出"));
    assert!(s.contains("  ⚠ skill 一部未検出 (filesystem 経由): imoocs=✓, imoocs-drive-setup=✗\n"));
    assert!(s.contains("  ⚠ Drive folders 未解決 (1/4, `/imoocs-drive-setup` で紐付け)\n"));
    r.drive_folders = None;
    r.skills.method = SkillDetectionMethod::Unknown;
    let s = render(&r);
    assert!(s.contains("⚠ Drive folders 未登録"));
    assert!(s.contains("⚠ skill 未検出 — `gh skill install rarandeyo/iniad-moocs-cli {imoocs,imoocs-drive-setup}` で追加"));
}

#[test]
fn doctor_report_derives_its_verdict() {
    let g = all_green();
    let r = DoctorReport::new(
        g.version.clone(),
        true,
        false,
        g.config_dir.clone(),
        g.data_dir.clone(),
        g.cache_dir.clone(),
        None,
        g.drive_folders,
        g.confirm_mode,
        g.completion.clone(),
        g.skills,
    );
    assert!(!r.quick_start_complete);
    let r = DoctorReport::new(
        g.version.clone(),
        true,
        true,
        g.config_dir.clone(),
        g.data_dir.clone(),
        g.cache_dir.clone(),
        None,
        g.drive_folders,
        g.confirm_mode,
        g.completion.clone(),
        g.skills,
    );
    assert!(r.quick_start_complete);
    assert!(render(&r).ends_with("Quick start: ✓ 全項目クリア"));
}

// ---- auth ----

#[test]
fn username_argument_wins_over_config() {
    assert_eq!(choose_username(Some("a".into()), Some("b".into())), Some("a".to_string()));
    assert_eq!(choose_username(None, Some("b".into())), Some("b".to_string()));
    assert_eq!(choose_username(None, None), None);
}

#[test]
fn stdin_password_drops_trailing_line_breaks_only() {
    assert_eq!(stdin_password("secret\r\n"), "secret");
    assert_eq!(stdin_password("sec ret\n\n"), "sec ret");
    assert_eq!(stdin_password("\nsecret"), "\nsecret");
    assert_eq!(stdin_password("\r\n"), "");
}

#[test]
fn google_login_needs_username_and_password() {
    match require_username(None) {
        Err(ImoocsError::Validation(m)) => assert_eq!(m, "no stored username; run `imoocs auth login` first"),
        other => panic!("expected Validation, got {other:?}"),
    }
    match require_password(None) {
        Err(ImoocsError::Validation(m)) => assert_eq!(m, "no password in keyring; run `imoocs auth login` first"),
        other => panic!("expected Validation, got {other:?}"),
    }
    assert_eq!(require_username(Some("u".into())).unwrap(), "u");
}

#[test]
fn status_and_export_text() {
    assert_eq!(
        render_status(true, false, true, Some("s1"), "/k/cookies.json", "/c/config.toml"),
        "  ✓ MOOCs login        (s1)\n  ✗ Google SSO\n  ✓ password stored in keyring\nPaths\n  cookies  /k/cookies.json\n  config   /c/config.toml\n"
    );
    assert_eq!(render_export(None, false), "username: -\npassword: not stored\n");
    assert_eq!(
        render_export(Some("s1"), true),
        "username: s1\npassword: stored in OS keyring (never printed by this CLI)\n"
    );
}

// ---- global options ----

#[test]
fn tracing_level_follows_flags() {
    assert_eq!(tracing_directives(true, true, OutputMode::Json), "imoocs=debug,imoocs_core=debug");
    assert_eq!(tracing_directives(false, true, OutputMode::Json), "imoocs=error,imoocs_core=error");
    assert_eq!(tracing_directives(false, false, OutputMode::Json), "imoocs=info,imoocs_core=info");
    assert_eq!(tracing_directives(false, false, OutputMode::Text), "imoocs=warn,imoocs_core=warn");
}

#[test]
fn nushell_has_no_generator() {
    assert_eq!(ShellArg::Fish.to_shell(), Some(ShellKind::Fish));
    assert_eq!(ShellArg::Powershell.to_shell(), Some(ShellKind::PowerShell));
    assert_eq!(ShellArg::Nushell.to_shell(), None);
}

#[test]
fn open_refuses_unroutable_urls() {
    match open_route(None, "https://example.com") {
        Err(ImoocsError::Validation(m)) => assert_eq!(m, "not a MOOCs URL I can route: https://example.com"),
        other => panic!("expected Validation, got {other:?}"),
    }
    assert!(matches!(open_route(Some(imoocs::assignment::MoocsPath::Year(2026)), "u"), Ok(OpenRoute::Courses(2026))));
}

#[test]
fn drive_target_ignores_unicode_whitespace_around_it() {
    let id = "abcdefghijklmnopqrstuvwxyz0123";
    let padded = format!("\u{3000}\t {id}\u{a0}\n");
    assert!(parse_drive_target(&padded) == DriveTarget::Ambiguous(id.to_string()));
    assert!(parse_drive_target("\u{200b}abcdefghijklmnopqrstuvwxyz0123") == DriveTarget::Unrecognized);
}

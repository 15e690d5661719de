use std::path::Path;

use imoocs::assignment::AssignmentKey;
use imoocs::embeds::{next_deck, populate_slide_pdfs_from, record_fetch, Embed, FetchStatus, SlideFetchResult};
use imoocs::error::ImoocsError;
use imoocs::push_flow::{
    DraftPush, PushQueue, cleared_one_summary, push_label, push_result, push_steps, push_summary_text, push_targets, PushStep, StagedDraft,
};
use imoocs::reset::{
    after_plan, dry_run_outcome, AfterPlan, effective_scopes, is_safe_slides_dir, next_step, plan_targets, plan_text, reset_answer, reset_consent,
    reset_summary, Consent, Presence, ResetPaths, ResetStep, ResetTally, ResolvedScope, Scope, StepOutcome,
};
use imoocs::setup::{
    setup_exit_code, completion_install_gate, ConfirmModeOutcome, InstallGate, NextSteps, SetupFlow, SetupStep, StepStatus,
};
use imoocs::confirm::ConfirmMode;

fn s(p: &Path) -> &str {
    p.to_str().unwrap()
}

fn reset_paths() -> ResetPaths {
    ResetPaths {
        cookies_file: "/x/cache/imoocs/cookies.json".into(),
        config_file: "/x/config/imoocs/config.toml".into(),
        course_drive_folders_file: "/x/config/imoocs/course-drive-folders.toml".into(),
        drive_dir: "/x/cache/imoocs/drive".into(),
        slides_dir: "/x/cache/imoocs/slides".into(),
        cache_dir: "/x/cache/imoocs".into(),
        drafts_dir: "/x/state/imoocs/drafts".into(),
    }
}

fn nothing_present() -> Presence {
    Presence {
        cookies_file: false,
        config_file: false,
        course_drive_folders_file: false,
        drive_dir: false,
        slides_dir: false,
        drafts_dir: false,
    }
}

fn key(course: &str, problem: &str) -> AssignmentKey {
    AssignmentKey { year: 2026, course_id: course.into(), problem_id: problem.into() }
}

// ---- reset ----

#[test]
fn effective_scopes_empty_is_all() {
    let s = effective_scopes(&[]);
    assert_eq!(s.len(), 4);
    assert!(s.contains(&ResolvedScope::Auth));
    assert!(s.contains(&ResolvedScope::Config));
    assert!(s.contains(&ResolvedScope::Cache));
    assert!(s.contains(&ResolvedScope::Drafts));
}

#[test]
fn effective_scopes_all_includes_everything() {
    let s = effective_scopes(&[Scope::All]);
    assert_eq!(s.len(), 4);
}

#[test]
fn effective_scopes_multiple_deduped() {
    let s = effective_scopes(&[Scope::Auth, Scope::Cache, Scope::Auth]);
    assert_eq!(s.len(), 2);
    assert!(s.contains(&ResolvedScope::Auth));
    assert!(s.contains(&ResolvedScope::Cache));
    assert!(!s.contains(&ResolvedScope::Config));
}

#[test]
fn effective_scopes_single() {
    let s = effective_scopes(&[Scope::Drafts]);
    assert_eq!(s.len(), 1);
    assert!(s.contains(&ResolvedScope::Drafts));
}

#[test]
fn effective_scopes_keep_canonical_order() {
    assert_eq!(
        effective_scopes(&[Scope::Drafts, Scope::Auth, Scope::Drafts]),
        vec![ResolvedScope::Auth, ResolvedScope::Drafts]
    );
    assert_eq!(effective_scopes(&[Scope::Cache, Scope::All]).len(), 4);
}

#[test]
fn safe_slides_dir_accepts_cache_and_tmp() {
    let cache = Path::new("/home/u/.cache/imoocs");
    assert!(is_safe_slides_dir(s(&cache.join("slides")), s(cache)));
    assert!(is_safe_slides_dir("/tmp/imoocs/slides", s(cache)));
}

#[test]
fn safe_slides_dir_rejects_arbitrary_paths() {
    let cache = Path::new("/home/u/.cache/imoocs");
    assert!(!is_safe_slides_dir("/home/u/Documents/slides", s(cache)));
    assert!(!is_safe_slides_dir("/", s(cache)));
    assert!(!is_safe_slides_dir("/srv/slides", s(cache)));
}

#[test]
fn safe_slides_dir_compares_paths_not_text() {
    assert!(is_safe_slides_dir("/tmp/imoocs/slides/", "/home/u/.cache/imoocs"));
    assert!(is_safe_slides_dir("/home/u/.cache/imoocs/./slides", "/home/u/.cache/imoocs/"));
}

#[test]
fn scope_auth_without_username_succeeds() {
    let scopes = effective_scopes(&[Scope::Auth]);
    let targets = plan_targets(&scopes, None, &reset_paths(), nothing_present());
    assert_eq!(targets.len(), 1);
    let mut tally = ResetTally::new();
    for t in &targets {
        let step = next_step(tally.auth_failed, t);
        assert!(matches!(step, ResetStep::RemoveFile(_)));
        tally.record(&step, StepOutcome::Absent);
    }
    let (line, err) = reset_summary(&tally);
    assert!(err.is_none());
    assert_eq!(line, "Done. 0 removed, 1 skipped (not present).");
}

#[test]
fn plan_lists_groups_in_order_with_marks() {
    let scopes = effective_scopes(&[]);
    let mut present = nothing_present();
    present.config_file = true;
    present.drafts_dir = true;
    let targets = plan_targets(&scopes, Some("s1f102301392"), &reset_paths(), present);
    let labels: Vec<&str> = targets.iter().map(|t| t.label.as_str()).collect();
    assert_eq!(
        labels,
        vec![
            "keyring credential (user: s1f102301392)",
            "/x/cache/imoocs/cookies.json",
            "/x/config/imoocs/config.toml",
            "/x/config/imoocs/course-drive-folders.toml",
            "/x/cache/imoocs/cookies.json",
            "/x/cache/imoocs/drive",
            "/x/cache/imoocs/slides",
            "/x/state/imoocs/drafts",
        ]
    );
    assert_eq!(
        plan_text(&targets),
        "The following will be removed:\n\n  auth scope\n    ✓ keyring credential (user: s1f102301392)\n\
         \x20   · /x/cache/imoocs/cookies.json  (not present)\n\n  config scope\n    ✓ /x/config/imoocs/config.toml\n\
         \x20   · /x/config/imoocs/course-drive-folders.toml  (not present)\n\n  cache scope\n\
         \x20   · /x/cache/imoocs/cookies.json  (not present)\n    · /x/cache/imoocs/drive  (not present)\n\
         \x20   · /x/cache/imoocs/slides  (not present)\n\n  drafts scope\n    ✓ /x/state/imoocs/drafts\n"
    );
}

#[test]
fn cache_scope_refuses_unsafe_slides_dir() {
    let mut paths = reset_paths();
    paths.slides_dir = "/home/u/Documents/slides".into();
    let mut present = nothing_present();
    present.slides_dir = true;
    let targets = plan_targets(&effective_scopes(&[Scope::Cache]), None, &paths, present);
    let last = targets.last().unwrap();
    assert_eq!(last.label, "/home/u/Documents/slides (user-configured slides.out_dir)");
    let step = next_step(false, last);
    match &step {
        ResetStep::Refuse(p, reason) => {
            assert_eq!(p, "/home/u/Documents/slides");
            assert!(reason.contains("refusing to recursively delete"));
        }
        other => panic!("expected Refuse, got {other:?}"),
    }
    assert!(plan_text(&targets).contains("    ! /home/u/Documents/slides (user-configured slides.out_dir) (skip: outside"));
    let mut tally = ResetTally::new();
    tally.record(&step, StepOutcome::Removed);
    assert_eq!((tally.removed, tally.skipped, tally.errors), (0, 1, 0));
}

#[test]
fn keyring_failure_preserves_config_for_retry() {
    let scopes = effective_scopes(&[Scope::All]);
    let mut present = nothing_present();
    present.config_file = true;
    present.course_drive_folders_file = true;
    let targets = plan_targets(&scopes, Some("s1f102301392"), &reset_paths(), present);
    let mut tally = ResetTally::new();
    let mut kept = Vec::new();
    for t in &targets {
        let step = next_step(tally.auth_failed, t);
        let outcome = match &step {
            ResetStep::DeleteKeyring(u) => {
                assert_eq!(u, "s1f102301392");
                StepOutcome::Failed
            }
            ResetStep::KeepForRetry => {
                kept.push(t.label.clone());
                StepOutcome::Absent
            }
            ResetStep::RemoveFile(_) | ResetStep::RemoveDir(_) => StepOutcome::Absent,
            ResetStep::Refuse(_, _) => StepOutcome::Absent,
        };
        tally.record(&step, outcome);
    }
    assert_eq!(kept, vec!["/x/config/imoocs/config.toml", "/x/config/imoocs/course-drive-folders.toml"]);
    assert!(tally.auth_failed);
    assert_eq!(tally.removed + tally.skipped + tally.errors, targets.len());
    let (line, err) = reset_summary(&tally);
    assert_eq!(line, "Done with errors. 0 removed, 7 skipped (not present), 1 failed.");
    match err {
        Some(ImoocsError::Internal(m)) => assert_eq!(m, "reset: 1 item(s) failed"),
        other => panic!("expected Internal, got {other:?}"),
    }
}

#[test]
fn reset_consent_and_answer() {
    assert!(matches!(reset_consent(true, false), Consent::Given));
    assert!(matches!(reset_consent(false, true), Consent::Ask));
    match reset_consent(false, false) {
        Consent::Refused(e) => {
            assert_eq!(e.exit_code(), 3);
            assert!(matches!(e, ImoocsError::Validation(ref m) if m == "reset requires --yes in non-interactive mode"));
        }
        other => panic!("expected Refused, got {other:?}"),
    }
    assert!(reset_answer(Ok(true)).is_ok());
    assert!(matches!(reset_answer(Ok(false)), Err(ImoocsError::Validation(ref m)) if m == "reset aborted by user"));
    assert!(matches!(reset_answer(Err("eof".into())), Err(ImoocsError::Internal(ref m)) if m == "confirm prompt: eof"));
}

// ---- setup ----

#[test]
fn setup_steps_after_a_failure_are_skipped() {
    let mut flow = SetupFlow::new();
    assert_eq!(flow.gate(SetupStep::AuthLogin, false), None);
    flow.record_login(SetupStep::AuthLogin, Err(ImoocsError::Auth { message: "bad password".into() }));
    assert_eq!(flow.gate(SetupStep::AuthLoginGoogle, false), Some("prior step failed"));
    flow.record_skip(SetupStep::AuthLoginGoogle, "prior step failed");
    assert_eq!(flow.gate(SetupStep::ConfirmMode, false), Some("prior step failed"));
    flow.record_skip(SetupStep::ConfirmMode, "prior step failed");
    assert_eq!(flow.gate(SetupStep::CompletionInstall, false), Some("prior step failed"));
    flow.record_skip(SetupStep::CompletionInstall, "prior step failed");
    let (report, failure) = flow.finish();
    assert!(!report.all_ok);
    assert!(report.next_steps.is_none());
    assert_eq!(failure.unwrap().exit_code(), 2);
    let text = imoocs::setup::render_report(&report);
    assert_eq!(
        text,
        "[1/4] authLogin          ✗\n[2/4] authLoginGoogle    ⚠  skipped: prior step failed\n\
         [3/4] confirmMode        ⚠  skipped: prior step failed\n\
         [4/4] completionInstall  ⚠  skipped: prior step failed\n\n\
         Setup complete. `imoocs course list` から始められます。"
    );
}

#[test]
fn setup_steps_run_in_order_and_exit_code_follows_failure() {
    let mut flow = SetupFlow::new();
    assert_eq!(flow.next_step(), Some(SetupStep::AuthLogin));
    flow.record_login(SetupStep::AuthLogin, Ok("s1f1".into()));
    assert_eq!(flow.next_step(), Some(SetupStep::AuthLoginGoogle));
    flow.record_login(SetupStep::AuthLoginGoogle, Err(ImoocsError::Network("down".into())));
    assert_eq!(flow.next_step(), Some(SetupStep::ConfirmMode));
    flow.record_skip(SetupStep::ConfirmMode, "prior step failed");
    assert_eq!(flow.next_step(), Some(SetupStep::CompletionInstall));
    flow.record_skip(SetupStep::CompletionInstall, "prior step failed");
    assert_eq!(flow.next_step(), None);
    let (report, failure) = flow.finish();
    let names: Vec<&str> = report.steps.iter().map(|r| r.step.as_str()).collect();
    assert_eq!(names, vec!["authLogin", "authLoginGoogle", "confirmMode", "completionInstall"]);
    assert_eq!(setup_exit_code(&failure), 6);
    assert_eq!(setup_exit_code(&None), 0);
}

#[test]
fn setup_all_ok_suggests_next_steps() {
    let mut flow = SetupFlow::new();
    flow.record_login(SetupStep::AuthLogin, Ok("s1f1".into()));
    assert_eq!(flow.gate(SetupStep::AuthLoginGoogle, true), Some("--skip-google"));
    flow.record_skip(SetupStep::AuthLoginGoogle, "--skip-google");
    flow.record_confirm_mode(Ok(ConfirmModeOutcome::AlreadySet(ConfirmMode::Confirm)));
    flow.record_completion(Err(ImoocsError::Io("read-only".into())));
    let (report, failure) = flow.finish();
    assert!(failure.is_none());
    assert!(report.all_ok);
    assert_eq!(report.steps[3].status, StepStatus::Failed);
    let text = imoocs::setup::render_report(&report);
    assert_eq!(
        text,
        "[1/4] authLogin          ✓  (s1f1)\n[2/4] authLoginGoogle    ⚠  skipped: --skip-google\n\
         [3/4] confirmMode        ✓  skipped: already set to confirm\n[4/4] completionInstall  ✗\n\n\
         Setup complete.\n\n次のステップ (詳細は README の Quick start):\n  1. エージェント skill を 2 つ導入\n\
         \x20      $ gh skill install rarandeyo/iniad-moocs-cli imoocs\n\
         \x20      $ gh skill install rarandeyo/iniad-moocs-cli imoocs-drive-setup\n\
         \x20 2. agent 内で Drive フォルダを紐付け\n       /imoocs-drive-setup\n\
         \x20 3. 完了後 `imoocs doctor` を再実行して全項目 ✓ を確認\n       $ imoocs doctor"
    );
}

#[test]
fn setup_completion_details_and_gate() {
    let mut flow = SetupFlow::new();
    flow.record_confirm_mode(Ok(ConfirmModeOutcome::Configured(ConfirmMode::Auto)));
    flow.record_completion(Ok(("fish".into(), "/c/fish/completions/imoocs.fish".into(), false)));
    let (report, _) = flow.finish();
    let text = imoocs::setup::render_report(&report);
    assert!(text.starts_with("[1/2] confirmMode        ✓  (confirm=auto)\n[2/2] completionInstall  ✓  (fish, up to date)\n"));
    assert_eq!(completion_install_gate(true, false, false), InstallGate::Install);
    assert_eq!(completion_install_gate(false, false, true), InstallGate::Skip);
    assert_eq!(completion_install_gate(false, true, false), InstallGate::Skip);
    assert_eq!(completion_install_gate(false, true, true), InstallGate::Ask);
    let next = NextSteps::recommended();
    assert_eq!(next.skill_installs[1].command, "gh skill install rarandeyo/iniad-moocs-cli imoocs-drive-setup");
}

// ---- push ----

#[test]
fn push_steps_order_and_result() {
    let draft = StagedDraft {
        year: 2026,
        course_id: "INI301".into(),
        problem_id: "ai-10".into(),
        page_url: String::new(),
        answers_staged: true,
        answer_pids: vec!["p2".into(), "p1".into()],
        files: vec![("zz".into(), "/tmp/b.py".into()), ("aa".into(), "/tmp/a.py".into())],
    };
    let (steps, files) = push_steps(&draft);
    assert_eq!(files[0].0, "aa");
    let kinds: Vec<String> = steps
        .iter()
        .map(|s| match s {
            PushStep::ResolvePageUrl => "page".to_string(),
            PushStep::PutAnswers => "answers".to_string(),
            PushStep::PostFile(p, f) => format!("file {p} {f}"),
            PushStep::RemoveDraft => "remove".to_string(),
        })
        .collect();
    assert_eq!(kinds, vec!["page", "answers", "file aa /tmp/a.py", "file zz /tmp/b.py", "remove"]);
    let result = push_result(&draft, vec!["aa".into(), "zz".into()], Some("Submitted".into()));
    assert_eq!(result.answers_submitted_pids, vec!["p1", "p2"]);
    assert_eq!(
        push_summary_text(&vec![result.clone(), result]),
        "✓ INI301/ai-10 (answers=2, files=2, status=Submitted)\n✓ INI301/ai-10 (answers=2, files=2, status=Submitted)"
    );
}

#[test]
fn upload_only_draft_sends_no_answers() {
    let draft = StagedDraft {
        year: 2026,
        course_id: "C".into(),
        problem_id: "P".into(),
        page_url: "https://moocs.iniad.org/courses/2026/C/L/01".into(),
        answers_staged: false,
        answer_pids: vec!["p1".into()],
        files: vec![("f".into(), "/tmp/f".into())],
    };
    let (steps, _) = push_steps(&draft);
    assert_eq!(steps.len(), 2);
    assert!(matches!(steps[0], PushStep::PostFile(_, _)));
    assert!(push_result(&draft, vec!["f".into()], None).answers_submitted_pids.is_empty());
}

#[test]
fn push_targets_and_labels() {
    match push_targets(None, Vec::new()) {
        Err(ImoocsError::NotFound { what }) => {
            assert_eq!(what, "no draft staged. Run `imoocs assignment submit` or `upload` first.")
        }
        other => panic!("expected NotFound, got {other:?}"),
    }
    assert_eq!(push_targets(Some(key("C", "P")), vec![key("A", "B"), key("D", "E")]).unwrap().len(), 1);
    assert_eq!(push_targets(None, vec![key("A", "B"), key("D", "E")]).unwrap().len(), 2);
    assert_eq!(push_label(0, 2, &key("INI301", "ai-10-free")), "[1/2] INI301/ai-10-free");
    assert_eq!(cleared_one_summary("C", "P", false), "- No draft for C/P");
}

// ---- embeds ----

#[test]
fn populate_slide_pdfs_applies_fetch_results() {
    let mut embeds = vec![
        Embed::Iframe { src: "https://example.invalid/frame".into() },
        Embed::GoogleSlides {
            embed_url: "slide-a".into(),
            export_pdf_url: "https://example.invalid/export.pdf".into(),
            export_pptx_url: "https://example.invalid/export.pptx".into(),
            local_pdf_path: None,
            size_bytes: None,
            page_count: None,
            fetched_at: None,
            fetch_status: None,
        },
    ];
    let i = next_deck(&embeds, 0).unwrap();
    assert_eq!(i, 1);
    let res = SlideFetchResult {
        local_pdf_path: "/tmp/slide-a.pdf".into(),
        size_bytes: 42,
        page_count: 3,
        fetched_at: "2026-04-24T00:00:00Z".into(),
        from_cache: false,
    };
    record_fetch(&mut embeds, i, res, true);
    assert!(next_deck(&embeds, i + 1).is_none());
    assert!(matches!(embeds[0], Embed::Iframe { .. }));
    match &embeds[1] {
        Embed::GoogleSlides { local_pdf_path, size_bytes, page_count, fetched_at, fetch_status, .. } => {
            assert_eq!(local_pdf_path.as_deref(), Some("/tmp/slide-a.pdf"));
            assert_eq!(*size_bytes, Some(42));
            assert_eq!(*page_count, Some(3));
            assert_eq!(fetched_at.as_deref(), Some("2026-04-24T00:00:00Z"));
            assert_eq!(*fetch_status, Some(FetchStatus::Fetched));
        }
        other => panic!("expected google slides, got {other:?}"),
    }
}

fn slides_embed(url: &str) -> Embed {
    Embed::GoogleSlides {
        embed_url: url.into(),
        export_pdf_url: "https://example.invalid/export.pdf".into(),
        export_pptx_url: "https://example.invalid/export.pptx".into(),
        local_pdf_path: None,
        size_bytes: None,
        page_count: None,
        fetched_at: None,
        fetch_status: None,
    }
}

#[test]
fn populate_slide_pdfs_propagates_fetch_errors() {
    let mut embeds = vec![slides_embed("slide-a"), slides_embed("slide-b")];
    let replies = vec![
        Ok(SlideFetchResult {
            local_pdf_path: "/tmp/slide-a.pdf".into(),
            size_bytes: 7,
            page_count: 1,
            fetched_at: "2026-04-24T00:00:00Z".into(),
            from_cache: false,
        }),
        Err(ImoocsError::Network("network down".into())),
    ];
    let err = populate_slide_pdfs_from(&mut embeds, replies).expect_err("second fetch should fail");
    assert!(matches!(err, ImoocsError::Network(_)));
    match &embeds[0] {
        Embed::GoogleSlides { local_pdf_path, size_bytes, fetch_status, .. } => {
            assert_eq!(local_pdf_path.as_deref(), Some("/tmp/slide-a.pdf"));
            assert_eq!(*size_bytes, Some(7));
            assert_eq!(*fetch_status, Some(FetchStatus::Fetched));
        }
        other => panic!("expected google slides, got {other:?}"),
    }
    match &embeds[1] {
        Embed::GoogleSlides { local_pdf_path, size_bytes, fetch_status, .. } => {
            assert!(local_pdf_path.is_none());
            assert!(size_bytes.is_none());
            assert!(fetch_status.is_none());
        }
        other => panic!("expected google slides, got {other:?}"),
    }
}

#[test]
fn populate_slide_pdfs_run_passes_frames_and_applies_each_reply() {
    let mut embeds = vec![
        Embed::Iframe { src: "https://example.invalid/frame".into() },
        slides_embed("slide-a"),
    ];
    let replies = vec![Ok(SlideFetchResult {
        local_pdf_path: "/tmp/slide-a.pdf".into(),
        size_bytes: 42,
        page_count: 0,
        fetched_at: "2026-04-24T00:00:00Z".into(),
        from_cache: true,
    })];
    assert!(populate_slide_pdfs_from(&mut embeds, replies).is_ok());
    assert!(matches!(embeds[0], Embed::Iframe { .. }));
    match &embeds[1] {
        Embed::GoogleSlides { local_pdf_path, size_bytes, page_count, fetch_status, .. } => {
            assert_eq!(local_pdf_path.as_deref(), Some("/tmp/slide-a.pdf"));
            assert_eq!(*size_bytes, Some(42));
            assert_eq!(*page_count, None);
            assert_eq!(*fetch_status, Some(FetchStatus::Fetched));
        }
        other => panic!("expected google slides, got {other:?}"),
    }
}

#[test]
fn reset_dry_run_stops_after_plan() {
    assert!(matches!(after_plan(true, false, false), AfterPlan::DryRun));
    assert!(matches!(after_plan(true, true, true), AfterPlan::DryRun));
    assert!(matches!(after_plan(false, true, false), AfterPlan::Proceed(Consent::Given)));
    assert!(matches!(after_plan(false, false, true), AfterPlan::Proceed(Consent::Ask)));
    assert!(matches!(
        after_plan(false, false, false),
        AfterPlan::Proceed(Consent::Refused(ImoocsError::Validation(ref m))) if m == "reset requires --yes in non-interactive mode"
    ));
    assert_eq!(dry_run_outcome(), ("[dry-run] nothing removed.", 0));
}

#[test]
fn draft_push_stops_at_first_failed_step_and_keeps_the_draft() {
    let draft = StagedDraft {
        year: 2026,
        course_id: "INI301".into(),
        problem_id: "ai-10".into(),
        page_url: "https://moocs.iniad.org/courses/2026/INI301/ai-10/01".into(),
        answers_staged: true,
        answer_pids: vec!["p1".into()],
        files: vec![("f1".into(), "/tmp/a.py".into())],
    };
    let (steps, _files) = push_steps(&draft);
    let mut run = DraftPush::new(steps, "/x/drafts/ai-10.json".into());
    assert!(matches!(run.next_step(), Some(PushStep::PutAnswers)));
    run.record(Ok(()));
    assert!(matches!(run.next_step(), Some(PushStep::PostFile(_, _))));
    run.record(Err(ImoocsError::Network("down".into())));
    assert!(run.next_step().is_none());
    assert!(!run.completed());
    assert_eq!(run.done, 1);
    match &run.failure {
        Some(ImoocsError::Network(m)) => assert!(m.starts_with("down") && m.contains("/x/drafts/ai-10.json")),
        other => panic!("expected Network, got {other:?}"),
    }
    run.record(Ok(()));
    assert_eq!(run.done, 1);
}

#[test]
fn push_queue_stops_at_first_failed_draft() {
    let draft = StagedDraft {
        year: 2026,
        course_id: "INI301".into(),
        problem_id: "ai-10".into(),
        page_url: String::new(),
        answers_staged: false,
        answer_pids: vec![],
        files: vec![],
    };
    let mut q = PushQueue::new(3);
    assert_eq!(q.next_index(), Some(0));
    q.record(Ok(push_result(&draft, vec![], None)));
    assert_eq!(q.next_index(), Some(1));
    q.record(Err(ImoocsError::Api("boom".into())));
    assert_eq!(q.next_index(), None);
    q.record(Ok(push_result(&draft, vec![], None)));
    assert_eq!(q.results.len(), 1);
    assert!(matches!(q.finish(), Err(ImoocsError::Api(ref m)) if m == "boom"));
    let mut ok = PushQueue::new(1);
    ok.record(Ok(push_result(&draft, vec![], None)));
    assert_eq!(ok.next_index(), None);
    assert_eq!(ok.finish().unwrap().len(), 1);
}

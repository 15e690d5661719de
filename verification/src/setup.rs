//! `imoocs setup`: the four steps in order, what each reports, and the closing summary.
use vstd::prelude::*;
use crate::confirm::{AssignmentConfig, Config, ConfirmMode};
use crate::doctor::{confirm_name, confirm_str};
use crate::error::{exit_code_of, ImoocsError};
use crate::text::{decimal, seq_has_prefix, str_starts_with, u64_to_decimal};

verus! {

/// The steps of `setup`, in the order they run.
#[derive(Debug, Clone, Copy, PartialEq, Eq, Structural)]
pub enum SetupStep {
    AuthLogin,
    AuthLoginGoogle,
    ConfirmMode,
    CompletionInstall,
}

/// The name a step is reported under.
pub open spec fn step_name(s: SetupStep) -> Seq<char> {
    match s {
        SetupStep::AuthLogin => "authLogin"@,
        SetupStep::AuthLoginGoogle => "authLoginGoogle"@,
        SetupStep::ConfirmMode => "confirmMode"@,
        SetupStep::CompletionInstall => "completionInstall"@,
    }
}

impl SetupStep {
    pub fn name(self) -> (r: &'static str)
        ensures
            r@ == step_name(self),
    {
        proof {
            reveal_strlit("authLogin");
            reveal_strlit("authLoginGoogle");
            reveal_strlit("confirmMode");
            reveal_strlit("completionInstall");
        }
        match self {
            SetupStep::AuthLogin => "authLogin",
            SetupStep::AuthLoginGoogle => "authLoginGoogle",
            SetupStep::ConfirmMode => "confirmMode",
            SetupStep::CompletionInstall => "completionInstall",
        }
    }
}

/// How a step ended.
#[derive(Debug, Clone, Copy, PartialEq, Eq, Structural)]
pub enum StepStatus {
    Succeeded,
    Skipped,
    Failed,
}

/// `"ok"`, `"skipped"` or `"error"`.
pub open spec fn status_name(s: StepStatus) -> Seq<char> {
    match s {
        StepStatus::Succeeded => "ok"@,
        StepStatus::Skipped => "skipped"@,
        StepStatus::Failed => "error"@,
    }
}

impl StepStatus {
    pub fn as_str(self) -> (r: &'static str)
        ensures
            r@ == status_name(self),
    {
        proof {
            reveal_strlit("ok");
            reveal_strlit("skipped");
            reveal_strlit("error");
        }
        match self {
            StepStatus::Succeeded => "ok",
            StepStatus::Skipped => "skipped",
            StepStatus::Failed => "error",
        }
    }
}

/// What a step reports beside its status.
#[derive(Debug, Clone)]
pub enum StepDetails {
    /// Nothing.
    Empty,
    /// `{ "username": .. }`
    Username(String),
    /// `{ "confirm": .. }`
    Confirm(String),
    /// `{ "shell": .., "path": .., "wrote": .. }`
    Completion { shell: String, path: String, wrote: bool },
    /// `{ "reason": .. }` of a skipped step.
    Reason(String),
}

/// One step of the report.
#[derive(Debug)]
pub struct StepReport {
    pub step: String,
    pub status: StepStatus,
    pub details: StepDetails,
    pub error: Option<ImoocsError>,
}

impl StepReport {
    pub fn ok(step: &str, details: StepDetails) -> (r: Self)
        ensures
            r.step@ == step@,
            r.status == StepStatus::Succeeded,
            r.details == details,
            r.error is None,
    {
        StepReport { step: String::from_str(step), status: StepStatus::Succeeded, details, error: None }
    }

    pub fn skipped(step: &str, reason: &str) -> (r: Self)
        ensures
            r.step@ == step@,
            r.status == StepStatus::Skipped,
            r.details matches StepDetails::Reason(x) && x@ == reason@,
            r.error is None,
    {
        StepReport {
            step: String::from_str(step),
            status: StepStatus::Skipped,
            details: StepDetails::Reason(String::from_str(reason)),
            error: None,
        }
    }

    pub fn error(step: &str, err: ImoocsError) -> (r: Self)
        ensures
            r.step@ == step@,
            r.status == StepStatus::Failed,
            r.details is Empty,
            r.error == Some(err),
    {
        StepReport { step: String::from_str(step), status: StepStatus::Failed, details: StepDetails::Empty, error: Some(err) }
    }
}

/// `gh skill install <repo> <skill>`, for an agent to run.
#[derive(Debug, Clone)]
pub struct SkillInstallHint {
    pub command: String,
    pub repo: String,
    pub skill: String,
}

impl SkillInstallHint {
    pub fn new(repo: &str, skill: &str) -> (r: Self)
        ensures
            r.command@ == "gh skill install "@ + repo@ + " "@ + skill@,
            r.repo@ == repo@,
            r.skill@ == skill@,
    {
        proof {
            reveal_strlit("gh skill install ");
            reveal_strlit(" ");
        }
        let mut command = String::from_str("gh skill install ");
        command.append(repo);
        command.append(" ");
        command.append(skill);
        SkillInstallHint { command, repo: String::from_str(repo), skill: String::from_str(skill) }
    }
}

/// The rest of the quick start: the two skills, then linking the Drive folders.
#[derive(Debug, Clone)]
pub struct NextSteps {
    pub skill_installs: Vec<SkillInstallHint>,
    pub drive_setup_command: String,
}

/// The repository the skills are installed from.
pub const SKILL_REPO: &'static str = "rarandeyo/iniad-moocs-cli";

impl NextSteps {
    pub fn recommended() -> (r: Self)
        ensures
            r.skill_installs@.len() == 2,
            r.skill_installs@[0].command@ == "gh skill install rarandeyo/iniad-moocs-cli imoocs"@,
            r.skill_installs@[0].repo@ == SKILL_REPO@,
            r.skill_installs@[0].skill@ == "imoocs"@,
            r.skill_installs@[1].command@ == "gh skill install rarandeyo/iniad-moocs-cli imoocs-drive-setup"@,
            r.skill_installs@[1].repo@ == SKILL_REPO@,
            r.skill_installs@[1].skill@ == "imoocs-drive-setup"@,
            r.drive_setup_command@ == "/imoocs-drive-setup"@,
    {
        proof {
            reveal_strlit("rarandeyo/iniad-moocs-cli");
            reveal_strlit("imoocs");
            reveal_strlit("imoocs-drive-setup");
            reveal_strlit("gh skill install rarandeyo/iniad-moocs-cli imoocs");
            reveal_strlit("gh skill install rarandeyo/iniad-moocs-cli imoocs-drive-setup");
            reveal_strlit("gh skill install ");
            reveal_strlit(" ");
        }
        let a = SkillInstallHint::new(SKILL_REPO, "imoocs");
        let b = SkillInstallHint::new(SKILL_REPO, "imoocs-drive-setup");
        let mut skill_installs = Vec::new();
        skill_installs.push(a);
        skill_installs.push(b);
        NextSteps { skill_installs, drive_setup_command: String::from_str("/imoocs-drive-setup") }
    }
}

/// The whole `setup` report.
#[derive(Debug)]
pub struct SetupReport {
    pub steps: Vec<StepReport>,
    pub all_ok: bool,
    pub next_steps: Option<NextSteps>,
}

/// Whether a step runs, and if not why.
pub open spec fn gate_reason(failed: bool, step: SetupStep, skip_google: bool) -> Option<Seq<char>> {
    if failed && step != SetupStep::AuthLogin {
        Some("prior step failed"@)
    } else if step == SetupStep::AuthLoginGoogle && skip_google {
        Some("--skip-google"@)
    } else {
        None
    }
}

/// Once a step has failed, every later step is skipped as `prior step failed`;
/// before that, only Google SSO can be skipped, and only on `--skip-google`.
pub proof fn lemma_failure_skips_later_steps(step: SetupStep, skip_google: bool)
    ensures
        step != SetupStep::AuthLogin ==> gate_reason(true, step, skip_google) == Some("prior step failed"@),
        gate_reason(false, step, skip_google) is Some <==> (step == SetupStep::AuthLoginGoogle && skip_google),
{
}

/// The four steps in the order `setup` runs them.
pub open spec fn setup_order() -> Seq<SetupStep> {
    seq![SetupStep::AuthLogin, SetupStep::AuthLoginGoogle, SetupStep::ConfirmMode, SetupStep::CompletionInstall]
}

/// The reported steps are a prefix of the run order: the `i`-th report names the
/// `i`-th step.
pub open spec fn reported_in_order(steps: Seq<StepReport>) -> bool {
    &&& steps.len() <= setup_order().len()
    &&& forall|i: int| 0 <= i < steps.len() ==> (#[trigger] steps[i]).step@ == step_name(setup_order()[i])
}

/// The exit code of `setup`: 0 when no step failed, otherwise that of the failure.
pub open spec fn setup_exit_code_of(failure: Option<ImoocsError>) -> u8 {
    match failure {
        Some(e) => exit_code_of(e),
        None => 0,
    }
}

/// `setup` exits with 0 exactly when no step failed.
pub fn setup_exit_code(failure: &Option<ImoocsError>) -> (r: u8)
    ensures
        r == setup_exit_code_of(*failure),
        r == 0 <==> failure is None,
{
    match failure {
        Some(e) => e.exit_code(),
        None => 0,
    }
}

/// The steps reported so far, and the first failure that stops the rest.
#[derive(Debug)]
pub struct SetupFlow {
    pub steps: Vec<StepReport>,
    pub failure: Option<ImoocsError>,
}

impl SetupFlow {
    pub fn new() -> (r: Self)
        ensures
            r.steps@.len() == 0,
            r.failure is None,
    {
        SetupFlow { steps: Vec::new(), failure: None }
    }

    /// The step to run next: the steps run as `authLogin`, `authLoginGoogle`,
    /// `confirmMode`, `completionInstall`, one report each; `None` once all four are
    /// reported.
    pub fn next_step(&self) -> (r: Option<SetupStep>)
        ensures
            self.steps@.len() < setup_order().len() ==> r == Some(setup_order()[self.steps@.len() as int]),
            self.steps@.len() >= setup_order().len() ==> r is None,
    {
        let n = self.steps.len();
        if n == 0 {
            Some(SetupStep::AuthLogin)
        } else if n == 1 {
            Some(SetupStep::AuthLoginGoogle)
        } else if n == 2 {
            Some(SetupStep::ConfirmMode)
        } else if n == 3 {
            Some(SetupStep::CompletionInstall)
        } else {
            None
        }
    }

    /// Why `step` is skipped: once a step has failed every later step is, and Google
    /// SSO is on `--skip-google`. `None` when the step runs.
    pub fn gate(&self, step: SetupStep, skip_google: bool) -> (r: Option<&'static str>)
        ensures
            r matches Some(x) ==> gate_reason(self.failure is Some, step, skip_google) == Some(x@),
            r is None ==> gate_reason(self.failure is Some, step, skip_google) is None,
    {
        proof {
            reveal_strlit("prior step failed");
            reveal_strlit("--skip-google");
        }
        if self.failure.is_some() && step != SetupStep::AuthLogin {
            Some("prior step failed")
        } else if step == SetupStep::AuthLoginGoogle && skip_google {
            Some("--skip-google")
        } else {
            None
        }
    }

    /// Reports `step` as skipped.
    pub fn record_skip(&mut self, step: SetupStep, reason: &str)
        ensures
            final(self).steps@.len() == old(self).steps@.len() + 1,
            forall|i: int| 0 <= i < old(self).steps@.len() ==> final(self).steps@[i] == old(self).steps@[i],
            final(self).steps@.last().step@ == step_name(step),
            final(self).steps@.last().status == StepStatus::Skipped,
            final(self).steps@.last().details matches StepDetails::Reason(x) && x@ == reason@,
            final(self).failure == old(self).failure,
            reported_in_order(old(self).steps@) && old(self).steps@.len() < setup_order().len()
                && step == setup_order()[old(self).steps@.len() as int] ==> reported_in_order(final(self).steps@),
    {
        self.steps.push(StepReport::skipped(step.name(), reason));
    }

    /// Reports a login step: the user it logged in, or its error, which stops the steps
    /// after it.
    pub fn record_login(&mut self, step: SetupStep, result: Result<String, ImoocsError>)
        ensures
            final(self).steps@.len() == old(self).steps@.len() + 1,
            forall|i: int| 0 <= i < old(self).steps@.len() ==> final(self).steps@[i] == old(self).steps@[i],
            final(self).steps@.last().step@ == step_name(step),
            result matches Ok(u) ==> final(self).steps@.last().status == StepStatus::Succeeded
                && (final(self).steps@.last().details matches StepDetails::Username(x) && x@ == u@)
                && final(self).failure == old(self).failure,
            result matches Err(e) ==> final(self).steps@.last().status == StepStatus::Failed
                && final(self).steps@.last().error == Some(e)
                && final(self).failure == Some(e),
            reported_in_order(old(self).steps@) && old(self).steps@.len() < setup_order().len()
                && step == setup_order()[old(self).steps@.len() as int] ==> reported_in_order(final(self).steps@),
    {
        match result {
            Ok(u) => {
                self.steps.push(StepReport::ok(step.name(), StepDetails::Username(u)));
            },
            Err(e) => {
                let copy = e.duplicate();
                self.steps.push(StepReport::error(step.name(), e));
                self.failure = Some(copy);
            },
        }
    }

    /// Reports the confirm-mode step: a mode already set is a skip (`already set to ..`),
    /// a mode just chosen is a success, an error stops the steps after it.
    pub fn record_confirm_mode(&mut self, result: Result<ConfirmModeOutcome, ImoocsError>)
        ensures
            final(self).steps@.len() == old(self).steps@.len() + 1,
            forall|i: int| 0 <= i < old(self).steps@.len() ==> final(self).steps@[i] == old(self).steps@[i],
            final(self).steps@.last().step@ == "confirmMode"@,
            result matches Ok(ConfirmModeOutcome::AlreadySet(m)) ==> final(self).steps@.last().status == StepStatus::Skipped
                && (final(self).steps@.last().details matches StepDetails::Reason(x)
                    && x@ == "already set to "@ + confirm_name(m))
                && final(self).failure == old(self).failure,
            result matches Ok(ConfirmModeOutcome::Configured(m)) ==> final(self).steps@.last().status == StepStatus::Succeeded
                && (final(self).steps@.last().details matches StepDetails::Confirm(x) && x@ == confirm_name(m))
                && final(self).failure == old(self).failure,
            result matches Err(e) ==> final(self).steps@.last().status == StepStatus::Failed
                && final(self).steps@.last().error == Some(e)
                && final(self).failure == Some(e),
            reported_in_order(old(self).steps@) && old(self).steps@.len() == 2 ==> reported_in_order(final(self).steps@),
    {
        proof {
            reveal_strlit("confirmMode");
            reveal_strlit("already set to ");
        }
        match result {
            Ok(ConfirmModeOutcome::AlreadySet(m)) => {
                let mut reason = String::from_str("already set to ");
                reason.append(confirm_str(m));
                self.steps.push(StepReport::skipped("confirmMode", reason.as_str()));
            },
            Ok(ConfirmModeOutcome::Configured(m)) => {
                self.steps.push(StepReport::ok("confirmMode", StepDetails::Confirm(String::from_str(confirm_str(m)))));
            },
            Err(e) => {
                let copy = e.duplicate();
                self.steps.push(StepReport::error("confirmMode", e));
                self.failure = Some(copy);
            },
        }
    }

    /// Reports the completion step: the shell, path and whether the file was written,
    /// or the error. Completion is a convenience: its error does not fail `setup`.
    pub fn record_completion(&mut self, result: Result<(String, String, bool), ImoocsError>)
        ensures
            final(self).steps@.len() == old(self).steps@.len() + 1,
            forall|i: int| 0 <= i < old(self).steps@.len() ==> final(self).steps@[i] == old(self).steps@[i],
            final(self).steps@.last().step@ == "completionInstall"@,
            final(self).failure == old(self).failure,
            result matches Ok((shell, path, wrote)) ==> final(self).steps@.last().status == StepStatus::Succeeded
                && (final(self).steps@.last().details matches StepDetails::Completion { shell: s, path: p, wrote: w }
                    && s@ == shell@ && p@ == path@ && w == wrote),
            result matches Err(e) ==> final(self).steps@.last().status == StepStatus::Failed
                && final(self).steps@.last().error == Some(e),
            reported_in_order(old(self).steps@) && old(self).steps@.len() == 3 ==> reported_in_order(final(self).steps@),
    {
        proof {
            reveal_strlit("completionInstall");
        }
        match result {
            Ok((shell, path, wrote)) => {
                self.steps.push(StepReport::ok("completionInstall", StepDetails::Completion { shell, path, wrote }));
            },
            Err(e) => {
                self.steps.push(StepReport::error("completionInstall", e));
            },
        }
    }

    /// The report, and the failure that decides the exit code. Everything went well
    /// exactly when no step failed, and only then are the next steps suggested.
    pub fn finish(self) -> (r: (SetupReport, Option<ImoocsError>))
        ensures
            r.0.steps@ == self.steps@,
            r.0.all_ok == (self.failure is None),
            r.0.next_steps is Some == (self.failure is None),
            r.1 == self.failure,
    {
        let all_ok = self.failure.is_none();
        let next_steps = if all_ok { Some(NextSteps::recommended()) } else { None };
        (SetupReport { steps: self.steps, all_ok, next_steps }, self.failure)
    }
}

/// How the confirm-mode step ended.
#[derive(Debug, Clone, Copy)]
pub enum ConfirmModeOutcome {
    /// The configuration had one already.
    AlreadySet(ConfirmMode),
    /// The user chose one now.
    Configured(ConfirmMode),
}

/// The first item of the mode menu is `confirm`, the second `auto`.
pub fn mode_for_choice(idx: usize) -> (r: ConfirmMode)
    ensures
        r == (if idx == 0 { ConfirmMode::Confirm } else { ConfirmMode::Auto }),
{
    if idx == 0 {
        ConfirmMode::Confirm
    } else {
        ConfirmMode::Auto
    }
}

/// The configuration with `assignment.confirm` set to `mode`.
pub fn with_confirm_mode(cfg: Config, mode: ConfirmMode) -> (r: Config)
    ensures
        r.username == cfg.username,
        r.slides == cfg.slides,
        r.assignment == Some(AssignmentConfig { confirm: Some(mode) }),
{
    Config { username: cfg.username, assignment: Some(AssignmentConfig { confirm: Some(mode) }), slides: cfg.slides }
}

/// Whether to install the completion file, before any prompt.
#[derive(Debug, Clone, Copy, PartialEq, Eq, Structural)]
pub enum InstallGate {
    Install,
    Skip,
    /// Ask on the terminal (the default answer is yes).
    Ask,
}

/// `--install-completion` installs; outside text mode or without a terminal nothing is
/// installed; otherwise the user is asked.
pub fn completion_install_gate(flag: bool, text_mode: bool, is_tty: bool) -> (r: InstallGate)
    ensures
        flag ==> r == InstallGate::Install,
        !flag && (!text_mode || !is_tty) ==> r == InstallGate::Skip,
        !flag && text_mode && is_tty ==> r == InstallGate::Ask,
{
    if flag {
        InstallGate::Install
    } else if !text_mode || !is_tty {
        InstallGate::Skip
    } else {
        InstallGate::Ask
    }
}

/// A failed prompt counts as no.
pub fn completion_answer(answer: Result<bool, String>) -> (r: bool)
    ensures
        r == (answer == Ok::<bool, String>(true)),
{
    match answer {
        Ok(b) => b,
        Err(_) => false,
    }
}

/// `s` padded with spaces to `width` characters (as `{:<width}` does).
pub open spec fn pad_right(s: Seq<char>, width: nat) -> Seq<char> {
    if s.len() >= width {
        s
    } else {
        s + Seq::new((width - s.len()) as nat, |i: int| ' ')
    }
}

fn padded(s: &str, width: usize) -> (r: String)
    ensures
        r@ == pad_right(s@, width as nat),
{
    let mut out = String::from_str(s);
    let n = s.unicode_len();
    if n < width {
        let mut k: usize = n;
        while k < width
            invariant
                n <= k <= width,
                n == s@.len(),
                out@ == s@ + Seq::new((k - n) as nat, |i: int| ' '),
            decreases width - k,
        {
            let ghost before = out@;
            out.append(" ");
            proof {
                reveal_strlit(" ");
            }
            assert(out@ =~= s@ + Seq::new((k + 1 - n) as nat, |i: int| ' '));
            k = k + 1;
        }
    }
    out
}

/// What follows the symbol of a successful step.
pub open spec fn ok_suffix(step: Seq<char>, d: StepDetails) -> Seq<char> {
    if step == "authLogin"@ || step == "authLoginGoogle"@ {
        match d {
            StepDetails::Username(u) => "("@ + u@ + ")"@,
            _ => Seq::empty(),
        }
    } else if step == "confirmMode"@ {
        match d {
            StepDetails::Confirm(m) => "(confirm="@ + m@ + ")"@,
            _ => Seq::empty(),
        }
    } else if step == "completionInstall"@ {
        match d {
            StepDetails::Completion { shell, wrote, .. } =>
                "("@ + shell@ + ", "@ + (if wrote { "wrote"@ } else { "up to date"@ }) + ")"@,
            _ => "(-, up to date)"@,
        }
    } else {
        Seq::empty()
    }
}

pub fn step_ok_suffix(step: &str, d: &StepDetails) -> (r: String)
    ensures
        r@ == ok_suffix(step@, *d),
{
    proof {
        reveal_strlit("authLogin");
        reveal_strlit("authLoginGoogle");
        reveal_strlit("confirmMode");
        reveal_strlit("completionInstall");
        reveal_strlit("(");
        reveal_strlit(")");
        reveal_strlit("(confirm=");
        reveal_strlit(", ");
        reveal_strlit("wrote");
        reveal_strlit("up to date");
        reveal_strlit("(-, up to date)");
    }
    let is_login = crate::text::str_eq(step, "authLogin") || crate::text::str_eq(step, "authLoginGoogle");
    if is_login {
        match d {
            StepDetails::Username(u) => {
                let mut s = String::from_str("(");
                s.append(u.as_str());
                s.append(")");
                s
            },
            _ => String::new(),
        }
    } else if crate::text::str_eq(step, "confirmMode") {
        match d {
            StepDetails::Confirm(m) => {
                let mut s = String::from_str("(confirm=");
                s.append(m.as_str());
                s.append(")");
                s
            },
            _ => String::new(),
        }
    } else if crate::text::str_eq(step, "completionInstall") {
        match d {
            StepDetails::Completion { shell, wrote, .. } => {
                let mut s = String::from_str("(");
                s.append(shell.as_str());
                s.append(", ");
                s.append(if *wrote { "wrote" } else { "up to date" });
                s.append(")");
                s
            },
            _ => String::from_str("(-, up to date)"),
        }
    } else {
        String::new()
    }
}

/// The reason a skipped step gives (empty when it gives none).
pub open spec fn skip_reason_of(d: StepDetails) -> Seq<char> {
    match d {
        StepDetails::Reason(r) => r@,
        _ => Seq::empty(),
    }
}

/// The symbol and the suffix of a step line: `✓` and the details of a success; a skip
/// is `✓` when the setting was already there and `⚠` otherwise, with its reason;
/// an error is `✗`.
pub open spec fn symbol_of(s: StepReport) -> Seq<char> {
    match s.status {
        StepStatus::Succeeded => "\u{2713}"@,
        StepStatus::Skipped => if seq_has_prefix(skip_reason_of(s.details), "already"@) {
            "\u{2713}"@
        } else {
            "\u{26a0}"@
        },
        StepStatus::Failed => "\u{2717}"@,
    }
}

pub open spec fn suffix_of(s: StepReport) -> Seq<char> {
    match s.status {
        StepStatus::Succeeded => ok_suffix(s.step@, s.details),
        StepStatus::Skipped => "skipped: "@ + skip_reason_of(s.details),
        StepStatus::Failed => Seq::empty(),
    }
}

/// `[<n>/<total>] <step, padded to 18> <symbol>`, then two spaces and the suffix when
/// there is one.
pub open spec fn step_line(idx: nat, total: nat, s: StepReport) -> Seq<char> {
    "["@ + decimal(idx + 1) + "/"@ + decimal(total) + "] "@ + pad_right(s.step@, 18) + " "@ + symbol_of(s)
        + (if suffix_of(s).len() == 0 { Seq::empty() } else { "  "@ + suffix_of(s) }) + "\n"@
}

/// The lines of the first `n` steps.
pub open spec fn step_lines(steps: Seq<StepReport>, n: int) -> Seq<char>
    decreases n,
{
    if n <= 0 {
        Seq::empty()
    } else {
        step_lines(steps, n - 1) + step_line((n - 1) as nat, steps.len(), steps[n - 1])
    }
}

/// The closing part when every step went well.
pub open spec fn next_steps_text(next: NextSteps) -> Seq<char> {
    "Setup complete.\n\n"@ + NEXT_STEPS_HEADING@ + SKILLS_ITEM@ + hint_lines(next.skill_installs@, next.skill_installs@.len() as int)
        + DRIVE_ITEM@ + "       "@ + next.drive_setup_command@ + "\n"@ + DOCTOR_ITEM@ + "       $ imoocs doctor"@
}

/// `       $ <command>` for the first `n` hints.
pub open spec fn hint_lines(hints: Seq<SkillInstallHint>, n: int) -> Seq<char>
    decreases n,
{
    if n <= 0 {
        Seq::empty()
    } else {
        hint_lines(hints, n - 1) + "       $ "@ + hints[n - 1].command@ + "\n"@
    }
}

pub const NEXT_STEPS_HEADING: &'static str =
    "\u{6b21}\u{306e}\u{30b9}\u{30c6}\u{30c3}\u{30d7} (\u{8a73}\u{7d30}\u{306f} README \u{306e} Quick start):\n";
pub const SKILLS_ITEM: &'static str =
    "  1. \u{30a8}\u{30fc}\u{30b8}\u{30a7}\u{30f3}\u{30c8} skill \u{3092} 2 \u{3064}\u{5c0e}\u{5165}\n";
pub const DRIVE_ITEM: &'static str =
    "  2. agent \u{5185}\u{3067} Drive \u{30d5}\u{30a9}\u{30eb}\u{30c0}\u{3092}\u{7d10}\u{4ed8}\u{3051}\n";
pub const DOCTOR_ITEM: &'static str =
    "  3. \u{5b8c}\u{4e86}\u{5f8c} `imoocs doctor` \u{3092}\u{518d}\u{5b9f}\u{884c}\u{3057}\u{3066}\u{5168}\u{9805}\u{76ee} \u{2713} \u{3092}\u{78ba}\u{8a8d}\n";
/// The closing line when some step failed.
pub const SETUP_DONE_SHORT: &'static str =
    "Setup complete. `imoocs course list` \u{304b}\u{3089}\u{59cb}\u{3081}\u{3089}\u{308c}\u{307e}\u{3059}\u{3002}";

/// The report as `setup` prints it in text mode.
pub open spec fn report_text(r: SetupReport) -> Seq<char> {
    step_lines(r.steps@, r.steps@.len() as int) + "\n"@ + match r.next_steps {
        Some(next) => next_steps_text(next),
        None => SETUP_DONE_SHORT@,
    }
}

fn render_step(idx: usize, total: usize, s: &StepReport) -> (r: String)
    requires
        idx < total,
    ensures
        r@ == step_line(idx as nat, total as nat, *s),
{
    proof {
        reveal_strlit("[");
        reveal_strlit("/");
        reveal_strlit("] ");
        reveal_strlit(" ");
        reveal_strlit("  ");
        reveal_strlit("\n");
        reveal_strlit("\u{2713}");
        reveal_strlit("\u{26a0}");
        reveal_strlit("\u{2717}");
        reveal_strlit("skipped: ");
        reveal_strlit("already");
        reveal_strlit("");
    }
    let mut out = String::from_str("[");
    let n = u64_to_decimal((idx + 1) as u64);
    out.append(n.as_str());
    out.append("/");
    let t = u64_to_decimal(total as u64);
    out.append(t.as_str());
    out.append("] ");
    let p = padded(s.step.as_str(), 18);
    out.append(p.as_str());
    out.append(" ");
    let (symbol, suffix): (&str, String) = match s.status {
        StepStatus::Succeeded => ("\u{2713}", step_ok_suffix(s.step.as_str(), &s.details)),
        StepStatus::Skipped => {
            let reason: &str = match &s.details {
                StepDetails::Reason(x) => x.as_str(),
                _ => "",
            };
            let sym = if str_starts_with(reason, "already") { "\u{2713}" } else { "\u{26a0}" };
            let mut suf = String::from_str("skipped: ");
            suf.append(reason);
            (sym, suf)
        },
        StepStatus::Failed => ("\u{2717}", String::new()),
    };
    assert(symbol@ == symbol_of(*s));
    assert(suffix@ == suffix_of(*s));
    out.append(symbol);
    if suffix.unicode_len() != 0 {
        out.append("  ");
        out.append(suffix.as_str());
    }
    out.append("\n");
    out
}

/// The report as `setup` prints it in text mode: a line per step, then the next steps of
/// the quick start when every step went well.
pub fn render_report(r: &SetupReport) -> (s: String)
    ensures
        s@ == report_text(*r),
{
    proof {
        reveal_strlit("\n");
        reveal_strlit("Setup complete.\n\n");
        reveal_strlit("       $ ");
        reveal_strlit("       ");
        reveal_strlit("       $ imoocs doctor");
    }
    let total = r.steps.len();
    let mut out = String::new();
    let mut i: usize = 0;
    while i < total
        invariant
            total == r.steps@.len(),
            i <= total,
            out@ == step_lines(r.steps@, i as int),
        decreases total - i,
    {
        let line = render_step(i, total, &r.steps[i]);
        out.append(line.as_str());
        i = i + 1;
    }
    out.append("\n");
    match &r.next_steps {
        Some(next) => {
            out.append("Setup complete.\n\n");
            out.append(NEXT_STEPS_HEADING);
            out.append(SKILLS_ITEM);
            let ghost before = out@;
            let mut k: usize = 0;
            while k < next.skill_installs.len()
                invariant
                    k <= next.skill_installs@.len(),
                    out@ == before + hint_lines(next.skill_installs@, k as int),
                decreases next.skill_installs@.len() - k,
            {
                out.append("       $ ");
                out.append(next.skill_installs[k].command.as_str());
                out.append("\n");
                k = k + 1;
            }
            out.append(DRIVE_ITEM);
            out.append("       ");
            out.append(next.drive_setup_command.as_str());
            out.append("\n");
            out.append(DOCTOR_ITEM);
            out.append("       $ imoocs doctor");
        },
        None => out.append(SETUP_DONE_SHORT),
    }
    assert(out@ =~= report_text(*r));
    out
}

} // verus!

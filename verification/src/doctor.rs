//! `imoocs doctor`: the health report, when the quick start counts as done, and how the
//! report reads.
use vstd::prelude::*;
use crate::confirm::ConfirmMode;
use crate::skills::{method_name, method_str, SkillDetectionMethod, SkillDetectionReport};
use crate::text::{decimal, u64_to_decimal};

verus! {

/// How many courses of `course-drive-folders.toml` have a folder.
#[derive(Debug, Clone, Copy)]
pub struct DriveFoldersSummary {
    pub total: usize,
    pub resolved: usize,
    pub unresolved: usize,
}

/// Where the shell completion of the current shell goes, and whether it is there.
#[derive(Debug, Clone)]
pub struct CompletionStatus {
    pub shell: String,
    pub path: String,
    pub installed: bool,
}

/// Everything `doctor` checks.
#[derive(Debug, Clone)]
pub struct DoctorReport {
    pub version: String,
    pub moocs_authenticated: bool,
    pub google_authenticated: bool,
    pub config_dir: String,
    pub data_dir: String,
    pub cache_dir: String,
    pub username: Option<String>,
    pub drive_folders: Option<DriveFoldersSummary>,
    pub confirm_mode: Option<ConfirmMode>,
    pub completion: Option<CompletionStatus>,
    pub skills: SkillDetectionReport,
    pub quick_start_complete: bool,
}

/// Every course of the Drive registry has its folder, and there is at least one.
pub open spec fn drive_resolved(d: Option<DriveFoldersSummary>) -> bool {
    d matches Some(s) && s.total > 0 && s.unresolved == 0
}

/// The completion file of the current shell is in place.
pub open spec fn completion_installed(c: Option<CompletionStatus>) -> bool {
    c matches Some(s) && s.installed
}

/// The quick start is done: both logins, a confirm mode, the completion file, every
/// course linked to its Drive folder, and both skills.
pub open spec fn quick_start_done(
    moocs: bool,
    google: bool,
    mode: Option<ConfirmMode>,
    completion: Option<CompletionStatus>,
    drive: Option<DriveFoldersSummary>,
    skills: SkillDetectionReport,
) -> bool {
    moocs && google && mode is Some && completion_installed(completion) && drive_resolved(drive)
        && skills.imoocs && skills.imoocs_drive_setup
}

/// Every one of the seven checks is needed for the quick start to count as done, and
/// together they suffice: it is not done without the MOOCs login, without Google SSO,
/// without a confirm mode, without the completion file in place, unless at least one
/// course is linked and none is left unresolved, or without either skill.
pub proof fn lemma_quick_start_needs_every_check(
    moocs: bool,
    google: bool,
    mode: Option<ConfirmMode>,
    completion: Option<CompletionStatus>,
    drive: Option<DriveFoldersSummary>,
    skills: SkillDetectionReport,
)
    ensures
        !moocs ==> !quick_start_done(moocs, google, mode, completion, drive, skills),
        !google ==> !quick_start_done(moocs, google, mode, completion, drive, skills),
        mode is None ==> !quick_start_done(moocs, google, mode, completion, drive, skills),
        !(completion matches Some(c) && c.installed) ==> !quick_start_done(moocs, google, mode, completion, drive, skills),
        !(drive matches Some(d) && d.total > 0 && d.unresolved == 0) ==> !quick_start_done(
            moocs,
            google,
            mode,
            completion,
            drive,
            skills,
        ),
        !skills.imoocs ==> !quick_start_done(moocs, google, mode, completion, drive, skills),
        !skills.imoocs_drive_setup ==> !quick_start_done(moocs, google, mode, completion, drive, skills),
        moocs && google && mode is Some && (completion matches Some(c) && c.installed) && (drive matches Some(d)
            && d.total > 0 && d.unresolved == 0) && skills.imoocs && skills.imoocs_drive_setup ==> quick_start_done(
            moocs,
            google,
            mode,
            completion,
            drive,
            skills,
        ),
{
}

/// Rolls the checks up into the quick-start verdict.
pub fn quick_start_ready(
    moocs: bool,
    google: bool,
    mode: Option<ConfirmMode>,
    completion: &Option<CompletionStatus>,
    drive: Option<DriveFoldersSummary>,
    skills: SkillDetectionReport,
) -> (r: bool)
    ensures
        r == quick_start_done(moocs, google, mode, *completion, drive, skills),
{
    let completion_ok = match completion {
        Some(c) => c.installed,
        None => false,
    };
    let drive_ok = match drive {
        Some(s) => s.total > 0 && s.unresolved == 0,
        None => false,
    };
    moocs && google && mode.is_some() && completion_ok && drive_ok && skills.imoocs && skills.imoocs_drive_setup
}

impl DoctorReport {
    /// The report with its quick-start verdict derived from the checks.
    pub fn new(
        version: String,
        moocs_authenticated: bool,
        google_authenticated: bool,
        config_dir: String,
        data_dir: String,
        cache_dir: String,
        username: Option<String>,
        drive_folders: Option<DriveFoldersSummary>,
        confirm_mode: Option<ConfirmMode>,
        completion: Option<CompletionStatus>,
        skills: SkillDetectionReport,
    ) -> (r: Self)
        ensures
            r.version == version,
            r.moocs_authenticated == moocs_authenticated,
            r.google_authenticated == google_authenticated,
            r.config_dir == config_dir,
            r.data_dir == data_dir,
            r.cache_dir == cache_dir,
            r.username == username,
            r.drive_folders == drive_folders,
            r.confirm_mode == confirm_mode,
            r.completion == completion,
            r.skills == skills,
            r.quick_start_complete == quick_start_done(
                moocs_authenticated,
                google_authenticated,
                confirm_mode,
                completion,
                drive_folders,
                skills,
            ),
    {
        let quick_start_complete = quick_start_ready(
            moocs_authenticated,
            google_authenticated,
            confirm_mode,
            &completion,
            drive_folders,
            skills,
        );
        DoctorReport {
            version,
            moocs_authenticated,
            google_authenticated,
            config_dir,
            data_dir,
            cache_dir,
            username,
            drive_folders,
            confirm_mode,
            completion,
            skills,
            quick_start_complete,
        }
    }
}

/// `doctor` exits 0 when logged in to MOOCs, 2 otherwise.
pub fn doctor_exit_code(moocs_authenticated: bool) -> (r: u8)
    ensures
        r == (if moocs_authenticated { 0u8 } else { 2u8 }),
{
    if moocs_authenticated {
        0
    } else {
        2
    }
}

/// `✓` or `✗`.
pub open spec fn mark_of(ok: bool) -> Seq<char> {
    if ok {
        "\u{2713}"@
    } else {
        "\u{2717}"@
    }
}

pub fn mark(ok: bool) -> (r: &'static str)
    ensures
        r@ == mark_of(ok),
{
    proof {
        reveal_strlit("\u{2713}");
        reveal_strlit("\u{2717}");
    }
    if ok {
        "\u{2713}"
    } else {
        "\u{2717}"
    }
}

/// The configured value of `assignment.confirm`.
pub open spec fn confirm_name(m: ConfirmMode) -> Seq<char> {
    match m {
        ConfirmMode::Auto => "auto"@,
        ConfirmMode::Confirm => "confirm"@,
    }
}

pub fn confirm_str(m: ConfirmMode) -> (r: &'static str)
    ensures
        r@ == confirm_name(m),
{
    proof {
        reveal_strlit("auto");
        reveal_strlit("confirm");
    }
    match m {
        ConfirmMode::Auto => "auto",
        ConfirmMode::Confirm => "confirm",
    }
}

/// The header and the two login lines.
pub open spec fn login_lines(r: DoctorReport) -> Seq<char> {
    "imoocs "@ + r.version@ + "\n"@
        + "  "@ + mark_of(r.moocs_authenticated) + " MOOCs login   ("@
        + (match r.username { Some(u) => u@, None => "-"@ }) + ")\n"@
        + "  "@ + mark_of(r.google_authenticated) + " Google SSO\n"@
}

/// The `assignment.confirm` line.
pub open spec fn confirm_line(m: Option<ConfirmMode>) -> Seq<char> {
    match m {
        Some(mode) => "  \u{2713} assignment.confirm = "@ + confirm_name(mode) + "\n"@,
        None => CONFIRM_UNSET_LINE@,
    }
}

/// Shown while `assignment.confirm` is unset.
pub const CONFIRM_UNSET_LINE: &'static str =
    "  \u{26a0} assignment.confirm \u{672a}\u{8a2d}\u{5b9a} (`imoocs setup` \u{3092}\u{518d}\u{5b9f}\u{884c} \u{307e}\u{305f}\u{306f} config.toml \u{3092}\u{7de8}\u{96c6})\n";

/// The completion line.
pub open spec fn completion_line(c: Option<CompletionStatus>) -> Seq<char> {
    match c {
        Some(s) => if s.installed {
            "  \u{2713} completion \u{914d}\u{7f6e}\u{6e08} ("@ + s.shell@ + ") "@ + s.path@ + "\n"@
        } else {
            "  \u{26a0} completion \u{672a}\u{914d}\u{7f6e} ("@ + s.shell@
                + ") \u{2014} `imoocs completion install` \u{3067}\u{914d}\u{7f6e}\n"@
        },
        None => COMPLETION_UNDETECTED_LINE@,
    }
}

/// Shown when the shell could not be told.
pub const COMPLETION_UNDETECTED_LINE: &'static str =
    "  \u{26a0} completion: shell \u{672a}\u{691c}\u{51fa} \u{2014} `imoocs completion install --shell <name>` \u{3067}\u{6307}\u{5b9a}\n";

/// The skills line.
pub open spec fn skills_line(s: SkillDetectionReport) -> Seq<char> {
    if s.imoocs && s.imoocs_drive_setup {
        "  \u{2713} skill \u{691c}\u{51fa} ("@ + method_name(s.method) + " \u{7d4c}\u{7531})\n"@
    } else if s.method == SkillDetectionMethod::Unknown {
        SKILLS_MISSING_LINE@
    } else {
        "  \u{26a0} skill \u{4e00}\u{90e8}\u{672a}\u{691c}\u{51fa} ("@ + method_name(s.method)
            + " \u{7d4c}\u{7531}): imoocs="@ + mark_of(s.imoocs) + ", imoocs-drive-setup="@
            + mark_of(s.imoocs_drive_setup) + "\n"@
    }
}

/// Shown when no skill could be detected at all.
pub const SKILLS_MISSING_LINE: &'static str =
    "  \u{26a0} skill \u{672a}\u{691c}\u{51fa} \u{2014} `gh skill install rarandeyo/iniad-moocs-cli {imoocs,imoocs-drive-setup}` \u{3067}\u{8ffd}\u{52a0}\n";

/// The Drive folders line.
pub open spec fn drive_line(d: Option<DriveFoldersSummary>) -> Seq<char> {
    match d {
        Some(s) => if s.total > 0 && s.unresolved == 0 {
            "  \u{2713} Drive folders ("@ + decimal(s.total as nat) + " courses)\n"@
        } else if s.total == 0 {
            DRIVE_EMPTY_LINE@
        } else {
            "  \u{26a0} Drive folders \u{672a}\u{89e3}\u{6c7a} ("@ + decimal(s.unresolved as nat) + "/"@
                + decimal(s.total as nat) + ", `/imoocs-drive-setup` \u{3067}\u{7d10}\u{4ed8}\u{3051})\n"@
        },
        None => DRIVE_UNREGISTERED_LINE@,
    }
}

/// Shown when the Drive registry lists no course.
pub const DRIVE_EMPTY_LINE: &'static str =
    "  \u{26a0} Drive folders \u{304c}\u{7a7a} (`/imoocs-drive-setup` \u{3067}\u{7d10}\u{4ed8}\u{3051})\n";

/// Shown when there is no Drive registry.
pub const DRIVE_UNREGISTERED_LINE: &'static str =
    "  \u{26a0} Drive folders \u{672a}\u{767b}\u{9332} (`/imoocs-drive-setup` \u{3067}\u{7d10}\u{4ed8}\u{3051})\n";

/// The paths block.
pub open spec fn paths_lines(r: DoctorReport) -> Seq<char> {
    "Paths\n"@ + "  config  "@ + r.config_dir@ + "\n"@ + "  data    "@ + r.data_dir@ + "\n"@
        + "  cache   "@ + r.cache_dir@ + "\n"@
}

/// The closing line when the quick start is done.
pub const QUICK_START_DONE: &'static str = "Quick start: \u{2713} \u{5168}\u{9805}\u{76ee}\u{30af}\u{30ea}\u{30a2}";
/// The closing line otherwise.
pub const QUICK_START_PENDING: &'static str =
    "Quick start: \u{672a}\u{5b8c}\u{4e86} \u{2014} \u{4e0a}\u{306e} \u{26a0} \u{3092}\u{89e3}\u{6d88}\u{3057}\u{3066}\u{304f}\u{3060}\u{3055}\u{3044}";

/// The report as `doctor` prints it in text mode.
pub open spec fn rendered(r: DoctorReport) -> Seq<char> {
    login_lines(r) + confirm_line(r.confirm_mode) + completion_line(r.completion) + skills_line(r.skills)
        + drive_line(r.drive_folders) + paths_lines(r)
        + (if r.quick_start_complete { QUICK_START_DONE@ } else { QUICK_START_PENDING@ })
}

/// `s` ends with `suffix`.
pub open spec fn ends_with(s: Seq<char>, suffix: Seq<char>) -> bool {
    suffix.len() <= s.len() && s.subrange(s.len() - suffix.len(), s.len() as int) == suffix
}

/// For a report whose verdict was derived from its checks, the last line reads
/// `Quick start: ✓ 全項目クリア` exactly when every check passed: both logins, a confirm
/// mode, the completion file, every Drive folder, and both skills.
pub proof fn lemma_quick_start_line(r: DoctorReport)
    requires
        r.quick_start_complete == quick_start_done(
            r.moocs_authenticated,
            r.google_authenticated,
            r.confirm_mode,
            r.completion,
            r.drive_folders,
            r.skills,
        ),
    ensures
        ends_with(rendered(r), QUICK_START_DONE@) <==> quick_start_done(
            r.moocs_authenticated,
            r.google_authenticated,
            r.confirm_mode,
            r.completion,
            r.drive_folders,
            r.skills,
        ),
{
    reveal_strlit("Quick start: \u{2713} \u{5168}\u{9805}\u{76ee}\u{30af}\u{30ea}\u{30a2}");
    reveal_strlit("Quick start: \u{672a}\u{5b8c}\u{4e86} \u{2014} \u{4e0a}\u{306e} \u{26a0} \u{3092}\u{89e3}\u{6d88}\u{3057}\u{3066}\u{304f}\u{3060}\u{3055}\u{3044}");
    let head = login_lines(r) + confirm_line(r.confirm_mode) + completion_line(r.completion) + skills_line(r.skills)
        + drive_line(r.drive_folders) + paths_lines(r);
    let done = QUICK_START_DONE@;
    let pending = QUICK_START_PENDING@;
    let out = rendered(r);
    if r.quick_start_complete {
        assert(out =~= head + done);
        assert(out.subrange(out.len() - done.len(), out.len() as int) =~= done);
    } else {
        assert(out =~= head + pending);
        if ends_with(out, done) {
            assert(out.subrange(out.len() - done.len(), out.len() as int)[done.len() - 1] == done[done.len() - 1]);
            assert(out[out.len() - 1] == pending[pending.len() - 1]);
            assert(false);
        }
    }
}

fn render_login(r: &DoctorReport, out: &mut String)
    ensures
        final(out)@ == old(out)@ + login_lines(*r),
{
    proof {
        reveal_strlit("imoocs ");
        reveal_strlit("\n");
        reveal_strlit("  ");
        reveal_strlit(" MOOCs login   (");
        reveal_strlit("-");
        reveal_strlit(")\n");
        reveal_strlit(" Google SSO\n");
    }
    out.append("imoocs ");
    out.append(r.version.as_str());
    out.append("\n");
    out.append("  ");
    out.append(mark(r.moocs_authenticated));
    out.append(" MOOCs login   (");
    match &r.username {
        Some(u) => out.append(u.as_str()),
        None => out.append("-"),
    }
    out.append(")\n");
    out.append("  ");
    out.append(mark(r.google_authenticated));
    out.append(" Google SSO\n");
}

fn render_confirm(m: Option<ConfirmMode>, out: &mut String)
    ensures
        final(out)@ == old(out)@ + confirm_line(m),
{
    proof {
        reveal_strlit("  \u{2713} assignment.confirm = ");
        reveal_strlit("\n");
    }
    match m {
        Some(mode) => {
            out.append("  \u{2713} assignment.confirm = ");
            out.append(confirm_str(mode));
            out.append("\n");
        },
        None => out.append(CONFIRM_UNSET_LINE),
    }
}

fn render_completion(c: &Option<CompletionStatus>, out: &mut String)
    ensures
        final(out)@ == old(out)@ + completion_line(*c),
{
    proof {
        reveal_strlit("  \u{2713} completion \u{914d}\u{7f6e}\u{6e08} (");
        reveal_strlit(") ");
        reveal_strlit("\n");
        reveal_strlit("  \u{26a0} completion \u{672a}\u{914d}\u{7f6e} (");
        reveal_strlit(") \u{2014} `imoocs completion install` \u{3067}\u{914d}\u{7f6e}\n");
    }
    match c {
        Some(s) => {
            if s.installed {
                out.append("  \u{2713} completion \u{914d}\u{7f6e}\u{6e08} (");
                out.append(s.shell.as_str());
                out.append(") ");
                out.append(s.path.as_str());
                out.append("\n");
            } else {
                out.append("  \u{26a0} completion \u{672a}\u{914d}\u{7f6e} (");
                out.append(s.shell.as_str());
                out.append(") \u{2014} `imoocs completion install` \u{3067}\u{914d}\u{7f6e}\n");
            }
        },
        None => out.append(COMPLETION_UNDETECTED_LINE),
    }
}

fn render_skills(s: SkillDetectionReport, out: &mut String)
    ensures
        final(out)@ == old(out)@ + skills_line(s),
{
    proof {
        reveal_strlit("  \u{2713} skill \u{691c}\u{51fa} (");
        reveal_strlit(" \u{7d4c}\u{7531})\n");
        reveal_strlit("  \u{26a0} skill \u{4e00}\u{90e8}\u{672a}\u{691c}\u{51fa} (");
        reveal_strlit(" \u{7d4c}\u{7531}): imoocs=");
        reveal_strlit(", imoocs-drive-setup=");
        reveal_strlit("\n");
    }
    if s.imoocs && s.imoocs_drive_setup {
        out.append("  \u{2713} skill \u{691c}\u{51fa} (");
        out.append(method_str(s.method));
        out.append(" \u{7d4c}\u{7531})\n");
    } else if s.method == SkillDetectionMethod::Unknown {
        out.append(SKILLS_MISSING_LINE);
    } else {
        out.append("  \u{26a0} skill \u{4e00}\u{90e8}\u{672a}\u{691c}\u{51fa} (");
        out.append(method_str(s.method));
        out.append(" \u{7d4c}\u{7531}): imoocs=");
        out.append(mark(s.imoocs));
        out.append(", imoocs-drive-setup=");
        out.append(mark(s.imoocs_drive_setup));
        out.append("\n");
    }
}

fn render_drive(d: Option<DriveFoldersSummary>, out: &mut String)
    ensures
        final(out)@ == old(out)@ + drive_line(d),
{
    proof {
        reveal_strlit("  \u{2713} Drive folders (");
        reveal_strlit(" courses)\n");
        reveal_strlit("  \u{26a0} Drive folders \u{672a}\u{89e3}\u{6c7a} (");
        reveal_strlit("/");
        reveal_strlit(", `/imoocs-drive-setup` \u{3067}\u{7d10}\u{4ed8}\u{3051})\n");
    }
    match d {
        Some(s) => {
            if s.total > 0 && s.unresolved == 0 {
                out.append("  \u{2713} Drive folders (");
                let t = u64_to_decimal(s.total as u64);
                out.append(t.as_str());
                out.append(" courses)\n");
            } else if s.total == 0 {
                out.append(DRIVE_EMPTY_LINE);
            } else {
                out.append("  \u{26a0} Drive folders \u{672a}\u{89e3}\u{6c7a} (");
                let u = u64_to_decimal(s.unresolved as u64);
                out.append(u.as_str());
                out.append("/");
                let t = u64_to_decimal(s.total as u64);
                out.append(t.as_str());
                out.append(", `/imoocs-drive-setup` \u{3067}\u{7d10}\u{4ed8}\u{3051})\n");
            }
        },
        None => out.append(DRIVE_UNREGISTERED_LINE),
    }
}

fn render_paths(r: &DoctorReport, out: &mut String)
    ensures
        final(out)@ == old(out)@ + paths_lines(*r),
{
    proof {
        reveal_strlit("Paths\n");
        reveal_strlit("  config  ");
        reveal_strlit("\n");
        reveal_strlit("  data    ");
        reveal_strlit("  cache   ");
    }
    out.append("Paths\n");
    out.append("  config  ");
    out.append(r.config_dir.as_str());
    out.append("\n");
    out.append("  data    ");
    out.append(r.data_dir.as_str());
    out.append("\n");
    out.append("  cache   ");
    out.append(r.cache_dir.as_str());
    out.append("\n");
}

/// The report as `doctor` prints it in text mode: a line per check, the paths, and
/// whether the quick start is done.
pub fn render(r: &DoctorReport) -> (s: String)
    ensures
        s@ == rendered(*r),
{
    let mut out = String::new();
    render_login(r, &mut out);
    render_confirm(r.confirm_mode, &mut out);
    render_completion(&r.completion, &mut out);
    render_skills(r.skills, &mut out);
    render_drive(r.drive_folders, &mut out);
    render_paths(r, &mut out);
    if r.quick_start_complete {
        out.append(QUICK_START_DONE);
    } else {
        out.append(QUICK_START_PENDING);
    }
    assert(out@ =~= rendered(*r));
    out
}

} // verus!

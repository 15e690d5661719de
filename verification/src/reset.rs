//! `imoocs reset`: which local state goes, in what order, and how the run is tallied.
use vstd::prelude::*;
use crate::error::ImoocsError;
use crate::text::{decimal, u64_to_decimal};

verus! {

/// A `--scope` value.
#[derive(Debug, Clone, Copy, PartialEq, Eq, Structural)]
pub enum Scope {
    /// The keyring credential and `cookies.json`.
    Auth,
    /// `config.toml` and `course-drive-folders.toml`.
    Config,
    /// `cookies.json`, `drive/` and the slides directory (inside the safe roots only).
    Cache,
    /// Everything under `state_dir/drafts/`.
    Drafts,
    /// All of the above.
    All,
}

/// A scope that names one group of targets.
#[derive(Debug, Clone, Copy, PartialEq, Eq, Structural)]
pub enum ResolvedScope {
    Auth,
    Config,
    Cache,
    Drafts,
}

/// The scope's name as the plan prints it.
pub open spec fn scope_name(s: ResolvedScope) -> Seq<char> {
    match s {
        ResolvedScope::Auth => "auth"@,
        ResolvedScope::Config => "config"@,
        ResolvedScope::Cache => "cache"@,
        ResolvedScope::Drafts => "drafts"@,
    }
}

impl ResolvedScope {
    pub fn as_str(self) -> (r: &'static str)
        ensures
            r@ == scope_name(self),
    {
        proof {
            reveal_strlit("auth");
            reveal_strlit("config");
            reveal_strlit("cache");
            reveal_strlit("drafts");
        }
        match self {
            ResolvedScope::Auth => "auth",
            ResolvedScope::Config => "config",
            ResolvedScope::Cache => "cache",
            ResolvedScope::Drafts => "drafts",
        }
    }
}

/// The `--scope` value that names `r` alone.
pub open spec fn named_by(r: ResolvedScope) -> Scope {
    match r {
        ResolvedScope::Auth => Scope::Auth,
        ResolvedScope::Config => Scope::Config,
        ResolvedScope::Cache => Scope::Cache,
        ResolvedScope::Drafts => Scope::Drafts,
    }
}

/// `r` is asked for: no `--scope` at all, `all`, or `r` named itself.
pub open spec fn scope_wanted(specified: Seq<Scope>, r: ResolvedScope) -> bool {
    specified.len() == 0 || specified.contains(Scope::All) || specified.contains(named_by(r))
}

/// `seq![x]` when `b`, else nothing.
pub open spec fn keep_if(b: bool, x: ResolvedScope) -> Seq<ResolvedScope> {
    if b {
        seq![x]
    } else {
        Seq::empty()
    }
}

/// The scopes asked for, each once, in the order auth, config, cache, drafts.
pub open spec fn effective(specified: Seq<Scope>) -> Seq<ResolvedScope> {
    keep_if(scope_wanted(specified, ResolvedScope::Auth), ResolvedScope::Auth)
        + keep_if(scope_wanted(specified, ResolvedScope::Config), ResolvedScope::Config)
        + keep_if(scope_wanted(specified, ResolvedScope::Cache), ResolvedScope::Cache)
        + keep_if(scope_wanted(specified, ResolvedScope::Drafts), ResolvedScope::Drafts)
}

/// The scopes a `--scope` list resolves to: every scope when the list is empty or holds
/// `all`, else those named, without repeats, in the order auth, config, cache, drafts.
pub fn effective_scopes(specified: &[Scope]) -> (r: Vec<ResolvedScope>)
    ensures
        r@ == effective(specified@),
{
    let mut all = false;
    let mut auth = false;
    let mut config = false;
    let mut cache = false;
    let mut drafts = false;
    let mut i: usize = 0;
    while i < specified.len()
        invariant
            i <= specified@.len(),
            all == specified@.subrange(0, i as int).contains(Scope::All),
            auth == specified@.subrange(0, i as int).contains(Scope::Auth),
            config == specified@.subrange(0, i as int).contains(Scope::Config),
            cache == specified@.subrange(0, i as int).contains(Scope::Cache),
            drafts == specified@.subrange(0, i as int).contains(Scope::Drafts),
        decreases specified@.len() - i,
    {
        let ghost before = specified@.subrange(0, i as int);
        let s = specified[i];
        assert(specified@.subrange(0, i + 1) =~= before.push(s));
        proof {
            vstd::seq_lib::lemma_seq_contains_after_push(before, s, Scope::All);
            vstd::seq_lib::lemma_seq_contains_after_push(before, s, Scope::Auth);
            vstd::seq_lib::lemma_seq_contains_after_push(before, s, Scope::Config);
            vstd::seq_lib::lemma_seq_contains_after_push(before, s, Scope::Cache);
            vstd::seq_lib::lemma_seq_contains_after_push(before, s, Scope::Drafts);
        }
        match s {
            Scope::All => { all = true; },
            Scope::Auth => { auth = true; },
            Scope::Config => { config = true; },
            Scope::Cache => { cache = true; },
            Scope::Drafts => { drafts = true; },
        }
        i = i + 1;
    }
    assert(specified@.subrange(0, specified@.len() as int) =~= specified@);
    let every = specified.len() == 0 || all;
    let mut r: Vec<ResolvedScope> = Vec::new();
    if every || auth {
        r.push(ResolvedScope::Auth);
    }
    if every || config {
        r.push(ResolvedScope::Config);
    }
    if every || cache {
        r.push(ResolvedScope::Cache);
    }
    if every || drafts {
        r.push(ResolvedScope::Drafts);
    }
    assert(r@ =~= effective(specified@));
    r
}

/// Each scope comes at most once, exactly the scopes asked for come, and no `--scope`
/// (or `all`) means every scope.
pub proof fn lemma_effective_scopes(specified: Seq<Scope>)
    ensures
        effective(specified).no_duplicates(),
        forall|x: ResolvedScope| #[trigger] effective(specified).contains(x) <==> scope_wanted(specified, x),
        (specified.len() == 0 || specified.contains(Scope::All)) ==> effective(specified).len() == 4,
{
    let a = keep_if(scope_wanted(specified, ResolvedScope::Auth), ResolvedScope::Auth);
    let b = keep_if(scope_wanted(specified, ResolvedScope::Config), ResolvedScope::Config);
    let c = keep_if(scope_wanted(specified, ResolvedScope::Cache), ResolvedScope::Cache);
    let d = keep_if(scope_wanted(specified, ResolvedScope::Drafts), ResolvedScope::Drafts);
    let e = effective(specified);
    assert(e =~= a + b + c + d);
    assert forall|i: int, j: int| 0 <= i < e.len() && 0 <= j < e.len() && i != j implies e[i] != e[j] by {
        if i < a.len() { assert(e[i] == ResolvedScope::Auth); }
        else if i < a.len() + b.len() { assert(e[i] == ResolvedScope::Config); }
        else if i < a.len() + b.len() + c.len() { assert(e[i] == ResolvedScope::Cache); }
        else { assert(e[i] == ResolvedScope::Drafts); }
        if j < a.len() { assert(e[j] == ResolvedScope::Auth); }
        else if j < a.len() + b.len() { assert(e[j] == ResolvedScope::Config); }
        else if j < a.len() + b.len() + c.len() { assert(e[j] == ResolvedScope::Cache); }
        else { assert(e[j] == ResolvedScope::Drafts); }
    }
    assert forall|x: ResolvedScope| #[trigger] e.contains(x) <==> scope_wanted(specified, x) by {
        if scope_wanted(specified, x) {
            match x {
                ResolvedScope::Auth => { assert(e[0] == x); },
                ResolvedScope::Config => { assert(e[a.len() as int] == x); },
                ResolvedScope::Cache => { assert(e[(a.len() + b.len()) as int] == x); },
                ResolvedScope::Drafts => { assert(e[(a.len() + b.len() + c.len()) as int] == x); },
            }
        }
        if e.contains(x) {
            let i = choose|i: int| 0 <= i < e.len() && e[i] == x;
            if i < a.len() { assert(e[i] == ResolvedScope::Auth); }
            else if i < a.len() + b.len() { assert(e[i] == ResolvedScope::Config); }
            else if i < a.len() + b.len() + c.len() { assert(e[i] == ResolvedScope::Cache); }
            else { assert(e[i] == ResolvedScope::Drafts); }
        }
    }
}

/// The path that `std::path::Path::new(base).join(segment)` builds, as text.
pub uninterp spec fn joined_path(base: Seq<char>, segment: Seq<char>) -> Seq<char>;

/// `Path::new(base).join(segment)`, rendered back to text.
#[verifier::external_body]
pub(crate) fn path_join(base: &str, segment: &str) -> (r: String)
    ensures
        r@ == joined_path(base@, segment@),
{
    std::path::Path::new(base).join(segment).to_string_lossy().into_owned()
}

/// Whether `std::path::Path::new(a) == std::path::Path::new(b)`: the two paths have the
/// same components.
pub uninterp spec fn same_path(a: Seq<char>, b: Seq<char>) -> bool;

/// `Path::new(a) == Path::new(b)`.
#[verifier::external_body]
fn path_eq(a: &str, b: &str) -> (r: bool)
    ensures
        r == same_path(a@, b@),
{
    std::path::Path::new(a) == std::path::Path::new(b)
}

/// The fixed slides directory under `/tmp`.
pub const TMP_SLIDES_DIR: &'static str = "/tmp/imoocs/slides";

/// A slides directory that `reset` may delete recursively: `<cache_dir>/slides` or
/// `/tmp/imoocs/slides`. Any other (user-chosen) directory is left alone.
pub open spec fn safe_slides_dir(dir: Seq<char>, cache_dir: Seq<char>) -> bool {
    same_path(dir, joined_path(cache_dir, "slides"@)) || same_path(dir, TMP_SLIDES_DIR@)
}

pub fn is_safe_slides_dir(dir: &str, cache_dir: &str) -> (r: bool)
    ensures
        r == safe_slides_dir(dir@, cache_dir@),
{
    let under_cache = path_join(cache_dir, "slides");
    path_eq(dir, under_cache.as_str()) || path_eq(dir, TMP_SLIDES_DIR)
}

/// The files and directories `reset` deals with, as paths.
#[derive(Debug, Clone)]
pub struct ResetPaths {
    pub cookies_file: String,
    pub config_file: String,
    pub course_drive_folders_file: String,
    pub drive_dir: String,
    pub slides_dir: String,
    pub cache_dir: String,
    pub drafts_dir: String,
}

/// Which of those paths exist when the plan is made.
#[derive(Debug, Clone, Copy)]
pub struct Presence {
    pub cookies_file: bool,
    pub config_file: bool,
    pub course_drive_folders_file: bool,
    pub drive_dir: bool,
    pub slides_dir: bool,
    pub drafts_dir: bool,
}

/// What one target is.
#[derive(Debug, Clone)]
pub enum TargetKind {
    /// The keyring credential of this user.
    Keyring { username: String },
    File(String),
    /// A directory, removed with everything under it.
    Dir(String),
    /// A directory that is not deleted, with the reason.
    Unsafe { path: String, reason: String },
}

/// One line of the plan.
#[derive(Debug, Clone)]
pub struct ResetTarget {
    pub scope: ResolvedScope,
    pub label: String,
    pub kind: TargetKind,
    pub exists: bool,
}

/// A target's kind with its paths as text.
pub enum KindModel {
    Keyring(Seq<char>),
    File(Seq<char>),
    Dir(Seq<char>),
    Unsafe(Seq<char>, Seq<char>),
}

/// A target with its texts as character sequences.
pub struct TargetModel {
    pub scope: ResolvedScope,
    pub label: Seq<char>,
    pub kind: KindModel,
    pub exists: bool,
}

impl View for ResetTarget {
    type V = TargetModel;

    open spec fn view(&self) -> TargetModel {
        TargetModel {
            scope: self.scope,
            label: self.label@,
            kind: match self.kind {
                TargetKind::Keyring { username } => KindModel::Keyring(username@),
                TargetKind::File(p) => KindModel::File(p@),
                TargetKind::Dir(p) => KindModel::Dir(p@),
                TargetKind::Unsafe { path, reason } => KindModel::Unsafe(path@, reason@),
            },
            exists: self.exists,
        }
    }
}

/// The targets of a plan as models.
pub open spec fn targets_view(ts: Seq<ResetTarget>) -> Seq<TargetModel> {
    Seq::new(ts.len(), |i: int| ts[i]@)
}

/// Why a user-chosen slides directory is left alone.
pub const UNSAFE_SLIDES_REASON: &'static str = "outside <cache_dir>/slides and /tmp/imoocs/slides \u{2014} refusing to recursively delete a user-chosen directory";

/// A file target: labelled by its path.
pub open spec fn file_model(scope: ResolvedScope, path: Seq<char>, exists: bool) -> TargetModel {
    TargetModel { scope, label: path, kind: KindModel::File(path), exists }
}

/// A directory target: labelled by its path.
pub open spec fn dir_model(scope: ResolvedScope, path: Seq<char>, exists: bool) -> TargetModel {
    TargetModel { scope, label: path, kind: KindModel::Dir(path), exists }
}

/// The keyring credential of `user`; its presence is not checked (deleting a missing
/// entry succeeds).
pub open spec fn keyring_model(user: Seq<char>) -> TargetModel {
    TargetModel {
        scope: ResolvedScope::Auth,
        label: "keyring credential (user: "@ + user + ")"@,
        kind: KindModel::Keyring(user),
        exists: true,
    }
}

/// The slides directory: deleted when it is one of the safe roots, else refused.
pub open spec fn slides_model(p: ResetPaths, pres: Presence) -> TargetModel {
    if safe_slides_dir(p.slides_dir@, p.cache_dir@) {
        dir_model(ResolvedScope::Cache, p.slides_dir@, pres.slides_dir)
    } else {
        TargetModel {
            scope: ResolvedScope::Cache,
            label: p.slides_dir@ + " (user-configured slides.out_dir)"@,
            kind: KindModel::Unsafe(p.slides_dir@, UNSAFE_SLIDES_REASON@),
            exists: pres.slides_dir,
        }
    }
}

/// Auth: the keyring credential when a username is configured, then `cookies.json`.
pub open spec fn auth_targets(user: Option<Seq<char>>, p: ResetPaths, pres: Presence) -> Seq<TargetModel> {
    let head = match user {
        Some(u) => seq![keyring_model(u)],
        None => Seq::empty(),
    };
    head.push(file_model(ResolvedScope::Auth, p.cookies_file@, pres.cookies_file))
}

/// Config: `config.toml`, then `course-drive-folders.toml`.
pub open spec fn config_targets(p: ResetPaths, pres: Presence) -> Seq<TargetModel> {
    seq![
        file_model(ResolvedScope::Config, p.config_file@, pres.config_file),
        file_model(ResolvedScope::Config, p.course_drive_folders_file@, pres.course_drive_folders_file),
    ]
}

/// Cache: `cookies.json`, `drive/`, then the slides directory.
pub open spec fn cache_targets(p: ResetPaths, pres: Presence) -> Seq<TargetModel> {
    seq![
        file_model(ResolvedScope::Cache, p.cookies_file@, pres.cookies_file),
        dir_model(ResolvedScope::Cache, p.drive_dir@, pres.drive_dir),
        slides_model(p, pres),
    ]
}

/// Drafts: the drafts directory.
pub open spec fn drafts_targets(p: ResetPaths, pres: Presence) -> Seq<TargetModel> {
    seq![dir_model(ResolvedScope::Drafts, p.drafts_dir@, pres.drafts_dir)]
}

/// The plan: the groups of the scopes asked for, in the order auth, config, cache, drafts.
pub open spec fn planned(
    scopes: Seq<ResolvedScope>,
    user: Option<Seq<char>>,
    p: ResetPaths,
    pres: Presence,
) -> Seq<TargetModel> {
    (if scopes.contains(ResolvedScope::Auth) { auth_targets(user, p, pres) } else { Seq::empty() })
        + (if scopes.contains(ResolvedScope::Config) { config_targets(p, pres) } else { Seq::empty() })
        + (if scopes.contains(ResolvedScope::Cache) { cache_targets(p, pres) } else { Seq::empty() })
        + (if scopes.contains(ResolvedScope::Drafts) { drafts_targets(p, pres) } else { Seq::empty() })
}

fn has_scope(scopes: &Vec<ResolvedScope>, s: ResolvedScope) -> (r: bool)
    ensures
        r == scopes@.contains(s),
{
    let mut i: usize = 0;
    while i < scopes.len()
        invariant
            i <= scopes@.len(),
            forall|j: int| 0 <= j < i ==> scopes@[j] != s,
        decreases scopes@.len() - i,
    {
        if scopes[i] == s {
            return true;
        }
        i = i + 1;
    }
    false
}

fn file_target(scope: ResolvedScope, path: &String, exists: bool) -> (r: ResetTarget)
    ensures
        r@ == file_model(scope, path@, exists),
{
    ResetTarget { scope, label: path.clone(), kind: TargetKind::File(path.clone()), exists }
}

fn dir_target(scope: ResolvedScope, path: &String, exists: bool) -> (r: ResetTarget)
    ensures
        r@ == dir_model(scope, path@, exists),
{
    ResetTarget { scope, label: path.clone(), kind: TargetKind::Dir(path.clone()), exists }
}

/// Pushes `t`, keeping the models in step.
fn push_target(out: &mut Vec<ResetTarget>, t: ResetTarget)
    ensures
        targets_view(final(out)@) == targets_view(old(out)@).push(t@),
{
    out.push(t);
    assert(targets_view(out@) =~= targets_view(old(out)@).push(t@));
}

/// Lists what `reset` would remove for the scopes asked for, given the configured
/// username and which paths exist.
pub fn plan_targets(
    scopes: &Vec<ResolvedScope>,
    username: Option<&str>,
    paths: &ResetPaths,
    presence: Presence,
) -> (r: Vec<ResetTarget>)
    ensures
        targets_view(r@) == planned(
            scopes@,
            match username { Some(u) => Some(u@), None => None },
            *paths,
            presence,
        ),
{
    let ghost user = match username { Some(u) => Some(u@), None => None::<Seq<char>> };
    let mut out: Vec<ResetTarget> = Vec::new();
    assert(targets_view(out@) =~= Seq::<TargetModel>::empty());
    let ghost mut expect: Seq<TargetModel> = Seq::empty();
    if has_scope(scopes, ResolvedScope::Auth) {
        if let Some(u) = username {
            let mut label = String::from_str("keyring credential (user: ");
            label.append(u);
            label.append(")");
            proof {
                reveal_strlit("keyring credential (user: ");
                reveal_strlit(")");
            }
            push_target(&mut out, ResetTarget {
                scope: ResolvedScope::Auth,
                label,
                kind: TargetKind::Keyring { username: String::from_str(u) },
                exists: true,
            });
        }
        push_target(&mut out, file_target(ResolvedScope::Auth, &paths.cookies_file, presence.cookies_file));
        proof {
            expect = expect + auth_targets(user, *paths, presence);
        }
        assert(targets_view(out@) =~= expect);
    }
    if has_scope(scopes, ResolvedScope::Config) {
        push_target(&mut out, file_target(ResolvedScope::Config, &paths.config_file, presence.config_file));
        push_target(&mut out, file_target(ResolvedScope::Config, &paths.course_drive_folders_file, presence.course_drive_folders_file));
        proof {
            expect = expect + config_targets(*paths, presence);
        }
        assert(targets_view(out@) =~= expect);
    }
    if has_scope(scopes, ResolvedScope::Cache) {
        push_target(&mut out, file_target(ResolvedScope::Cache, &paths.cookies_file, presence.cookies_file));
        push_target(&mut out, dir_target(ResolvedScope::Cache, &paths.drive_dir, presence.drive_dir));
        if is_safe_slides_dir(paths.slides_dir.as_str(), paths.cache_dir.as_str()) {
            push_target(&mut out, dir_target(ResolvedScope::Cache, &paths.slides_dir, presence.slides_dir));
        } else {
            let mut label = paths.slides_dir.clone();
            label.append(" (user-configured slides.out_dir)");
            push_target(&mut out, ResetTarget {
                scope: ResolvedScope::Cache,
                label,
                kind: TargetKind::Unsafe {
                    path: paths.slides_dir.clone(),
                    reason: String::from_str(UNSAFE_SLIDES_REASON),
                },
                exists: presence.slides_dir,
            });
        }
        proof {
            expect = expect + cache_targets(*paths, presence);
        }
        assert(targets_view(out@) =~= expect);
    }
    if has_scope(scopes, ResolvedScope::Drafts) {
        push_target(&mut out, dir_target(ResolvedScope::Drafts, &paths.drafts_dir, presence.drafts_dir));
        proof {
            expect = expect + drafts_targets(*paths, presence);
        }
        assert(targets_view(out@) =~= expect);
    }
    assert(expect =~= planned(scopes@, user, *paths, presence));
    out
}

/// A plan line: a refused directory with its reason, or a mark (`✓` present, `·` not
/// present) before the label.
pub open spec fn target_line(t: TargetModel) -> Seq<char> {
    match t.kind {
        KindModel::Unsafe(_, reason) => "    ! "@ + t.label + " (skip: "@ + reason + ")\n"@,
        _ => "    "@ + (if t.exists { "\u{2713}"@ } else { "\u{b7}"@ }) + " "@ + t.label
            + (if t.exists { ""@ } else { "  (not present)"@ }) + "\n"@,
    }
}

/// Target `i` starts a new scope group.
pub open spec fn opens_group(ts: Seq<TargetModel>, i: int) -> bool {
    i == 0 || ts[i - 1].scope != ts[i].scope
}

/// The blank line and heading of a scope group.
pub open spec fn group_header(s: ResolvedScope) -> Seq<char> {
    "\n  "@ + scope_name(s) + " scope\n"@
}

/// The lines of the first `n` targets, each group under its heading.
pub open spec fn plan_lines(ts: Seq<TargetModel>, n: int) -> Seq<char>
    decreases n,
{
    if n <= 0 {
        Seq::empty()
    } else {
        plan_lines(ts, n - 1)
            + (if opens_group(ts, n - 1) { group_header(ts[n - 1].scope) } else { Seq::empty() })
            + target_line(ts[n - 1])
    }
}

/// The whole plan as printed.
pub open spec fn plan_text_of(ts: Seq<TargetModel>) -> Seq<char> {
    "The following will be removed:\n"@ + plan_lines(ts, ts.len() as int)
}

fn line_of(t: &ResetTarget) -> (r: String)
    ensures
        r@ == target_line(t@),
{
    proof {
        reveal_strlit("    ! ");
        reveal_strlit(" (skip: ");
        reveal_strlit(")\n");
        reveal_strlit("    ");
        reveal_strlit("\u{2713}");
        reveal_strlit("\u{b7}");
        reveal_strlit(" ");
        reveal_strlit("");
        reveal_strlit("  (not present)");
        reveal_strlit("\n");
    }
    match &t.kind {
        TargetKind::Unsafe { reason, .. } => {
            let mut s = String::from_str("    ! ");
            s.append(t.label.as_str());
            s.append(" (skip: ");
            s.append(reason.as_str());
            s.append(")\n");
            s
        },
        _ => {
            let mut s = String::from_str("    ");
            s.append(if t.exists { "\u{2713}" } else { "\u{b7}" });
            s.append(" ");
            s.append(t.label.as_str());
            s.append(if t.exists { "" } else { "  (not present)" });
            s.append("\n");
            s
        },
    }
}

/// The plan as `reset` prints it before acting.
pub fn plan_text(targets: &Vec<ResetTarget>) -> (r: String)
    ensures
        r@ == plan_text_of(targets_view(targets@)),
{
    let ghost ts = targets_view(targets@);
    let mut out = String::from_str("The following will be removed:\n");
    proof {
        reveal_strlit("The following will be removed:\n");
        reveal_strlit("\n  ");
        reveal_strlit(" scope\n");
    }
    let mut current: Option<ResolvedScope> = None;
    let mut i: usize = 0;
    while i < targets.len()
        invariant
            i <= targets@.len(),
            ts == targets_view(targets@),
            out@ == "The following will be removed:\n"@ + plan_lines(ts, i as int),
            i == 0 ==> current is None,
            i > 0 ==> current == Some(ts[i - 1].scope),
        decreases targets@.len() - i,
    {
        let t = &targets[i];
        assert(ts[i as int] == t@);
        let opens = match current {
            None => true,
            Some(c) => c != t.scope,
        };
        assert(opens == opens_group(ts, i as int));
        let ghost before = out@;
        if opens {
            out.append("\n  ");
            out.append(t.scope.as_str());
            out.append(" scope\n");
        }
        let line = line_of(t);
        out.append(line.as_str());
        assert(out@ =~= before + (if opens_group(ts, i as int) { group_header(ts[i as int].scope) } else { Seq::empty() })
            + target_line(ts[i as int]));
        current = Some(t.scope);
        i = i + 1;
    }
    out
}

/// What to do with one target.
#[derive(Debug, Clone)]
pub enum ResetStep {
    /// A config file kept because a keyring deletion failed: its username is needed to
    /// retry.
    KeepForRetry,
    /// Delete the keyring credential of this user.
    DeleteKeyring(String),
    /// Remove this file if it is still there.
    RemoveFile(String),
    /// Remove this directory, with everything under it, if it is still there.
    RemoveDir(String),
    /// Refuse: the path with the reason.
    Refuse(String, String),
}

/// The step for `t`. Once a keyring deletion has failed, config targets are kept, so
/// that the configured username survives for a retry.
pub open spec fn step_for(auth_failed: bool, t: TargetModel) -> StepModel {
    if t.scope == ResolvedScope::Config && auth_failed {
        StepModel::KeepForRetry
    } else {
        match t.kind {
            KindModel::Keyring(u) => StepModel::DeleteKeyring(u),
            KindModel::File(p) => StepModel::RemoveFile(p),
            KindModel::Dir(p) => StepModel::RemoveDir(p),
            KindModel::Unsafe(p, reason) => StepModel::Refuse(p, reason),
        }
    }
}

/// A step with its texts as character sequences.
pub enum StepModel {
    KeepForRetry,
    DeleteKeyring(Seq<char>),
    RemoveFile(Seq<char>),
    RemoveDir(Seq<char>),
    Refuse(Seq<char>, Seq<char>),
}

impl View for ResetStep {
    type V = StepModel;

    open spec fn view(&self) -> StepModel {
        match self {
            ResetStep::KeepForRetry => StepModel::KeepForRetry,
            ResetStep::DeleteKeyring(u) => StepModel::DeleteKeyring(u@),
            ResetStep::RemoveFile(p) => StepModel::RemoveFile(p@),
            ResetStep::RemoveDir(p) => StepModel::RemoveDir(p@),
            ResetStep::Refuse(p, reason) => StepModel::Refuse(p@, reason@),
        }
    }
}

pub fn next_step(auth_failed: bool, t: &ResetTarget) -> (r: ResetStep)
    ensures
        r@ == step_for(auth_failed, t@),
{
    if t.scope == ResolvedScope::Config && auth_failed {
        return ResetStep::KeepForRetry;
    }
    match &t.kind {
        TargetKind::Keyring { username } => ResetStep::DeleteKeyring(username.clone()),
        TargetKind::File(p) => ResetStep::RemoveFile(p.clone()),
        TargetKind::Dir(p) => ResetStep::RemoveDir(p.clone()),
        TargetKind::Unsafe { path, reason } => ResetStep::Refuse(path.clone(), reason.clone()),
    }
}

/// How a step that touches the disk or the keyring went.
#[derive(Debug, Clone, Copy, PartialEq, Eq, Structural)]
pub enum StepOutcome {
    /// It was deleted.
    Removed,
    /// There was nothing to delete.
    Absent,
    /// The deletion failed.
    Failed,
}

/// The counts of a run.
#[derive(Debug, Clone, Copy)]
pub struct ResetTally {
    pub removed: usize,
    pub skipped: usize,
    pub errors: usize,
    /// A keyring deletion has failed.
    pub auth_failed: bool,
}

/// The tally after one more step. Kept and refused targets count as skipped; a keyring
/// deletion counts as removed unless it failed (a missing entry is deleted
/// successfully), and a failure marks the auth cleanup as failed; a file or directory
/// counts as removed, skipped when absent, or failed.
pub open spec fn tallied(t: ResetTally, step: StepModel, outcome: StepOutcome) -> ResetTally {
    match step {
        StepModel::KeepForRetry => ResetTally { skipped: (t.skipped + 1) as usize, ..t },
        StepModel::Refuse(_, _) => ResetTally { skipped: (t.skipped + 1) as usize, ..t },
        StepModel::DeleteKeyring(_) => if outcome == StepOutcome::Failed {
            ResetTally { errors: (t.errors + 1) as usize, auth_failed: true, ..t }
        } else {
            ResetTally { removed: (t.removed + 1) as usize, ..t }
        },
        _ => if outcome == StepOutcome::Removed {
            ResetTally { removed: (t.removed + 1) as usize, ..t }
        } else if outcome == StepOutcome::Absent {
            ResetTally { skipped: (t.skipped + 1) as usize, ..t }
        } else {
            ResetTally { errors: (t.errors + 1) as usize, ..t }
        },
    }
}

/// Steps counted so far.
pub open spec fn counted(t: ResetTally) -> int {
    t.removed + t.skipped + t.errors
}

impl ResetTally {
    pub fn new() -> (r: Self)
        ensures
            r == (ResetTally { removed: 0, skipped: 0, errors: 0, auth_failed: false }),
    {
        ResetTally { removed: 0, skipped: 0, errors: 0, auth_failed: false }
    }

    /// Counts one step and how it went.
    pub fn record(&mut self, step: &ResetStep, outcome: StepOutcome)
        requires
            counted(*old(self)) < usize::MAX,
        ensures
            *final(self) == tallied(*old(self), step@, outcome),
    {
        match step {
            ResetStep::KeepForRetry => { self.skipped = self.skipped + 1; },
            ResetStep::Refuse(_, _) => { self.skipped = self.skipped + 1; },
            ResetStep::DeleteKeyring(_) => {
                if outcome == StepOutcome::Failed {
                    self.errors = self.errors + 1;
                    self.auth_failed = true;
                } else {
                    self.removed = self.removed + 1;
                }
            },
            _ => {
                if outcome == StepOutcome::Removed {
                    self.removed = self.removed + 1;
                } else if outcome == StepOutcome::Absent {
                    self.skipped = self.skipped + 1;
                } else {
                    self.errors = self.errors + 1;
                }
            },
        }
    }
}

/// Every recorded step is counted exactly once, as removed, skipped or failed, and a
/// failed keyring deletion is never forgotten.
pub proof fn lemma_tally_counts_each_step(t: ResetTally, step: StepModel, outcome: StepOutcome)
    requires
        counted(t) < usize::MAX,
    ensures
        counted(tallied(t, step, outcome)) == counted(t) + 1,
        t.auth_failed ==> tallied(t, step, outcome).auth_failed,
{
}

/// A step that deletes something: a keyring entry, a file or a directory.
pub open spec fn is_deletion(step: StepModel) -> bool {
    step is DeleteKeyring || step is RemoveFile || step is RemoveDir
}

/// Each outcome lands in its own count. A failed deletion adds exactly one error and
/// leaves the removed and skipped counts as they were; a deletion that went through adds
/// one removed; a file or directory that was not there adds one skipped (a keyring entry
/// that was not there is deleted without error, and counts as removed); a kept or refused
/// target adds one skipped. No step ever lowers the error count. Only a failed keyring
/// deletion marks the auth cleanup as failed.
pub proof fn lemma_outcome_lands_in_its_count(t: ResetTally, step: StepModel, outcome: StepOutcome)
    requires
        counted(t) < usize::MAX,
    ensures
        is_deletion(step) && outcome == StepOutcome::Failed ==> tallied(t, step, outcome).errors == t.errors + 1
            && tallied(t, step, outcome).removed == t.removed && tallied(t, step, outcome).skipped == t.skipped,
        is_deletion(step) && outcome == StepOutcome::Removed ==> tallied(t, step, outcome).removed == t.removed + 1
            && tallied(t, step, outcome).errors == t.errors && tallied(t, step, outcome).skipped == t.skipped,
        (step is RemoveFile || step is RemoveDir) && outcome == StepOutcome::Absent ==> tallied(t, step, outcome).skipped
            == t.skipped + 1 && tallied(t, step, outcome).errors == t.errors && tallied(t, step, outcome).removed
            == t.removed,
        !is_deletion(step) ==> tallied(t, step, outcome).skipped == t.skipped + 1 && tallied(t, step, outcome).errors
            == t.errors && tallied(t, step, outcome).removed == t.removed,
        tallied(t, step, outcome).errors >= t.errors,
        step is DeleteKeyring && outcome == StepOutcome::Failed ==> tallied(t, step, outcome).auth_failed,
        !(step is DeleteKeyring && outcome == StepOutcome::Failed) ==> tallied(t, step, outcome).auth_failed
            == t.auth_failed,
{
}

/// The tally after a run of steps and their outcomes, in order.
pub open spec fn tally_run(t: ResetTally, steps: Seq<(StepModel, StepOutcome)>) -> ResetTally
    decreases steps.len(),
{
    if steps.len() == 0 {
        t
    } else {
        tallied(tally_run(t, steps.drop_last()), steps.last().0, steps.last().1)
    }
}

/// How many deletions of a run failed.
pub open spec fn failed_deletions(steps: Seq<(StepModel, StepOutcome)>) -> nat
    decreases steps.len(),
{
    if steps.len() == 0 {
        0
    } else {
        failed_deletions(steps.drop_last()) + if is_deletion(steps.last().0) && steps.last().1 == StepOutcome::Failed {
            1nat
        } else {
            0nat
        }
    }
}

/// A run ends with one error per failed deletion and no other: so a run in which any
/// deletion failed ends with errors, and `reset_summary` then reports it as an
/// `Internal` error; every step is counted once.
pub proof fn lemma_run_counts_each_failed_deletion(t: ResetTally, steps: Seq<(StepModel, StepOutcome)>)
    requires
        counted(t) + steps.len() < usize::MAX,
    ensures
        tally_run(t, steps).errors == t.errors + failed_deletions(steps),
        counted(tally_run(t, steps)) == counted(t) + steps.len(),
        failed_deletions(steps) > 0 ==> tally_run(t, steps).errors > 0,
    decreases steps.len(),
{
    if steps.len() > 0 {
        lemma_run_counts_each_failed_deletion(t, steps.drop_last());
        let before = tally_run(t, steps.drop_last());
        lemma_outcome_lands_in_its_count(before, steps.last().0, steps.last().1);
        lemma_tally_counts_each_step(before, steps.last().0, steps.last().1);
    }
}

/// Once a keyring deletion has failed, no config file is touched for the rest of the run.
pub proof fn lemma_config_kept_after_keyring_failure(t: ResetTally, target: TargetModel)
    requires
        t.auth_failed,
        target.scope == ResolvedScope::Config,
    ensures
        step_for(t.auth_failed, target) is KeepForRetry,
{
}

/// Only two kinds of directory are ever removed recursively: `drive/` and the drafts
/// directory, and the slides directory when it is one of the two safe roots. A
/// user-chosen slides directory is listed as refused, and refusing deletes nothing.
pub proof fn lemma_user_slides_dir_never_removed(
    scopes: Seq<ResolvedScope>,
    user: Option<Seq<char>>,
    p: ResetPaths,
    pres: Presence,
    auth_failed: bool,
)
    ensures
        forall|i: int| 0 <= i < planned(scopes, user, p, pres).len()
            ==> (#[trigger] step_for(auth_failed, planned(scopes, user, p, pres)[i]) matches StepModel::RemoveDir(d)
                && (d == p.drive_dir@ || d == p.drafts_dir@ || (d == p.slides_dir@ && safe_slides_dir(p.slides_dir@, p.cache_dir@)))
                || !(step_for(auth_failed, planned(scopes, user, p, pres)[i]) is RemoveDir)),
        !safe_slides_dir(p.slides_dir@, p.cache_dir@) && scopes.contains(ResolvedScope::Cache) ==> planned(scopes, user, p, pres).contains(
            TargetModel {
                scope: ResolvedScope::Cache,
                label: p.slides_dir@ + " (user-configured slides.out_dir)"@,
                kind: KindModel::Unsafe(p.slides_dir@, UNSAFE_SLIDES_REASON@),
                exists: pres.slides_dir,
            },
        ),
{
    let a = if scopes.contains(ResolvedScope::Auth) { auth_targets(user, p, pres) } else { Seq::empty() };
    let b = if scopes.contains(ResolvedScope::Config) { config_targets(p, pres) } else { Seq::empty() };
    let c = if scopes.contains(ResolvedScope::Cache) { cache_targets(p, pres) } else { Seq::empty() };
    let d = if scopes.contains(ResolvedScope::Drafts) { drafts_targets(p, pres) } else { Seq::empty() };
    let all = planned(scopes, user, p, pres);
    assert(all =~= a + b + c + d);
    assert forall|i: int| 0 <= i < all.len() implies (#[trigger] step_for(auth_failed, all[i]) matches StepModel::RemoveDir(x)
        && (x == p.drive_dir@ || x == p.drafts_dir@ || (x == p.slides_dir@ && safe_slides_dir(p.slides_dir@, p.cache_dir@))))
        || !(step_for(auth_failed, all[i]) is RemoveDir) by {
        let t = all[i];
        if i < a.len() {
            assert(t == a[i]);
            if user is Some {
                assert(t.kind is Keyring || t.kind is File);
            } else {
                assert(t.kind is File);
            }
        } else if i < a.len() + b.len() {
            assert(t == b[i - a.len()]);
        } else if i < a.len() + b.len() + c.len() {
            assert(t == c[i - a.len() - b.len()]);
        } else {
            assert(t == d[i - a.len() - b.len() - c.len()]);
        }
    }
    if !safe_slides_dir(p.slides_dir@, p.cache_dir@) && scopes.contains(ResolvedScope::Cache) {
        let k = (a.len() + b.len() + 2) as int;
        assert(all[k] == c[2int]);
    }
}

/// The last lines of a run: the counts, and the error when any step failed.
pub open spec fn summary_of(t: ResetTally) -> Seq<char> {
    if t.errors > 0 {
        "Done with errors. "@ + decimal(t.removed as nat) + " removed, "@ + decimal(t.skipped as nat)
            + " skipped (not present), "@ + decimal(t.errors as nat) + " failed."@
    } else {
        "Done. "@ + decimal(t.removed as nat) + " removed, "@ + decimal(t.skipped as nat)
            + " skipped (not present)."@
    }
}

/// The summary line, and the error that ends the run when a step failed.
pub fn reset_summary(t: &ResetTally) -> (r: (String, Option<ImoocsError>))
    ensures
        r.0@ == summary_of(*t),
        t.errors > 0 ==> (r.1 matches Some(ImoocsError::Internal(m))
            && m@ == "reset: "@ + decimal(t.errors as nat) + " item(s) failed"@),
        t.errors == 0 ==> r.1 is None,
{
    proof {
        reveal_strlit("Done with errors. ");
        reveal_strlit(" removed, ");
        reveal_strlit(" skipped (not present), ");
        reveal_strlit(" failed.");
        reveal_strlit("Done. ");
        reveal_strlit(" skipped (not present).");
        reveal_strlit("reset: ");
        reveal_strlit(" item(s) failed");
    }
    let removed = u64_to_decimal(t.removed as u64);
    let skipped = u64_to_decimal(t.skipped as u64);
    if t.errors > 0 {
        let errors = u64_to_decimal(t.errors as u64);
        let mut line = String::from_str("Done with errors. ");
        line.append(removed.as_str());
        line.append(" removed, ");
        line.append(skipped.as_str());
        line.append(" skipped (not present), ");
        line.append(errors.as_str());
        line.append(" failed.");
        let mut m = String::from_str("reset: ");
        m.append(errors.as_str());
        m.append(" item(s) failed");
        (line, Some(ImoocsError::Internal(m)))
    } else {
        let mut line = String::from_str("Done. ");
        line.append(removed.as_str());
        line.append(" removed, ");
        line.append(skipped.as_str());
        line.append(" skipped (not present).");
        (line, None)
    }
}

/// How `reset` gets consent before deleting.
#[derive(Debug)]
pub enum Consent {
    /// `--yes` was given.
    Given,
    /// Ask on the terminal.
    Ask,
    /// No `--yes` and no terminal to ask on.
    Refused(ImoocsError),
}

/// `--yes` proceeds; without it a terminal is needed to ask.
pub fn reset_consent(yes: bool, is_tty: bool) -> (r: Consent)
    ensures
        yes ==> r is Given,
        !yes && is_tty ==> r is Ask,
        !yes && !is_tty ==> (r matches Consent::Refused(ImoocsError::Validation(m))
            && m@ == "reset requires --yes in non-interactive mode"@),
{
    if yes {
        Consent::Given
    } else if is_tty {
        Consent::Ask
    } else {
        Consent::Refused(ImoocsError::Validation(String::from_str("reset requires --yes in non-interactive mode")))
    }
}

/// What follows the printed plan.
#[derive(Debug)]
pub enum AfterPlan {
    /// `--dry-run`: print `[dry-run] nothing removed.`, remove nothing, exit 0.
    DryRun,
    /// Go on to the deletions once consent is had.
    Proceed(Consent),
}

/// The line that ends a dry run.
pub open spec fn dry_run_note() -> Seq<char> {
    "[dry-run] nothing removed."@
}

/// `--dry-run` stops after the plan whatever else was given; otherwise consent is
/// settled as `reset_consent` does.
pub fn after_plan(dry_run: bool, yes: bool, is_tty: bool) -> (r: AfterPlan)
    ensures
        dry_run <==> r is DryRun,
        !dry_run && yes ==> (r matches AfterPlan::Proceed(c) && c is Given),
        !dry_run && !yes && is_tty ==> (r matches AfterPlan::Proceed(c) && c is Ask),
        !dry_run && !yes && !is_tty ==> (r matches AfterPlan::Proceed(Consent::Refused(ImoocsError::Validation(m)))
            && m@ == "reset requires --yes in non-interactive mode"@),
{
    if dry_run {
        AfterPlan::DryRun
    } else {
        AfterPlan::Proceed(reset_consent(yes, is_tty))
    }
}

/// The closing line and exit code of a dry run: nothing is removed and the run succeeds.
pub fn dry_run_outcome() -> (r: (&'static str, u8))
    ensures
        r.0@ == dry_run_note(),
        r.1 == 0,
{
    proof {
        reveal_strlit("[dry-run] nothing removed.");
    }
    ("[dry-run] nothing removed.", 0)
}

/// The answer to `Proceed?`: yes proceeds, no aborts, a failed prompt is an internal
/// error carrying its text.
pub fn reset_answer(answer: Result<bool, String>) -> (r: Result<(), ImoocsError>)
    ensures
        answer == Ok::<bool, String>(true) ==> r is Ok,
        answer == Ok::<bool, String>(false) ==> (r matches Err(ImoocsError::Validation(m))
            && m@ == "reset aborted by user"@),
        answer matches Err(e) ==> (r matches Err(ImoocsError::Internal(m)) && m@ == "confirm prompt: "@ + e@),
{
    match answer {
        Ok(true) => Ok(()),
        Ok(false) => Err(ImoocsError::Validation(String::from_str("reset aborted by user"))),
        Err(e) => {
            let mut m = String::from_str("confirm prompt: ");
            m.append(e.as_str());
            Err(ImoocsError::Internal(m))
        },
    }
}

} // verus!

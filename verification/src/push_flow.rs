//! `assignment push` / `submit` / `upload` / `drafts`: the order of the server calls that
//! finalise a staged draft, what they report, and what the commands print.
use vstd::prelude::*;
use crate::assignment::{decorate_push_err, decorated, AssignmentKey};
use crate::error::ImoocsError;
use crate::order::{keyed_view, sort_by_key, sort_strings, sorted_by_key, sorted_strings, strings_view};
use crate::text::{decimal, u64_to_decimal};

verus! {

/// A staged draft, as far as pushing it needs.
#[derive(Debug, Clone)]
pub struct StagedDraft {
    pub year: u32,
    pub course_id: String,
    pub problem_id: String,
    /// The page to submit on; empty in drafts written by older versions.
    pub page_url: String,
    /// `submit` staged answers (an `upload`-only draft has none, and must not send an
    /// empty answer set over the existing one).
    pub answers_staged: bool,
    /// The fields of the staged answers.
    pub answer_pids: Vec<String>,
    /// The staged files: field and local path.
    pub files: Vec<(String, String)>,
}

/// One server-side or local step of a push.
#[derive(Debug, Clone)]
pub enum PushStep {
    /// Find the page of the problem (the draft does not name it).
    ResolvePageUrl,
    /// `put_answers(force = true)` with the staged answers.
    PutAnswers,
    /// `post_file(force = true)` for one field and path.
    PostFile(String, String),
    /// Delete the draft: everything went through.
    RemoveDraft,
}

/// A step with its texts as character sequences.
pub enum PushStepModel {
    ResolvePageUrl,
    PutAnswers,
    PostFile(Seq<char>, Seq<char>),
    RemoveDraft,
}

impl View for PushStep {
    type V = PushStepModel;

    open spec fn view(&self) -> PushStepModel {
        match self {
            PushStep::ResolvePageUrl => PushStepModel::ResolvePageUrl,
            PushStep::PutAnswers => PushStepModel::PutAnswers,
            PushStep::PostFile(p, f) => PushStepModel::PostFile(p@, f@),
            PushStep::RemoveDraft => PushStepModel::RemoveDraft,
        }
    }
}

pub open spec fn steps_view(s: Seq<PushStep>) -> Seq<PushStepModel> {
    Seq::new(s.len(), |i: int| s[i]@)
}

/// One `post_file` step per staged file, in the given order.
pub open spec fn file_steps(files: Seq<(Seq<char>, Seq<char>)>) -> Seq<PushStepModel> {
    Seq::new(files.len(), |i: int| PushStepModel::PostFile(files[i].0, files[i].1))
}

/// The steps of a push: the page lookup when the draft has no page, the answers when
/// some were staged, each file (`files` is already in ascending order of field), then
/// the deletion of the draft.
pub open spec fn push_plan(page_known: bool, answers_staged: bool, files: Seq<(Seq<char>, Seq<char>)>) -> Seq<PushStepModel> {
    (if page_known { Seq::empty() } else { seq![PushStepModel::ResolvePageUrl] })
        + (if answers_staged { seq![PushStepModel::PutAnswers] } else { Seq::empty() })
        + file_steps(files)
        + seq![PushStepModel::RemoveDraft]
}

/// The steps that finalise `draft`, in order, with the files in ascending order of
/// their field. The caller runs them one by one and stops at the first failure,
/// keeping the draft.
pub fn push_steps(draft: &StagedDraft) -> (r: (Vec<PushStep>, Vec<(String, String)>))
    ensures
        sorted_by_key(keyed_view(r.1@)),
        keyed_view(r.1@).to_multiset() == keyed_view(draft.files@).to_multiset(),
        steps_view(r.0@) == push_plan(draft.page_url@.len() > 0, draft.answers_staged, keyed_view(r.1@)),
{
    let files = sort_by_key(&draft.files);
    let mut steps: Vec<PushStep> = Vec::new();
    let ghost mut expect: Seq<PushStepModel> = Seq::empty();
    if draft.page_url.unicode_len() == 0 {
        steps.push(PushStep::ResolvePageUrl);
        proof {
            expect = seq![PushStepModel::ResolvePageUrl];
        }
    }
    assert(steps_view(steps@) =~= expect);
    if draft.answers_staged {
        let ghost before = steps@;
        steps.push(PushStep::PutAnswers);
        assert(steps_view(steps@) =~= steps_view(before).push(PushStepModel::PutAnswers));
        proof {
            expect = expect.push(PushStepModel::PutAnswers);
        }
    }
    assert(steps_view(steps@) =~= expect);
    let ghost head = expect;
    let mut i: usize = 0;
    while i < files.len()
        invariant
            i <= files@.len(),
            steps_view(steps@) == head + file_steps(keyed_view(files@).subrange(0, i as int)),
        decreases files@.len() - i,
    {
        let (pid, path) = &files[i];
        let ghost before = steps@;
        steps.push(PushStep::PostFile(pid.clone(), path.clone()));
        assert(steps_view(steps@) =~= steps_view(before).push(PushStepModel::PostFile(pid@, path@)));
        assert(file_steps(keyed_view(files@).subrange(0, i + 1)) =~= file_steps(
            keyed_view(files@).subrange(0, i as int),
        ).push(PushStepModel::PostFile(pid@, path@)));
        assert(steps_view(steps@) =~= head + file_steps(keyed_view(files@).subrange(0, i + 1)));
        i = i + 1;
    }
    assert(keyed_view(files@).subrange(0, files@.len() as int) =~= keyed_view(files@));
    let ghost before = steps@;
    steps.push(PushStep::RemoveDraft);
    assert(steps_view(steps@) =~= steps_view(before).push(PushStepModel::RemoveDraft));
    assert(steps_view(steps@) =~= push_plan(draft.page_url@.len() > 0, draft.answers_staged, keyed_view(files@)));
    (steps, files)
}

/// The draft is deleted only as the last step, after every server call: a push that
/// stops at a failed step leaves the draft in place.
pub proof fn lemma_draft_removed_last(page_known: bool, answers_staged: bool, files: Seq<(Seq<char>, Seq<char>)>)
    ensures
        push_plan(page_known, answers_staged, files).len() > 0,
        push_plan(page_known, answers_staged, files).last() is RemoveDraft,
        forall|i: int| 0 <= i < push_plan(page_known, answers_staged, files).len() - 1
            ==> !(#[trigger] push_plan(page_known, answers_staged, files)[i] is RemoveDraft),
{
    let head = (if page_known { Seq::empty() } else { seq![PushStepModel::ResolvePageUrl] })
        + (if answers_staged { seq![PushStepModel::PutAnswers] } else { Seq::empty() })
        + file_steps(files);
    let plan = push_plan(page_known, answers_staged, files);
    assert(plan =~= head + seq![PushStepModel::RemoveDraft]);
    assert forall|i: int| 0 <= i < plan.len() - 1 implies !(#[trigger] plan[i] is RemoveDraft) by {
        assert(plan[i] == head[i]);
    }
}

/// The staged answers are sent exactly when some were staged (an upload-only draft
/// never sends an empty answer set), every staged file is sent once, in the given
/// order, and the page is looked up exactly when the draft does not name it.
pub proof fn lemma_push_sends_what_was_staged(page_known: bool, answers_staged: bool, files: Seq<(Seq<char>, Seq<char>)>)
    ensures
        push_plan(page_known, answers_staged, files).contains(PushStepModel::PutAnswers) == answers_staged,
        push_plan(page_known, answers_staged, files).contains(PushStepModel::ResolvePageUrl) == !page_known,
        push_plan(page_known, answers_staged, files).len() == (if page_known { 0int } else { 1int })
            + (if answers_staged { 1int } else { 0int }) + files.len() + 1,
        forall|i: int| 0 <= i < files.len() ==> push_plan(page_known, answers_staged, files)[
            (if page_known { 0int } else { 1int }) + (if answers_staged { 1int } else { 0int }) + i]
            == PushStepModel::PostFile(files[i].0, files[i].1),
{
    let a = if page_known { Seq::<PushStepModel>::empty() } else { seq![PushStepModel::ResolvePageUrl] };
    let b = if answers_staged { seq![PushStepModel::PutAnswers] } else { Seq::<PushStepModel>::empty() };
    let f = file_steps(files);
    let plan = push_plan(page_known, answers_staged, files);
    assert(plan =~= a + b + f + seq![PushStepModel::RemoveDraft]);
    let off = a.len() + b.len();
    assert forall|i: int| 0 <= i < files.len() implies plan[off + i] == PushStepModel::PostFile(files[i].0, files[i].1) by {
        assert(plan[off + i] == f[i]);
    }
    if answers_staged {
        assert(plan[a.len() as int] == PushStepModel::PutAnswers);
    } else {
        assert forall|i: int| 0 <= i < plan.len() implies plan[i] != PushStepModel::PutAnswers by {
            if i < a.len() {
                assert(plan[i] == a[i]);
            } else if i < off + f.len() {
                assert(plan[i] == f[i - off]);
            } else {
                assert(plan[i] == PushStepModel::RemoveDraft);
            }
        }
    }
    if !page_known {
        assert(plan[0] == PushStepModel::ResolvePageUrl);
    } else {
        assert forall|i: int| 0 <= i < plan.len() implies plan[i] != PushStepModel::ResolvePageUrl by {
            if i < b.len() {
                assert(plan[i] == b[i]);
            } else if i < off + f.len() {
                assert(plan[i] == f[i - off]);
            } else {
                assert(plan[i] == PushStepModel::RemoveDraft);
            }
        }
    }
}

/// A failed step, as `push` reports it: a server or file step carries the note that
/// the draft is kept; a failed deletion is reported as it is.
pub fn push_step_error(step: &PushStep, err: ImoocsError, draft_path: &str) -> (r: ImoocsError)
    ensures
        step is RemoveDraft ==> r == err,
        !(step is RemoveDraft) ==> decorated(err, draft_path@, r),
{
    match step {
        PushStep::RemoveDraft => err,
        _ => decorate_push_err(err, draft_path),
    }
}

/// What a finished push reports.
#[derive(Debug, Clone)]
pub struct PushResult {
    pub pushed: bool,
    pub submitted: bool,
    pub year: u32,
    pub course_id: String,
    pub problem_id: String,
    /// The answer fields sent, in ascending order (none when no answer was staged).
    pub answers_submitted_pids: Vec<String>,
    /// The file fields sent, in the order they were sent.
    pub files_submitted_pids: Vec<String>,
    /// The server's status of the answers, as text, when answers were sent.
    pub status: Option<String>,
}

/// The report of a push that went through: the answer fields (sorted) when answers
/// were staged, and the fields of the files sent.
pub fn push_result(draft: &StagedDraft, files_sent: Vec<String>, status: Option<String>) -> (r: PushResult)
    ensures
        r.pushed && r.submitted,
        r.year == draft.year,
        r.course_id@ == draft.course_id@,
        r.problem_id@ == draft.problem_id@,
        draft.answers_staged ==> sorted_strings(strings_view(r.answers_submitted_pids@))
            && strings_view(r.answers_submitted_pids@).to_multiset() == strings_view(draft.answer_pids@).to_multiset(),
        !draft.answers_staged ==> r.answers_submitted_pids@.len() == 0,
        r.files_submitted_pids == files_sent,
        r.status == status,
{
    let answers = if draft.answers_staged { sort_strings(&draft.answer_pids) } else { Vec::new() };
    PushResult {
        pushed: true,
        submitted: true,
        year: draft.year,
        course_id: draft.course_id.clone(),
        problem_id: draft.problem_id.clone(),
        answers_submitted_pids: answers,
        files_submitted_pids: files_sent,
        status,
    }
}

/// The run of one draft's steps (from `push_steps`): they go one at a time, and the
/// first failure stops the run, reported as `push_step_error` reports it.
#[derive(Debug)]
pub struct DraftPush {
    pub steps: Vec<PushStep>,
    pub draft_path: String,
    /// How many steps went through.
    pub done: usize,
    pub failure: Option<ImoocsError>,
}

impl DraftPush {
    /// A run of `steps` for the draft at `draft_path`, nothing done yet.
    pub fn new(steps: Vec<PushStep>, draft_path: String) -> (r: Self)
        ensures
            r.steps == steps,
            r.draft_path == draft_path,
            r.done == 0,
            r.failure is None,
    {
        DraftPush { steps, draft_path, done: 0, failure: None }
    }

    /// The step to run next: the first one not yet done, while nothing has failed.
    pub fn next_step(&self) -> (r: Option<&PushStep>)
        ensures
            self.failure is None && self.done < self.steps@.len() ==> r == Some(&self.steps@[self.done as int]),
            !(self.failure is None && self.done < self.steps@.len()) ==> r is None,
    {
        if self.failure.is_none() && self.done < self.steps.len() {
            Some(&self.steps[self.done])
        } else {
            None
        }
    }

    /// Records how the step `next_step` gave ended: success moves on to the next step; a
    /// failure stops the run. With no step pending nothing changes.
    pub fn record(&mut self, outcome: Result<(), ImoocsError>)
        ensures
            final(self).steps == old(self).steps,
            final(self).draft_path == old(self).draft_path,
            !(old(self).failure is None && old(self).done < old(self).steps@.len()) ==> *final(self) == *old(self),
            old(self).failure is None && old(self).done < old(self).steps@.len() ==> match outcome {
                Ok(()) => final(self).done == old(self).done + 1 && final(self).failure is None,
                Err(e) => final(self).done == old(self).done && (final(self).failure matches Some(f)
                    && (if old(self).steps@[old(self).done as int] is RemoveDraft {
                        f == e
                    } else {
                        decorated(e, old(self).draft_path@, f)
                    })),
            },
    {
        if self.failure.is_none() && self.done < self.steps.len() {
            match outcome {
                Ok(()) => {
                    self.done = self.done + 1;
                },
                Err(e) => {
                    let f = push_step_error(&self.steps[self.done], e, self.draft_path.as_str());
                    self.failure = Some(f);
                },
            }
        }
    }

    /// Whether every step, the deletion of the draft last among them, went through.
    pub fn completed(&self) -> (r: bool)
        ensures
            r == (self.failure is None && self.done == self.steps@.len()),
    {
        self.failure.is_none() && self.done == self.steps.len()
    }
}

/// The run of `push` over its drafts: one at a time, in order; the first draft that
/// fails stops the run, and its error is the run's result.
#[derive(Debug)]
pub struct PushQueue {
    pub total: usize,
    pub results: Vec<PushResult>,
    pub failure: Option<ImoocsError>,
}

impl PushQueue {
    /// A run over `total` drafts, none pushed yet.
    pub fn new(total: usize) -> (r: Self)
        ensures
            r.total == total,
            r.results@.len() == 0,
            r.failure is None,
    {
        PushQueue { total, results: Vec::new(), failure: None }
    }

    /// The position of the draft to push next, while nothing has failed.
    pub fn next_index(&self) -> (r: Option<usize>)
        ensures
            self.failure is None && self.results@.len() < self.total ==> r == Some(self.results@.len() as usize),
            !(self.failure is None && self.results@.len() < self.total) ==> r is None,
    {
        if self.failure.is_none() && self.results.len() < self.total {
            Some(self.results.len())
        } else {
            None
        }
    }

    /// Records how the draft `next_index` gave ended; with no draft pending nothing
    /// changes.
    pub fn record(&mut self, outcome: Result<PushResult, ImoocsError>)
        ensures
            final(self).total == old(self).total,
            !(old(self).failure is None && old(self).results@.len() < old(self).total) ==> *final(self) == *old(self),
            old(self).failure is None && old(self).results@.len() < old(self).total ==> match outcome {
                Ok(res) => final(self).results@ == old(self).results@.push(res) && final(self).failure is None,
                Err(e) => final(self).results@ == old(self).results@ && final(self).failure == Some(e),
            },
    {
        if self.failure.is_none() && self.results.len() < self.total {
            match outcome {
                Ok(res) => {
                    self.results.push(res);
                },
                Err(e) => {
                    self.failure = Some(e);
                },
            }
        }
    }

    /// The run's result: the first failure, or the reports of all drafts in order.
    pub fn finish(self) -> (r: Result<Vec<PushResult>, ImoocsError>)
        ensures
            self.failure matches Some(e) ==> r == Err::<Vec<PushResult>, ImoocsError>(e),
            self.failure is None ==> r == Ok::<Vec<PushResult>, ImoocsError>(self.results),
    {
        match self.failure {
            Some(e) => Err(e),
            None => Ok(self.results),
        }
    }
}

/// Text of the error when nothing is staged.
pub open spec fn nothing_staged_message() -> Seq<char> {
    "no draft staged. Run `imoocs assignment submit` or `upload` first."@
}

/// The drafts a push goes through: the one of `--url`, or every staged draft; none at
/// all is an error.
pub fn push_targets(url_key: Option<AssignmentKey>, staged: Vec<AssignmentKey>) -> (r: Result<Vec<AssignmentKey>, ImoocsError>)
    ensures
        url_key matches Some(k) ==> (r matches Ok(v) && v@ == seq![k]),
        url_key is None && staged@.len() > 0 ==> r == Ok::<Vec<AssignmentKey>, ImoocsError>(staged),
        url_key is None && staged@.len() == 0 ==> (r matches Err(ImoocsError::NotFound { what })
            && what@ == nothing_staged_message()),
{
    match url_key {
        Some(k) => {
            let mut v = Vec::new();
            v.push(k);
            Ok(v)
        },
        None => {
            if staged.len() == 0 {
                Err(ImoocsError::NotFound {
                    what: String::from_str("no draft staged. Run `imoocs assignment submit` or `upload` first."),
                })
            } else {
                Ok(staged)
            }
        },
    }
}

/// The error when the draft of `key` is missing at push time.
pub fn missing_draft_error(key: &AssignmentKey) -> (r: ImoocsError)
    ensures
        r matches ImoocsError::NotFound { what } && what@ == "no draft staged for "@ + key.course_id@ + "/"@
            + key.problem_id@ + ". Run `imoocs assignment submit` or `upload` first."@,
{
    let mut w = String::from_str("no draft staged for ");
    w.append(key.course_id.as_str());
    w.append("/");
    w.append(key.problem_id.as_str());
    w.append(". Run `imoocs assignment submit` or `upload` first.");
    ImoocsError::NotFound { what: w }
}

/// The error of `drafts show` when the draft is missing.
pub fn no_draft_error(key: &AssignmentKey) -> (r: ImoocsError)
    ensures
        r matches ImoocsError::NotFound { what } && what@ == "no draft staged for "@ + key.course_id@ + "/"@
            + key.problem_id@,
{
    let mut w = String::from_str("no draft staged for ");
    w.append(key.course_id.as_str());
    w.append("/");
    w.append(key.problem_id.as_str());
    ImoocsError::NotFound { what: w }
}

/// `[<i+1>/<total>] <course>/<problem>`, the prefix of the progress lines.
pub open spec fn push_label_text(i: nat, total: nat, key: AssignmentKey) -> Seq<char> {
    "["@ + decimal(i + 1) + "/"@ + decimal(total) + "] "@ + key.course_id@ + "/"@ + key.problem_id@
}

pub fn push_label(i: usize, total: usize, key: &AssignmentKey) -> (r: String)
    requires
        i < total,
    ensures
        r@ == push_label_text(i as nat, total as nat, *key),
{
    let mut out = String::from_str("[");
    let a = u64_to_decimal((i + 1) as u64);
    out.append(a.as_str());
    out.append("/");
    let b = u64_to_decimal(total as u64);
    out.append(b.as_str());
    out.append("] ");
    out.append(key.course_id.as_str());
    out.append("/");
    out.append(key.problem_id.as_str());
    out
}

/// `✓ <course>/<problem> (answers=<n>, files=<m>[, status=<s>])`.
pub open spec fn pushed_line(r: PushResult) -> Seq<char> {
    "\u{2713} "@ + r.course_id@ + "/"@ + r.problem_id@ + " (answers="@ + decimal(r.answers_submitted_pids@.len())
        + ", files="@ + decimal(r.files_submitted_pids@.len())
        + (match r.status { Some(s) => ", status="@ + s@, None => Seq::empty() }) + ")"@
}

/// The lines of the first `n` results, separated by line breaks.
pub open spec fn pushed_lines(rs: Seq<PushResult>, n: int) -> Seq<char>
    decreases n,
{
    if n <= 0 {
        Seq::empty()
    } else if n == 1 {
        pushed_line(rs[0])
    } else {
        pushed_lines(rs, n - 1) + "\n"@ + pushed_line(rs[n - 1])
    }
}

fn render_pushed_line(r: &PushResult) -> (s: String)
    ensures
        s@ == pushed_line(*r),
{
    let mut out = String::from_str("\u{2713} ");
    out.append(r.course_id.as_str());
    out.append("/");
    out.append(r.problem_id.as_str());
    out.append(" (answers=");
    let a = u64_to_decimal(r.answers_submitted_pids.len() as u64);
    out.append(a.as_str());
    out.append(", files=");
    let f = u64_to_decimal(r.files_submitted_pids.len() as u64);
    out.append(f.as_str());
    match &r.status {
        Some(s) => {
            out.append(", status=");
            out.append(s.as_str());
        },
        None => {},
    }
    out.append(")");
    out
}

/// The text summary of `push`: a line per draft.
pub fn push_summary_text(results: &Vec<PushResult>) -> (s: String)
    ensures
        s@ == pushed_lines(results@, results@.len() as int),
{
    let mut out = String::new();
    let mut i: usize = 0;
    while i < results.len()
        invariant
            i <= results@.len(),
            out@ == pushed_lines(results@, i as int),
        decreases results@.len() - i,
    {
        if i > 0 {
            out.append("\n");
        }
        let line = render_pushed_line(&results[i]);
        out.append(line.as_str());
        i = i + 1;
    }
    out
}

/// The page to submit on: the one the URL named, else the one found by a lookup.
pub fn page_url_or(hint: Option<String>, looked_up: String) -> (r: String)
    ensures
        r == (match hint { Some(u) => u, None => looked_up }),
{
    match hint {
        Some(u) => u,
        None => looked_up,
    }
}

/// A file's name as shown, `file` when it has none that is text.
pub fn file_label(name: Option<&str>) -> (r: &str)
    ensures
        r@ == (match name { Some(n) => n@, None => "file"@ }),
{
    proof {
        reveal_strlit("file");
    }
    match name {
        Some(n) => n,
        None => "file",
    }
}

/// `✓ <course>/<problem> staged (answers=<a>, files=<f>) — `imoocs assignment push` で確定`.
pub open spec fn staged_line(course: Seq<char>, problem: Seq<char>, answers: nat, files: nat) -> Seq<char> {
    "\u{2713} "@ + course + "/"@ + problem + " staged (answers="@ + decimal(answers) + ", files="@ + decimal(files)
        + ")"@ + PUSH_TO_FINALISE@
}

/// The tail of the lines that report a staged draft.
pub const PUSH_TO_FINALISE: &'static str = " \u{2014} `imoocs assignment push` \u{3067}\u{78ba}\u{5b9a}";

pub fn staged_summary(course: &str, problem: &str, answers: usize, files: usize) -> (r: String)
    ensures
        r@ == staged_line(course@, problem@, answers as nat, files as nat),
{
    let mut out = String::from_str("\u{2713} ");
    out.append(course);
    out.append("/");
    out.append(problem);
    out.append(" staged (answers=");
    let a = u64_to_decimal(answers as u64);
    out.append(a.as_str());
    out.append(", files=");
    let f = u64_to_decimal(files as u64);
    out.append(f.as_str());
    out.append(")");
    out.append(PUSH_TO_FINALISE);
    out
}

/// `✓ <course>/<problem> submitted (answers=<n>, status=<s>)`.
pub open spec fn submitted_line(course: Seq<char>, problem: Seq<char>, answers: nat, status: Seq<char>) -> Seq<char> {
    "\u{2713} "@ + course + "/"@ + problem + " submitted (answers="@ + decimal(answers) + ", status="@ + status + ")"@
}

pub fn submitted_summary(course: &str, problem: &str, answers: usize, status: &str) -> (r: String)
    ensures
        r@ == submitted_line(course@, problem@, answers as nat, status@),
{
    let mut out = String::from_str("\u{2713} ");
    out.append(course);
    out.append("/");
    out.append(problem);
    out.append(" submitted (answers=");
    let a = u64_to_decimal(answers as u64);
    out.append(a.as_str());
    out.append(", status=");
    out.append(status);
    out.append(")");
    out
}

/// `✓ <course>/<problem> uploaded <pid> (<file>)` after a direct upload.
pub open spec fn uploaded_line(course: Seq<char>, problem: Seq<char>, pid: Seq<char>, file: Seq<char>) -> Seq<char> {
    "\u{2713} "@ + course + "/"@ + problem + " uploaded "@ + pid + " ("@ + file + ")"@
}

pub fn uploaded_summary(course: &str, problem: &str, pid: &str, file: &str) -> (r: String)
    ensures
        r@ == uploaded_line(course@, problem@, pid@, file@),
{
    let mut out = String::from_str("\u{2713} ");
    out.append(course);
    out.append("/");
    out.append(problem);
    out.append(" uploaded ");
    out.append(pid);
    out.append(" (");
    out.append(file);
    out.append(")");
    out
}

/// `✓ <course>/<problem> staged <pid> — ...` after a staged upload.
pub open spec fn staged_upload_line(course: Seq<char>, problem: Seq<char>, pid: Seq<char>) -> Seq<char> {
    "\u{2713} "@ + course + "/"@ + problem + " staged "@ + pid + PUSH_TO_FINALISE@
}

pub fn staged_upload_summary(course: &str, problem: &str, pid: &str) -> (r: String)
    ensures
        r@ == staged_upload_line(course@, problem@, pid@),
{
    let mut out = String::from_str("\u{2713} ");
    out.append(course);
    out.append("/");
    out.append(problem);
    out.append(" staged ");
    out.append(pid);
    out.append(PUSH_TO_FINALISE);
    out
}

/// The error when a file to stage cannot be resolved to an absolute path.
pub fn unresolvable_file_error(path: &str, reason: &str) -> (r: ImoocsError)
    ensures
        r matches ImoocsError::Validation(m) && m@ == "cannot resolve file path "@ + path@ + ": "@ + reason@,
{
    let mut m = String::from_str("cannot resolve file path ");
    m.append(path);
    m.append(": ");
    m.append(reason);
    ImoocsError::Validation(m)
}

/// `drafts clear --all` removes the `.json` files of the drafts directory only.
pub fn is_draft_file(extension: Option<&str>) -> (r: bool)
    ensures
        r == (match extension { Some(e) => e@ == "json"@, None => false }),
{
    match extension {
        Some(e) => crate::text::str_eq(e, "json"),
        None => false,
    }
}

/// `✓ Cleared <n> draft(s)`.
pub fn cleared_all_summary(removed: usize) -> (r: String)
    ensures
        r@ == "\u{2713} Cleared "@ + decimal(removed as nat) + " draft(s)"@,
{
    let mut out = String::from_str("\u{2713} Cleared ");
    let n = u64_to_decimal(removed as u64);
    out.append(n.as_str());
    out.append(" draft(s)");
    out
}

/// `✓ Cleared <course>/<problem>`, or `- No draft for <course>/<problem>`.
pub fn cleared_one_summary(course: &str, problem: &str, existed: bool) -> (r: String)
    ensures
        r@ == (if existed { "\u{2713} Cleared "@ } else { "- No draft for "@ }) + course@ + "/"@ + problem@,
{
    let mut out = if existed { String::from_str("\u{2713} Cleared ") } else { String::from_str("- No draft for ") };
    out.append(course);
    out.append("/");
    out.append(problem);
    out
}

} // verus!

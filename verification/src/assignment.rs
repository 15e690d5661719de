//! Decisions of the `assignment` commands: locating a problem from a MOOCs URL,
//! filtering by status, reading `--data`, and reporting push failures.
use vstd::prelude::*;
use crate::confirm::join_with;
use crate::error::ImoocsError;
use crate::order::{keyed_view, lex_le, sort_by_key, sort_strings, sorted_by_key, sorted_strings, strings_view};
use crate::text::{decimal, str_eq, u64_to_decimal};

verus! {

/// Problem text language.
#[derive(Debug, Clone, Copy, PartialEq, Eq, Structural)]
pub enum Lang {
    Ja,
    En,
}

/// The `--lang` argument.
#[derive(Debug, Clone, Copy, PartialEq, Eq, Structural)]
pub enum LangArg {
    Ja,
    En,
}

impl LangArg {
    pub fn to_lang(self) -> (r: Lang)
        ensures
            self == LangArg::Ja ==> r == Lang::Ja,
            self == LangArg::En ==> r == Lang::En,
    {
        match self {
            LangArg::Ja => Lang::Ja,
            LangArg::En => Lang::En,
        }
    }
}

/// Status of an assignment, as derived from the server status and the current answer.
#[derive(Debug, Clone, Copy, PartialEq, Eq, Structural)]
pub enum DerivedStatus {
    Pending,
    Submitted,
    Closed,
    Graded,
    Network,
    Error,
    NonPublic,
}

/// The `--status` filter of `assignment list`.
#[derive(Debug, Clone, Copy, PartialEq, Eq, Structural)]
pub enum StatusFilter {
    Pending,
    Submitted,
    Closed,
    Graded,
    Network,
    Error,
    NonPublic,
    /// Open on the server: pending or submitted.
    Open,
    All,
}

/// `all` keeps everything, `open` keeps pending and submitted, any other filter keeps
/// exactly its own status.
pub open spec fn status_kept(d: DerivedStatus, f: StatusFilter) -> bool {
    match f {
        StatusFilter::All => true,
        StatusFilter::Pending => d == DerivedStatus::Pending,
        StatusFilter::Submitted => d == DerivedStatus::Submitted,
        StatusFilter::Closed => d == DerivedStatus::Closed,
        StatusFilter::Graded => d == DerivedStatus::Graded,
        StatusFilter::Network => d == DerivedStatus::Network,
        StatusFilter::Error => d == DerivedStatus::Error,
        StatusFilter::NonPublic => d == DerivedStatus::NonPublic,
        StatusFilter::Open => d == DerivedStatus::Pending || d == DerivedStatus::Submitted,
    }
}

/// The filter that bears the name of a status (`--status pending` for a pending one, ...).
pub open spec fn filter_named_after(d: DerivedStatus) -> StatusFilter {
    match d {
        DerivedStatus::Pending => StatusFilter::Pending,
        DerivedStatus::Submitted => StatusFilter::Submitted,
        DerivedStatus::Closed => StatusFilter::Closed,
        DerivedStatus::Graded => StatusFilter::Graded,
        DerivedStatus::Network => StatusFilter::Network,
        DerivedStatus::Error => StatusFilter::Error,
        DerivedStatus::NonPublic => StatusFilter::NonPublic,
    }
}

/// A filter named after a status keeps that status and no other one; `all` keeps every
/// status; `open` keeps exactly what `pending` or `submitted` keeps. So no two
/// single-status filters keep a common status.
pub proof fn lemma_each_filter_keeps_its_own_status(d: DerivedStatus, other: DerivedStatus)
    ensures
        status_kept(d, filter_named_after(d)),
        other != d ==> !status_kept(other, filter_named_after(d)),
        status_kept(other, StatusFilter::All),
        status_kept(other, StatusFilter::Open) <==> (status_kept(other, StatusFilter::Pending) || status_kept(
            other,
            StatusFilter::Submitted,
        )),
        status_kept(other, StatusFilter::Open) <==> (other == DerivedStatus::Pending || other == DerivedStatus::Submitted),
{
}

pub fn keep_by_status(d: DerivedStatus, filter: StatusFilter) -> (r: bool)
    ensures
        r == status_kept(d, filter),
{
    match filter {
        StatusFilter::All => true,
        StatusFilter::Pending => d == DerivedStatus::Pending,
        StatusFilter::Submitted => d == DerivedStatus::Submitted,
        StatusFilter::Closed => d == DerivedStatus::Closed,
        StatusFilter::Graded => d == DerivedStatus::Graded,
        StatusFilter::Network => d == DerivedStatus::Network,
        StatusFilter::Error => d == DerivedStatus::Error,
        StatusFilter::NonPublic => d == DerivedStatus::NonPublic,
        StatusFilter::Open => d == DerivedStatus::Pending || d == DerivedStatus::Submitted,
    }
}

/// What a MOOCs URL points to.
#[derive(Debug, Clone)]
pub enum MoocsPath {
    CoursesIndex,
    Year(u32),
    Course { year: u32, course_id: String },
    Lesson { year: u32, course_id: String, lesson_id: String },
    Page { year: u32, course_id: String, lesson_id: String, page_id: String },
}

/// One assignment: year, course and problem.
#[derive(Debug, Clone)]
pub struct AssignmentKey {
    pub year: u32,
    pub course_id: String,
    pub problem_id: String,
}

/// `https://moocs.iniad.org/courses/<year>/<course>/<lesson>/<page>`.
pub open spec fn page_url(year: u32, course: Seq<char>, lesson: Seq<char>, page: Seq<char>) -> Seq<char> {
    "https://moocs.iniad.org/courses/"@ + decimal(year as nat) + "/"@ + course + "/"@ + lesson + "/"@ + page
}

pub fn make_page_url(year: u32, course: &str, lesson: &str, page: &str) -> (r: String)
    ensures
        r@ == page_url(year, course@, lesson@, page@),
{
    let mut s = String::from_str("https://moocs.iniad.org/courses/");
    let y = u64_to_decimal(year as u64);
    s.append(y.as_str());
    s.append("/");
    s.append(course);
    s.append("/");
    s.append(lesson);
    s.append("/");
    s.append(page);
    s
}

/// Where a `--url` leads before any page is read.
#[derive(Debug)]
pub enum UrlLocation {
    /// The problem is known: its key and its page.
    Resolved(AssignmentKey, String),
    /// The page must be read to find its problems.
    NeedsPage { year: u32, course_id: String, lesson_id: String, page_id: Option<String> },
}

/// Reads a lesson or page URL. With a page id and an explicit problem id the key is
/// known at once; otherwise the page must be read. Other URLs are refused.
pub fn locate_from_url(path: Option<MoocsPath>, problem_id: Option<String>, url: &str) -> (r: Result<UrlLocation, ImoocsError>)
    ensures
        match path {
            Some(MoocsPath::Page { year, course_id, lesson_id, page_id }) => match problem_id {
                Some(pid) => r matches Ok(UrlLocation::Resolved(k, u)) && k.year == year && k.course_id == course_id
                    && k.problem_id == pid && u@ == page_url(year, course_id@, lesson_id@, page_id@),
                None => r matches Ok(UrlLocation::NeedsPage { year: y, course_id: c, lesson_id: l, page_id: p })
                    && y == year && c == course_id && l == lesson_id && p == Some(page_id),
            },
            Some(MoocsPath::Lesson { year, course_id, lesson_id }) =>
                r matches Ok(UrlLocation::NeedsPage { year: y, course_id: c, lesson_id: l, page_id: p })
                    && y == year && c == course_id && l == lesson_id && p is None,
            _ => r matches Err(ImoocsError::Validation(m)) && m@ == "URL does not point to a lesson/page: "@ + url@,
        },
{
    match path {
        Some(MoocsPath::Page { year, course_id, lesson_id, page_id }) => match problem_id {
            Some(pid) => {
                let u = make_page_url(year, course_id.as_str(), lesson_id.as_str(), page_id.as_str());
                Ok(UrlLocation::Resolved(AssignmentKey { year, course_id, problem_id: pid }, u))
            },
            None => Ok(UrlLocation::NeedsPage { year, course_id, lesson_id, page_id: Some(page_id) }),
        },
        Some(MoocsPath::Lesson { year, course_id, lesson_id }) => Ok(
            UrlLocation::NeedsPage { year, course_id, lesson_id, page_id: None },
        ),
        _ => {
            let mut m = String::from_str("URL does not point to a lesson/page: ");
            m.append(url);
            Err(ImoocsError::Validation(m))
        },
    }
}

/// The problem ids found on a page, joined with `", "`.
pub open spec fn problem_list(problems: Seq<String>) -> Seq<char> {
    join_with(strings_view(problems), ", "@)
}

fn list_problems(problems: &Vec<String>) -> (r: String)
    ensures
        r@ == problem_list(problems@),
{
    let r = crate::confirm::join_strings(problems.as_slice(), ", ");
    assert(Seq::new(problems@.len(), |i: int| problems@[i]@) =~= strings_view(problems@));
    r
}

/// Chooses the problem of a page that was read (its id is `page_id`, its problems
/// `problems`): an explicit id must be on the page; without one the page must hold
/// exactly one problem.
pub fn pick_problem(
    year: u32,
    course_id: &str,
    lesson_id: &str,
    page_id: &str,
    problems: &Vec<String>,
    problem_id: Option<String>,
    url: &str,
) -> (r: Result<(AssignmentKey, String), ImoocsError>)
    ensures
        match problem_id {
            Some(pid) => if strings_view(problems@).contains(pid@) {
                r matches Ok((k, u)) && k.year == year && k.course_id@ == course_id@ && k.problem_id == pid
                    && u@ == page_url(year, course_id@, lesson_id@, page_id@)
            } else {
                r matches Err(ImoocsError::NotFound { what: m }) && m@ == "problem_id `"@ + pid@
                    + "` not on page "@ + url@ + " (found: "@ + problem_list(problems@) + ")"@
            },
            None => if problems@.len() == 0 {
                r matches Err(ImoocsError::NotFound { what: m }) && m@ == "no `.problem-container` on page "@ + url@
            } else if problems@.len() == 1 {
                r matches Ok((k, u)) && k.year == year && k.course_id@ == course_id@ && k.problem_id
                    == problems@[0] && u@ == page_url(year, course_id@, lesson_id@, page_id@)
            } else {
                r matches Err(ImoocsError::Validation(m)) && m@ == "page has "@ + decimal(problems@.len())
                    + " assignments; pass --problem-id explicitly (one of: "@ + problem_list(problems@) + ")"@
            },
        },
{
    match problem_id {
        Some(pid) => {
            let mut found = false;
            let mut i: usize = 0;
            while i < problems.len()
                invariant
                    i <= problems@.len(),
                    found ==> strings_view(problems@).contains(pid@),
                    !found ==> forall|k: int| 0 <= k < i ==> (#[trigger] problems@[k])@ != pid@,
                decreases problems@.len() - i,
            {
                if str_eq(problems[i].as_str(), pid.as_str()) {
                    assert(strings_view(problems@)[i as int] == pid@);
                    found = true;
                }
                i = i + 1;
            }
            proof {
                if !found && strings_view(problems@).contains(pid@) {
                    let k = choose|k: int| 0 <= k < strings_view(problems@).len() && strings_view(problems@)[k] == pid@;
                    assert(problems@[k]@ != pid@);
                }
            }
            if found {
                let u = make_page_url(year, course_id, lesson_id, page_id);
                Ok((AssignmentKey { year, course_id: String::from_str(course_id), problem_id: pid }, u))
            } else {
                let mut m = String::from_str("problem_id `");
                m.append(pid.as_str());
                m.append("` not on page ");
                m.append(url);
                m.append(" (found: ");
                let l = list_problems(problems);
                m.append(l.as_str());
                m.append(")");
                Err(ImoocsError::NotFound { what: m })
            }
        },
        None => {
            if problems.len() == 0 {
                let mut m = String::from_str("no `.problem-container` on page ");
                m.append(url);
                Err(ImoocsError::NotFound { what: m })
            } else if problems.len() == 1 {
                let u = make_page_url(year, course_id, lesson_id, page_id);
                Ok((AssignmentKey { year, course_id: String::from_str(course_id), problem_id: problems[0].clone() }, u))
            } else {
                let mut m = String::from_str("page has ");
                let n = u64_to_decimal(problems.len() as u64);
                m.append(n.as_str());
                m.append(" assignments; pass --problem-id explicitly (one of: ");
                let l = list_problems(problems);
                m.append(l.as_str());
                m.append(")");
                Err(ImoocsError::Validation(m))
            }
        },
    }
}

/// One entry of a course's assignment list, as far as locating a page needs.
#[derive(Debug, Clone)]
pub struct AssignmentSummary {
    pub problem_id: String,
    pub lesson_id: Option<String>,
    pub page_id: String,
    pub derived_status: DerivedStatus,
}

/// An entry stays in `assignment list`: it is in the lesson asked for (if any) and its
/// status passes the filter.
pub open spec fn listed(a: AssignmentSummary, lesson: Option<Seq<char>>, status: StatusFilter) -> bool {
    (match lesson {
        Some(l) => a.lesson_id matches Some(x) && x@ == l,
        None => true,
    }) && status_kept(a.derived_status, status)
}

/// `listed` as a predicate on entries.
pub open spec fn listed_pred(lesson: Option<Seq<char>>, status: StatusFilter) -> spec_fn(AssignmentSummary) -> bool {
    |a: AssignmentSummary| listed(a, lesson, status)
}

/// The entries of `assignment list` that are listed, in their order.
pub fn filter_listing(list: Vec<AssignmentSummary>, lesson: Option<&str>, status: StatusFilter) -> (r: Vec<AssignmentSummary>)
    ensures
        r@ == list@.filter(listed_pred(match lesson { Some(l) => Some(l@), None => None }, status)),
{
    let ghost lv = match lesson { Some(l) => Some(l@), None => None::<Seq<char>> };
    let ghost want = listed_pred(lv, status);
    let ghost all = list@;
    let mut out: Vec<AssignmentSummary> = Vec::new();
    let mut rest = list;
    assert(all.subrange(0, 0).filter(want) =~= Seq::<AssignmentSummary>::empty()) by {
        reveal(Seq::filter);
    }
    assert(all.subrange(0, 0) + rest@ =~= all);
    while rest.len() > 0
        invariant
            lv == match lesson { Some(l) => Some(l@), None => None::<Seq<char>> },
            want == listed_pred(lv, status),
            rest@.len() <= all.len(),
            all.subrange(0, all.len() - rest@.len()) + rest@ == all,
            out@ == all.subrange(0, all.len() - rest@.len()).filter(want),
        decreases rest@.len(),
    {
        let ghost k = all.len() - rest@.len();
        assert((all.subrange(0, k) + rest@)[k] == rest@[0]);
        let ghost before = rest@;
        let a = rest.remove(0);
        assert(rest@ =~= before.subrange(1, before.len() as int));
        assert(all[k] == a);
        let in_lesson = match lesson {
            Some(l) => match &a.lesson_id {
                Some(x) => str_eq(x.as_str(), l),
                None => false,
            },
            None => true,
        };
        let keep = in_lesson && keep_by_status(a.derived_status, status);
        assert(in_lesson == (match lv { Some(l) => a.lesson_id matches Some(x) && x@ == l, None => true }));
        assert(keep == listed(a, lv, status));
        assert(keep == want(a));
        assert(all.subrange(0, k + 1).drop_last() =~= all.subrange(0, k));
        assert(all.subrange(0, k + 1).last() == a);
        proof {
            reveal(Seq::filter);
        }
        if keep {
            out.push(a);
        }
        assert(all.subrange(0, k + 1) + rest@ =~= all);
    }
    assert(all.subrange(0, all.len() as int) =~= all);
    out
}

/// Finds the page of `key` in the course's assignment list: the first entry with the
/// problem id, which must carry its lesson.
pub fn page_url_from_list(key: &AssignmentKey, list: &Vec<AssignmentSummary>) -> (r: Result<String, ImoocsError>)
    ensures
        (forall|i: int| 0 <= i < list@.len() ==> (#[trigger] list@[i]).problem_id@ != key.problem_id@) ==> (r matches Err(
            ImoocsError::NotFound { what: m },
        ) && m@ == "problem_id `"@ + key.problem_id@ + "` not found in course `"@ + key.course_id@ + "` (year "@
            + decimal(key.year as nat) + "); double-check the id or pass --url"@),
        forall|i: int|
            0 <= i < list@.len() && (#[trigger] list@[i]).problem_id@ == key.problem_id@ && (forall|j: int|
                0 <= j < i ==> list@[j].problem_id@ != key.problem_id@) ==> match list@[i].lesson_id {
                Some(l) => r matches Ok(u) && u@ == page_url(key.year, key.course_id@, l@, list@[i].page_id@),
                None => r matches Err(ImoocsError::Internal(m)) && m@
                    == "list_course_assignments did not return lesson_id for problem `"@ + key.problem_id@ + "`"@,
            },
{
    let mut i: usize = 0;
    while i < list.len()
        invariant
            i <= list@.len(),
            forall|j: int| 0 <= j < i ==> (#[trigger] list@[j]).problem_id@ != key.problem_id@,
        decreases list@.len() - i,
    {
        if str_eq(list[i].problem_id.as_str(), key.problem_id.as_str()) {
            match &list[i].lesson_id {
                Some(l) => {
                    return Ok(make_page_url(key.year, key.course_id.as_str(), l.as_str(), list[i].page_id.as_str()));
                },
                None => {
                    let mut m = String::from_str("list_course_assignments did not return lesson_id for problem `");
                    m.append(key.problem_id.as_str());
                    m.append("`");
                    return Err(ImoocsError::Internal(m));
                },
            }
        }
        i = i + 1;
    }
    let mut m = String::from_str("problem_id `");
    m.append(key.problem_id.as_str());
    m.append("` not found in course `");
    m.append(key.course_id.as_str());
    m.append("` (year ");
    let y = u64_to_decimal(key.year as u64);
    m.append(y.as_str());
    m.append("); double-check the id or pass --url");
    Err(ImoocsError::NotFound { what: m })
}

/// Where the `--data` payload comes from.
#[derive(Debug)]
pub enum DataSource {
    /// `-`: standard input.
    Stdin,
    /// `@<path>`: a file.
    File(String),
    /// Anything else: the JSON text itself.
    Inline(String),
}

pub fn data_source(raw: &str) -> (r: DataSource)
    ensures
        raw@ == "-"@ ==> r is Stdin,
        raw@ != "-"@ && raw@.len() > 0 && raw@[0] == '@' ==> (r matches DataSource::File(p) && p@ == raw@.subrange(
            1,
            raw@.len() as int,
        )),
        raw@ != "-"@ && !(raw@.len() > 0 && raw@[0] == '@') ==> (r matches DataSource::Inline(t) && t@ == raw@),
{
    if str_eq(raw, "-") {
        return DataSource::Stdin;
    }
    let n = raw.unicode_len();
    if n > 0 && raw.get_char(0) == '@' {
        return DataSource::File(String::from_str(raw.substring_char(1, n)));
    }
    DataSource::Inline(String::from_str(raw))
}

/// The error when the `--data` payload cannot be read (from stdin or from a file), with
/// the text of the I/O error.
pub fn data_read_error(source: &DataSource, reason: &str) -> (r: ImoocsError)
    ensures
        source is Stdin ==> (r matches ImoocsError::Validation(m) && m@ == "cannot read stdin: "@ + reason@),
        source matches DataSource::File(p) ==> (r matches ImoocsError::Validation(m)
            && m@ == "cannot read "@ + p@ + ": "@ + reason@),
        source is Inline ==> (r matches ImoocsError::Internal(m) && m@ == reason@),
{
    match source {
        DataSource::Stdin => {
            let mut m = String::from_str("cannot read stdin: ");
            m.append(reason);
            ImoocsError::Validation(m)
        },
        DataSource::File(p) => {
            let mut m = String::from_str("cannot read ");
            m.append(p.as_str());
            m.append(": ");
            m.append(reason);
            ImoocsError::Validation(m)
        },
        DataSource::Inline(_) => ImoocsError::Internal(String::from_str(reason)),
    }
}

/// What `serde_json::from_str::<serde_json::Value>(text)` yields, as far as `--data` reads
/// it: the text of the parse error; for a JSON object, `Some` of its members in the order
/// its map holds them, each as its key and the compact JSON text of its value (as the
/// value's `Display` writes it); `None` for any other JSON value.
pub uninterp spec fn json_object_members(text: Seq<char>) -> Result<Option<Seq<(Seq<char>, Seq<char>)>>, Seq<char>>;

/// Each member as the characters of its key and of its value's JSON text.
pub open spec fn members_view(v: Seq<(String, String)>) -> Seq<(Seq<char>, Seq<char>)> {
    Seq::new(v.len(), |i: int| (v[i].0@, v[i].1@))
}

/// A parse outcome with the strings taken as their characters.
pub open spec fn parsed_members(r: Result<Option<Vec<(String, String)>>, String>) -> Result<Option<Seq<(Seq<char>, Seq<char>)>>, Seq<char>> {
    match r {
        Ok(Some(v)) => Ok(Some(members_view(v@))),
        Ok(None) => Ok(None),
        Err(e) => Err(e@),
    }
}

/// Parses `text` with `serde_json::from_str::<serde_json::Value>`; a JSON object comes back
/// as its members, each value as its compact JSON text (`Value::to_string`).
#[verifier::external_body]
fn parse_json_object(text: &str) -> (r: Result<Option<Vec<(String, String)>>, String>)
    ensures
        parsed_members(r) == json_object_members(text@),
{
    match serde_json::from_str::<serde_json::Value>(text) {
        Ok(serde_json::Value::Object(m)) => Ok(Some(m.into_iter().map(|(k, v)| (k, v.to_string())).collect())),
        Ok(_) => Ok(None),
        Err(e) => Err(e.to_string()),
    }
}

/// The `--data` payload (surrounding whitespace ignored) must be a JSON object mapping
/// each field to its answer; the answers come back as the object's members, each value
/// as its JSON text.
pub fn parse_data_text(body: &str) -> (r: Result<Vec<(String, String)>, ImoocsError>)
    ensures
        match json_object_members(crate::drive_target::trimmed(body@)) {
            Err(e) => r matches Err(ImoocsError::Validation(m)) && m@ == "invalid JSON in --data: "@ + e,
            Ok(None) => r matches Err(ImoocsError::Validation(m))
                && m@ == "--data must be a JSON object mapping pid -> value"@,
            Ok(Some(members)) => r matches Ok(v) && members_view(v@) == members,
        },
{
    let t = crate::drive_target::trim(body);
    match parse_json_object(t) {
        Ok(Some(v)) => Ok(v),
        Ok(None) => Err(ImoocsError::Validation(String::from_str("--data must be a JSON object mapping pid -> value"))),
        Err(e) => {
            let mut m = String::from_str("invalid JSON in --data: ");
            m.append(e.as_str());
            Err(ImoocsError::Validation(m))
        },
    }
}

/// The lesson or page a `lesson show --url` designates.
#[derive(Debug)]
pub struct LessonTarget {
    pub year: u32,
    pub course_id: String,
    pub lesson_id: String,
    pub page_id: Option<String>,
}

pub fn lesson_target_from_url(path: Option<MoocsPath>, url: &str) -> (r: Result<LessonTarget, ImoocsError>)
    ensures
        match path {
            Some(MoocsPath::Page { year, course_id, lesson_id, page_id }) => r matches Ok(t) && t.year == year
                && t.course_id == course_id && t.lesson_id == lesson_id && t.page_id == Some(page_id),
            Some(MoocsPath::Lesson { year, course_id, lesson_id }) => r matches Ok(t) && t.year == year && t.course_id
                == course_id && t.lesson_id == lesson_id && t.page_id is None,
            _ => r matches Err(ImoocsError::Validation(m)) && m@ == "URL does not point to a lesson or page: "@ + url@,
        },
{
    match path {
        Some(MoocsPath::Page { year, course_id, lesson_id, page_id }) => Ok(
            LessonTarget { year, course_id, lesson_id, page_id: Some(page_id) },
        ),
        Some(MoocsPath::Lesson { year, course_id, lesson_id }) => Ok(
            LessonTarget { year, course_id, lesson_id, page_id: None },
        ),
        _ => {
            let mut m = String::from_str("URL does not point to a lesson or page: ");
            m.append(url);
            Err(ImoocsError::Validation(m))
        },
    }
}

/// `drafts clear` names its target: `--all`, `--url`, or both positional ids.
pub fn drafts_clear_check(has_url: bool, has_course: bool, has_problem: bool) -> (r: Result<(), ImoocsError>)
    ensures
        r is Ok <==> (has_url || (has_course && has_problem)),
        r matches Err(e) ==> (e matches ImoocsError::Validation(m) && m@
            == "`assignment drafts clear` requires `--all`, `--url <url>`, or both `<course> <problem>` positional args"@),
{
    if !has_url && (!has_course || !has_problem) {
        return Err(ImoocsError::Validation(String::from_str(
            "`assignment drafts clear` requires `--all`, `--url <url>`, or both `<course> <problem>` positional args",
        )));
    }
    Ok(())
}

/// The hint attached to a staged draft.
pub fn push_hint(_course: &str, _problem: &str) -> (r: String)
    ensures
        r@ == "Draft staged locally. Run `imoocs assignment push` from your TTY to finalise."@,
{
    String::from_str("Draft staged locally. Run `imoocs assignment push` from your TTY to finalise.")
}

/// `" Draft retained at <path>. Re-run `imoocs assignment push` to resume."`
pub open spec fn resume_note(draft_path: Seq<char>) -> Seq<char> {
    " Draft retained at "@ + draft_path + ". Re-run `imoocs assignment push` to resume."@
}

/// A failure during `push` with the note that the draft is kept: server and network
/// errors keep their kind (an HTTP client error becomes a network error), a local I/O
/// error becomes a validation error, any other error is unchanged.
pub open spec fn decorated(err: ImoocsError, draft_path: Seq<char>, r: ImoocsError) -> bool {
    match err {
        ImoocsError::Api(m) => r matches ImoocsError::Api(n) && n@ == m@ + resume_note(draft_path),
        ImoocsError::Network(m) => r matches ImoocsError::Network(n) && n@ == m@ + resume_note(draft_path),
        ImoocsError::Reqwest(m) => r matches ImoocsError::Network(n) && n@ == m@ + resume_note(draft_path),
        ImoocsError::Io(m) => r matches ImoocsError::Validation(n) && n@ == "local file I/O failed during push: "@ + m@
            + "."@ + resume_note(draft_path) + " Check that staged file paths still exist."@,
        _ => r == err,
    }
}

fn make_resume(draft_path: &str) -> (r: String)
    ensures
        r@ == resume_note(draft_path@),
{
    let mut s = String::from_str(" Draft retained at ");
    s.append(draft_path);
    s.append(". Re-run `imoocs assignment push` to resume.");
    s
}

pub fn decorate_push_err(err: ImoocsError, draft_path: &str) -> (r: ImoocsError)
    ensures
        decorated(err, draft_path@, r),
{
    let resume = make_resume(draft_path);
    match err {
        ImoocsError::Api(m) => {
            let mut n = m;
            n.append(resume.as_str());
            ImoocsError::Api(n)
        },
        ImoocsError::Network(m) => {
            let mut n = m;
            n.append(resume.as_str());
            ImoocsError::Network(n)
        },
        ImoocsError::Reqwest(m) => {
            let mut n = m;
            n.append(resume.as_str());
            ImoocsError::Network(n)
        },
        ImoocsError::Io(m) => {
            let mut n = String::from_str("local file I/O failed during push: ");
            n.append(m.as_str());
            n.append(".");
            n.append(resume.as_str());
            n.append(" Check that staged file paths still exist.");
            ImoocsError::Validation(n)
        },
        other => other,
    }
}

/// What `push` lists for one draft: the answer fields in ascending order and the staged
/// files (`(pid, file name)`) in ascending order of their field.
pub fn push_listing(answer_pids: &Vec<String>, file_pids: &Vec<(String, String)>) -> (r: (Vec<String>, Vec<(String, String)>))
    ensures
        sorted_strings(strings_view(r.0@)),
        strings_view(r.0@).to_multiset() == strings_view(answer_pids@).to_multiset(),
        sorted_by_key(keyed_view(r.1@)),
        keyed_view(r.1@).to_multiset() == keyed_view(file_pids@).to_multiset(),
{
    (sort_strings(answer_pids), sort_by_key(file_pids))
}

} // verus!

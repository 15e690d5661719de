//! Recognising what a `drive list` / `drive fetch` argument designates.
use vstd::prelude::*;
use crate::doctor::DriveFoldersSummary;
use crate::error::ImoocsError;
use crate::text::{decimal, str_eq, u64_to_decimal};

verus! {

/// Group 1 of the leftmost match of `pattern` in `text`, as `regex::Regex::new(pattern)`
/// followed by `Regex::captures(text)` and `Captures::get(1)` give it; `None` when the
/// pattern does not compile, nothing matches, or group 1 takes no part in the match.
pub uninterp spec fn regex_group1(pattern: Seq<char>, text: Seq<char>) -> Option<Seq<char>>;

/// Runs `regex::Regex::new(pattern)` and `Regex::captures(text)`; returns group 1.
#[verifier::external_body]
fn first_group(pattern: &str, text: &str) -> (r: Option<String>)
    ensures
        r matches Some(s) ==> regex_group1(pattern@, text@) == Some(s@),
        r is None ==> regex_group1(pattern@, text@) is None,
{
    let re = match regex::Regex::new(pattern) {
        Ok(re) => re,
        Err(_) => return None,
    };
    match re.captures(text) {
        Some(caps) => match caps.get(1) {
            Some(m) => Some(m.as_str().to_string()),
            None => None,
        },
        None => None,
    }
}

/// Whether `pattern` matches somewhere in `text`, as `regex::Regex::new(pattern)` followed by
/// `Regex::is_match(text)` decides it; `false` when the pattern does not compile.
pub uninterp spec fn regex_matches(pattern: Seq<char>, text: Seq<char>) -> bool;

/// Runs `regex::Regex::new(pattern)` and `Regex::is_match(text)`.
#[verifier::external_body]
fn is_match(pattern: &str, text: &str) -> (r: bool)
    ensures
        r == regex_matches(pattern@, text@),
{
    match regex::Regex::new(pattern) {
        Ok(re) => re.is_match(text),
        Err(_) => false,
    }
}

/// Unicode `White_Space`, which `char::is_whitespace` tests: U+0009 to U+000D, U+0020,
/// U+0085, U+00A0, U+1680, U+2000 to U+200A, U+2028, U+2029, U+202F, U+205F, U+3000.
pub open spec fn is_white_space(c: char) -> bool {
    let v = c as u32;
    ||| 0x9 <= v <= 0xD
    ||| v == 0x20
    ||| v == 0x85
    ||| v == 0xA0
    ||| v == 0x1680
    ||| 0x2000 <= v <= 0x200A
    ||| v == 0x2028
    ||| v == 0x2029
    ||| v == 0x202F
    ||| v == 0x205F
    ||| v == 0x3000
}

/// `s` without its leading whitespace.
pub open spec fn trim_start(s: Seq<char>) -> Seq<char>
    decreases s.len(),
{
    if s.len() > 0 && is_white_space(s[0]) {
        trim_start(s.skip(1))
    } else {
        s
    }
}

/// `s` without its trailing whitespace.
pub open spec fn trim_end(s: Seq<char>) -> Seq<char>
    decreases s.len(),
{
    if s.len() > 0 && is_white_space(s.last()) {
        trim_end(s.drop_last())
    } else {
        s
    }
}

/// `s` without leading and trailing whitespace, as `str::trim` gives it.
pub open spec fn trimmed(s: Seq<char>) -> Seq<char> {
    trim_end(trim_start(s))
}

fn white_space(c: char) -> (r: bool)
    ensures
        r == is_white_space(c),
{
    let v = c as u32;
    (0x9 <= v && v <= 0xD) || v == 0x20 || v == 0x85 || v == 0xA0 || v == 0x1680 || (0x2000 <= v && v <= 0x200A)
        || v == 0x2028 || v == 0x2029 || v == 0x202F || v == 0x205F || v == 0x3000
}

/// Skipping `i` leading whitespace characters, up to the first other one, is `trim_start`.
proof fn lemma_trim_start_skip(s: Seq<char>, i: int)
    requires
        0 <= i <= s.len(),
        forall|k: int| 0 <= k < i ==> is_white_space(#[trigger] s[k]),
        i == s.len() || !is_white_space(s[i]),
    ensures
        trim_start(s) == s.skip(i),
    decreases i,
{
    if i == 0 {
        assert(s.skip(0) =~= s);
    } else {
        let t = s.skip(1);
        assert forall|k: int| 0 <= k < i - 1 implies is_white_space(#[trigger] t[k]) by {
            assert(t[k] == s[k + 1]);
        }
        if i < s.len() {
            assert(t[i - 1] == s[i]);
        }
        lemma_trim_start_skip(t, i - 1);
        assert(t.skip(i - 1) =~= s.skip(i));
        assert(is_white_space(s[0]));
    }
}

/// Dropping trailing whitespace back to the last other character is `trim_end`.
proof fn lemma_trim_end_take(t: Seq<char>, j: int)
    requires
        0 <= j <= t.len(),
        forall|k: int| j <= k < t.len() ==> is_white_space(#[trigger] t[k]),
        j == 0 || !is_white_space(t[j - 1]),
    ensures
        trim_end(t) == t.take(j),
    decreases t.len() - j,
{
    if j == t.len() {
        assert(t.take(j) =~= t);
    } else {
        let d = t.drop_last();
        assert(is_white_space(t[t.len() - 1]));
        assert forall|k: int| j <= k < d.len() implies is_white_space(#[trigger] d[k]) by {
            assert(d[k] == t[k]);
        }
        if j > 0 {
            assert(d[j - 1] == t[j - 1]);
        }
        lemma_trim_end_take(d, j);
        assert(d.take(j) =~= t.take(j));
    }
}

/// `s` without its leading and trailing whitespace, as `str::trim` gives it.
pub(crate) fn trim(s: &str) -> (r: &str)
    ensures
        r@ == trimmed(s@),
{
    let n = s.unicode_len();
    let mut i: usize = 0;
    while i < n
        invariant
            n == s@.len(),
            i <= n,
            forall|k: int| 0 <= k < i ==> is_white_space(#[trigger] s@[k]),
        ensures
            i <= n,
            forall|k: int| 0 <= k < i ==> is_white_space(#[trigger] s@[k]),
            i == n || !is_white_space(s@[i as int]),
        decreases n - i,
    {
        if !white_space(s.get_char(i)) {
            break;
        }
        i = i + 1;
    }
    let mut j: usize = n;
    while j > i
        invariant
            n == s@.len(),
            i <= j <= n,
            forall|k: int| j <= k < n ==> is_white_space(#[trigger] s@[k]),
        ensures
            i <= j <= n,
            forall|k: int| j <= k < n ==> is_white_space(#[trigger] s@[k]),
            j == i || !is_white_space(s@[j - 1]),
        decreases j - i,
    {
        if !white_space(s.get_char(j - 1)) {
            break;
        }
        j = j - 1;
    }
    proof {
        lemma_trim_start_skip(s@, i as int);
        let t = s@.skip(i as int);
        assert forall|k: int| j - i <= k < t.len() implies is_white_space(#[trigger] t[k]) by {
            assert(t[k] == s@[k + i]);
        }
        if j > i {
            assert(t[j - i - 1] == s@[j - 1]);
        }
        lemma_trim_end_take(t, j - i);
        assert(t.take(j - i) =~= s@.subrange(i as int, j as int));
    }
    s.substring_char(i, j)
}

/// A file page: `https://drive.google.com/file/d/<id>`; the id stops at `/`, `?` or `#`.
pub const FILE_URL_RE: &'static str = "^https://drive\\.google\\.com/file/d/([^/?#]+)";
/// A folder page: `https://drive.google.com/drive/folders/<id>`.
pub const FOLDER_URL_RE: &'static str = "^https://drive\\.google\\.com/drive/folders/([^/?#]+)";
/// A legacy download link with an `id=` parameter anywhere in its query.
pub const UC_URL_RE: &'static str = "^https://drive\\.google\\.com/uc\\?(?:[^#]*&)?id=([^&#]+)";
/// A `drive.usercontent.google.com` download link with an `id=` parameter.
pub const USERCONTENT_URL_RE: &'static str = "^https://drive\\.usercontent\\.google\\.com/download\\?(?:[^#]*&)?id=([^&#]+)";
/// A bare id: 25 to 64 letters, digits, `_` or `-`.
pub const BARE_ID_RE: &'static str = "^[A-Za-z0-9_-]{25,64}$";

/// What a Drive argument designates.
#[derive(Debug)]
pub enum DriveTarget {
    File(String),
    Folder(String),
    /// A bare id: file or folder, the command decides.
    Ambiguous(String),
    Unrecognized,
}

impl PartialEq for DriveTarget {
    fn eq(&self, other: &Self) -> (r: bool) {
        match (self, other) {
            (DriveTarget::File(a), DriveTarget::File(b)) => str_eq(a.as_str(), b.as_str()),
            (DriveTarget::Folder(a), DriveTarget::Folder(b)) => str_eq(a.as_str(), b.as_str()),
            (DriveTarget::Ambiguous(a), DriveTarget::Ambiguous(b)) => str_eq(a.as_str(), b.as_str()),
            (DriveTarget::Unrecognized, DriveTarget::Unrecognized) => true,
            _ => false,
        }
    }
}

impl vstd::std_specs::cmp::PartialEqSpecImpl for DriveTarget {
    open spec fn obeys_eq_spec() -> bool {
        true
    }

    open spec fn eq_spec(&self, other: &Self) -> bool {
        match (self, other) {
            (DriveTarget::File(a), DriveTarget::File(b)) => a@ == b@,
            (DriveTarget::Folder(a), DriveTarget::Folder(b)) => a@ == b@,
            (DriveTarget::Ambiguous(a), DriveTarget::Ambiguous(b)) => a@ == b@,
            (DriveTarget::Unrecognized, DriveTarget::Unrecognized) => true,
            _ => false,
        }
    }
}

/// The designation, tried in this order: a folder URL, a file URL, a legacy download
/// URL, a usercontent download URL (each giving the id it captured), then a bare id
/// (giving the whole text); anything else is unrecognised.
pub open spec fn designation(
    text: Seq<char>,
    folder: Option<Seq<char>>,
    file: Option<Seq<char>>,
    uc: Option<Seq<char>>,
    usercontent: Option<Seq<char>>,
    bare: bool,
    r: DriveTarget,
) -> bool {
    if folder is Some {
        r matches DriveTarget::Folder(id) && id@ == folder.unwrap()
    } else if file is Some {
        r matches DriveTarget::File(id) && id@ == file.unwrap()
    } else if uc is Some {
        r matches DriveTarget::File(id) && id@ == uc.unwrap()
    } else if usercontent is Some {
        r matches DriveTarget::File(id) && id@ == usercontent.unwrap()
    } else if bare {
        r matches DriveTarget::Ambiguous(id) && id@ == text
    } else {
        r is Unrecognized
    }
}

/// Decides the designation from the captures of the five patterns on `text`.
pub fn classify_drive_target(
    text: &str,
    folder: Option<String>,
    file: Option<String>,
    uc: Option<String>,
    usercontent: Option<String>,
    bare: bool,
) -> (r: DriveTarget)
    ensures
        designation(
            text@,
            match folder { Some(s) => Some(s@), None => None },
            match file { Some(s) => Some(s@), None => None },
            match uc { Some(s) => Some(s@), None => None },
            match usercontent { Some(s) => Some(s@), None => None },
            bare,
            r,
        ),
{
    if let Some(id) = folder {
        return DriveTarget::Folder(id);
    }
    if let Some(id) = file {
        return DriveTarget::File(id);
    }
    if let Some(id) = uc {
        return DriveTarget::File(id);
    }
    if let Some(id) = usercontent {
        return DriveTarget::File(id);
    }
    if bare {
        return DriveTarget::Ambiguous(String::from_str(text));
    }
    DriveTarget::Unrecognized
}

/// Recognises a Drive URL or id (surrounding whitespace ignored).
pub fn parse_drive_target(target: &str) -> (r: DriveTarget)
    ensures
        designation(
            trimmed(target@),
            regex_group1(FOLDER_URL_RE@, trimmed(target@)),
            regex_group1(FILE_URL_RE@, trimmed(target@)),
            regex_group1(UC_URL_RE@, trimmed(target@)),
            regex_group1(USERCONTENT_URL_RE@, trimmed(target@)),
            regex_matches(BARE_ID_RE@, trimmed(target@)),
            r,
        ),
{
    let t = trim(target);
    let folder = first_group(FOLDER_URL_RE, t);
    let file = first_group(FILE_URL_RE, t);
    let uc = first_group(UC_URL_RE, t);
    let usercontent = first_group(USERCONTENT_URL_RE, t);
    let bare = is_match(BARE_ID_RE, t);
    classify_drive_target(t, folder, file, uc, usercontent, bare)
}

/// Text of the error for a target that is no Drive URL or id.
pub open spec fn unrecognised_message(target: Seq<char>) -> Seq<char> {
    "cannot recognise Drive target: "@ + target
}

/// `drive list` takes a folder URL or a bare id; a file URL points the user to
/// `drive fetch`.
pub fn folder_id_for_list(t: DriveTarget, target: &str) -> (r: Result<String, ImoocsError>)
    ensures
        t matches DriveTarget::Folder(id) ==> r == Ok::<String, ImoocsError>(id),
        t matches DriveTarget::Ambiguous(id) ==> r == Ok::<String, ImoocsError>(id),
        t is File ==> (r matches Err(ImoocsError::Validation(m))
            && m@ == "target looks like a Drive FILE URL; use `imoocs drive fetch` instead"@),
        t is Unrecognized ==> (r matches Err(ImoocsError::Validation(m)) && m@ == unrecognised_message(target@)),
{
    match t {
        DriveTarget::Folder(id) => Ok(id),
        DriveTarget::Ambiguous(id) => Ok(id),
        DriveTarget::File(_) => Err(ImoocsError::Validation(String::from_str(
            "target looks like a Drive FILE URL; use `imoocs drive fetch` instead",
        ))),
        DriveTarget::Unrecognized => {
            let mut m = String::from_str("cannot recognise Drive target: ");
            m.append(target);
            Err(ImoocsError::Validation(m))
        },
    }
}

/// `drive fetch` takes a file URL or a bare id; a folder URL points the user to
/// `drive list`.
pub fn file_id_for_fetch(t: DriveTarget, target: &str) -> (r: Result<String, ImoocsError>)
    ensures
        t matches DriveTarget::File(id) ==> r == Ok::<String, ImoocsError>(id),
        t matches DriveTarget::Ambiguous(id) ==> r == Ok::<String, ImoocsError>(id),
        t is Folder ==> (r matches Err(ImoocsError::Validation(m))
            && m@ == "target looks like a Drive FOLDER URL; use `imoocs drive list` instead"@),
        t is Unrecognized ==> (r matches Err(ImoocsError::Validation(m)) && m@ == unrecognised_message(target@)),
{
    match t {
        DriveTarget::File(id) => Ok(id),
        DriveTarget::Ambiguous(id) => Ok(id),
        DriveTarget::Folder(_) => Err(ImoocsError::Validation(String::from_str(
            "target looks like a Drive FOLDER URL; use `imoocs drive list` instead",
        ))),
        DriveTarget::Unrecognized => {
            let mut m = String::from_str("cannot recognise Drive target: ");
            m.append(target);
            Err(ImoocsError::Validation(m))
        },
    }
}

/// How a course was matched to its Drive folder.
#[derive(Debug, Clone, Copy, PartialEq, Eq, Structural)]
pub enum MatchStrategy {
    Exact,
    Partial,
    UserConfirmed,
    Unresolved,
}

pub open spec fn strategy_name(s: MatchStrategy) -> Seq<char> {
    match s {
        MatchStrategy::Exact => "exact"@,
        MatchStrategy::Partial => "partial"@,
        MatchStrategy::UserConfirmed => "user-confirmed"@,
        MatchStrategy::Unresolved => "unresolved"@,
    }
}

pub fn strategy_label(s: MatchStrategy) -> (r: &'static str)
    ensures
        r@ == strategy_name(s),
{
    proof {
        reveal_strlit("exact");
        reveal_strlit("partial");
        reveal_strlit("user-confirmed");
        reveal_strlit("unresolved");
    }
    match s {
        MatchStrategy::Exact => "exact",
        MatchStrategy::Partial => "partial",
        MatchStrategy::UserConfirmed => "user-confirmed",
        MatchStrategy::Unresolved => "unresolved",
    }
}

/// One course of `course-drive-folders.toml`.
#[derive(Debug, Clone)]
pub struct CourseFolder {
    pub year: u32,
    pub course_id: String,
    pub name: String,
    pub match_strategy: MatchStrategy,
    /// Empty while unresolved.
    pub drive_folder_url: String,
}

/// `course-drive-folders.toml`: the Drive root and the courses linked to it.
#[derive(Debug, Clone)]
pub struct CourseDriveFolders {
    pub drive_root_folder_id: String,
    pub courses: Vec<CourseFolder>,
}

/// `year | courseId | name | strategy | url`, with `-` for a missing URL.
pub open spec fn course_row(c: CourseFolder) -> Seq<char> {
    decimal(c.year as nat) + " | "@ + c.course_id@ + " | "@ + c.name@ + " | "@ + strategy_name(c.match_strategy)
        + " | "@ + (if c.drive_folder_url@.len() == 0 { "-"@ } else { c.drive_folder_url@ }) + "\n"@
}

/// The rows of the first `n` courses.
pub open spec fn course_rows(cs: Seq<CourseFolder>, n: int) -> Seq<char>
    decreases n,
{
    if n <= 0 {
        Seq::empty()
    } else {
        course_rows(cs, n - 1) + course_row(cs[n - 1])
    }
}

/// Shown when there is no `course-drive-folders.toml`.
pub const NO_FOLDERS_TEXT: &'static str =
    "No course-drive-folders.toml registered. Run /imoocs-drive-setup in a MOOCs skill-enabled session.";

/// What `drive folders` prints: a hint without a registry; the root and `(no courses
/// registered)` when it is empty; else the root, a table of the courses and the counts.
pub open spec fn folders_text(report: Option<CourseDriveFolders>, s: DriveFoldersSummary) -> Seq<char> {
    match report {
        None => NO_FOLDERS_TEXT@,
        Some(cdf) => if cdf.courses@.len() == 0 {
            "Drive root: "@ + cdf.drive_root_folder_id@ + "\n"@ + "(no courses registered)"@
        } else {
            "Drive root: "@ + cdf.drive_root_folder_id@ + "\n"@ + "\n"@ + "year | courseId | name | strategy | url\n"@
                + course_rows(cdf.courses@, cdf.courses@.len() as int) + "\n"@ + decimal(s.total as nat)
                + " courses ("@ + decimal(s.resolved as nat) + " resolved, "@ + decimal(s.unresolved as nat)
                + " unresolved)"@
        },
    }
}

fn render_course_row(c: &CourseFolder) -> (r: String)
    ensures
        r@ == course_row(*c),
{
    proof {
        reveal_strlit(" | ");
        reveal_strlit("-");
        reveal_strlit("\n");
    }
    let mut out = u64_to_decimal(c.year as u64);
    out.append(" | ");
    out.append(c.course_id.as_str());
    out.append(" | ");
    out.append(c.name.as_str());
    out.append(" | ");
    out.append(strategy_label(c.match_strategy));
    out.append(" | ");
    if c.drive_folder_url.unicode_len() == 0 {
        out.append("-");
    } else {
        out.append(c.drive_folder_url.as_str());
    }
    out.append("\n");
    out
}

/// The text of `drive folders`; `summary` is the registry's count of resolved courses.
pub fn render_folders(report: &Option<CourseDriveFolders>, summary: DriveFoldersSummary) -> (r: String)
    ensures
        r@ == folders_text(*report, summary),
{
    proof {
        reveal_strlit("Drive root: ");
        reveal_strlit("\n");
        reveal_strlit("(no courses registered)");
        reveal_strlit("year | courseId | name | strategy | url\n");
        reveal_strlit(" courses (");
        reveal_strlit(" resolved, ");
        reveal_strlit(" unresolved)");
    }
    let cdf = match report {
        None => return String::from_str(NO_FOLDERS_TEXT),
        Some(c) => c,
    };
    let mut out = String::from_str("Drive root: ");
    out.append(cdf.drive_root_folder_id.as_str());
    out.append("\n");
    if cdf.courses.len() == 0 {
        out.append("(no courses registered)");
        return out;
    }
    out.append("\n");
    out.append("year | courseId | name | strategy | url\n");
    let ghost head = out@;
    let mut i: usize = 0;
    while i < cdf.courses.len()
        invariant
            i <= cdf.courses@.len(),
            out@ == head + course_rows(cdf.courses@, i as int),
        decreases cdf.courses@.len() - i,
    {
        let row = render_course_row(&cdf.courses[i]);
        out.append(row.as_str());
        i = i + 1;
    }
    out.append("\n");
    let t = u64_to_decimal(summary.total as u64);
    out.append(t.as_str());
    out.append(" courses (");
    let res = u64_to_decimal(summary.resolved as u64);
    out.append(res.as_str());
    out.append(" resolved, ");
    let un = u64_to_decimal(summary.unresolved as u64);
    out.append(un.as_str());
    out.append(" unresolved)");
    out
}

} // verus!

//! Global options: the output mode, the log level they imply, the shells completion is
//! generated for, and where `open` routes a URL.
use vstd::prelude::*;
use crate::assignment::{LessonTarget, MoocsPath};
use crate::error::ImoocsError;

verus! {

/// `--format`.
#[derive(Debug, Clone, Copy, PartialEq, Eq, Structural)]
pub enum OutputMode {
    /// Human-facing verbs print a summary; agent-facing verbs a JSON envelope.
    Text,
    /// Every verb prints a pretty JSON envelope.
    Json,
}

/// The log filter: `--debug` wins, then `--quiet`; otherwise info in JSON mode and warn
/// in text mode.
pub open spec fn tracing_filter(debug: bool, quiet: bool, mode: OutputMode) -> Seq<char> {
    if debug {
        "imoocs=debug,imoocs_core=debug"@
    } else if quiet {
        "imoocs=error,imoocs_core=error"@
    } else if mode == OutputMode::Json {
        "imoocs=info,imoocs_core=info"@
    } else {
        "imoocs=warn,imoocs_core=warn"@
    }
}

pub fn tracing_directives(debug: bool, quiet: bool, mode: OutputMode) -> (r: &'static str)
    ensures
        r@ == tracing_filter(debug, quiet, mode),
{
    proof {
        reveal_strlit("imoocs=debug,imoocs_core=debug");
        reveal_strlit("imoocs=error,imoocs_core=error");
        reveal_strlit("imoocs=info,imoocs_core=info");
        reveal_strlit("imoocs=warn,imoocs_core=warn");
    }
    if debug {
        "imoocs=debug,imoocs_core=debug"
    } else if quiet {
        "imoocs=error,imoocs_core=error"
    } else if mode == OutputMode::Json {
        "imoocs=info,imoocs_core=info"
    } else {
        "imoocs=warn,imoocs_core=warn"
    }
}

/// The envelope printed when an envelope cannot be serialised, with the error text.
pub open spec fn envelope_fallback(e: Seq<char>) -> Seq<char> {
    "{\"success\":false,\"error\":{\"code\":\"INTERNAL_ERROR\",\"message\":\"failed to serialize envelope: "@ + e
        + "\"}}"@
}

pub fn envelope_fallback_text(e: &str) -> (r: String)
    ensures
        r@ == envelope_fallback(e@),
{
    proof {
        reveal_strlit("{\"success\":false,\"error\":{\"code\":\"INTERNAL_ERROR\",\"message\":\"failed to serialize envelope: ");
        reveal_strlit("\"}}");
    }
    let mut out = String::from_str(
        "{\"success\":false,\"error\":{\"code\":\"INTERNAL_ERROR\",\"message\":\"failed to serialize envelope: ",
    );
    out.append(e);
    out.append("\"}}");
    out
}

/// The shell argument of `imoocs completion`.
#[derive(Debug, Clone, Copy, PartialEq, Eq, Structural)]
pub enum ShellArg {
    Bash,
    Zsh,
    Fish,
    Powershell,
    Elvish,
    Nushell,
}

/// The shells completion scripts are generated for.
#[derive(Debug, Clone, Copy, PartialEq, Eq, Structural)]
pub enum ShellKind {
    Bash,
    Zsh,
    Fish,
    PowerShell,
    Elvish,
}

impl ShellArg {
    /// The generator for the shell; Nushell needs a generator of its own, which is not
    /// built in.
    pub fn to_shell(self) -> (r: Option<ShellKind>)
        ensures
            self == ShellArg::Bash ==> r == Some(ShellKind::Bash),
            self == ShellArg::Zsh ==> r == Some(ShellKind::Zsh),
            self == ShellArg::Fish ==> r == Some(ShellKind::Fish),
            self == ShellArg::Powershell ==> r == Some(ShellKind::PowerShell),
            self == ShellArg::Elvish ==> r == Some(ShellKind::Elvish),
            self == ShellArg::Nushell ==> r is None,
    {
        match self {
            ShellArg::Bash => Some(ShellKind::Bash),
            ShellArg::Zsh => Some(ShellKind::Zsh),
            ShellArg::Fish => Some(ShellKind::Fish),
            ShellArg::Powershell => Some(ShellKind::PowerShell),
            ShellArg::Elvish => Some(ShellKind::Elvish),
            ShellArg::Nushell => None,
        }
    }
}

/// Where `imoocs open` sends a URL.
#[derive(Debug)]
pub enum OpenRoute {
    /// The course list of the latest year.
    LatestCourses,
    /// The course list of a year.
    Courses(u32),
    /// One course.
    Course { year: u32, course_id: String },
    /// A lesson (or one of its pages) with its assignments.
    Lesson(LessonTarget),
}

/// The course index goes to the latest year's courses, a year to its courses, a course
/// to its detail, a lesson or page to the lesson; anything else is refused.
pub fn open_route(path: Option<MoocsPath>, url: &str) -> (r: Result<OpenRoute, ImoocsError>)
    ensures
        match path {
            Some(MoocsPath::CoursesIndex) => r matches Ok(OpenRoute::LatestCourses),
            Some(MoocsPath::Year(y)) => r matches Ok(OpenRoute::Courses(x)) && x == y,
            Some(MoocsPath::Course { year, course_id }) =>
                r matches Ok(OpenRoute::Course { year: y, course_id: c }) && y == year && c == course_id,
            Some(MoocsPath::Lesson { year, course_id, lesson_id }) => r matches Ok(OpenRoute::Lesson(t))
                && t.year == year && t.course_id == course_id && t.lesson_id == lesson_id && t.page_id is None,
            Some(MoocsPath::Page { year, course_id, lesson_id, page_id }) => r matches Ok(OpenRoute::Lesson(t))
                && t.year == year && t.course_id == course_id && t.lesson_id == lesson_id
                && t.page_id == Some(page_id),
            None => r matches Err(ImoocsError::Validation(m)) && m@ == "not a MOOCs URL I can route: "@ + url@,
        },
{
    match path {
        Some(MoocsPath::CoursesIndex) => Ok(OpenRoute::LatestCourses),
        Some(MoocsPath::Year(y)) => Ok(OpenRoute::Courses(y)),
        Some(MoocsPath::Course { year, course_id }) => Ok(OpenRoute::Course { year, course_id }),
        Some(MoocsPath::Lesson { year, course_id, lesson_id }) => Ok(
            OpenRoute::Lesson(LessonTarget { year, course_id, lesson_id, page_id: None }),
        ),
        Some(MoocsPath::Page { year, course_id, lesson_id, page_id }) => Ok(
            OpenRoute::Lesson(LessonTarget { year, course_id, lesson_id, page_id: Some(page_id) }),
        ),
        None => {
            let mut m = String::from_str("not a MOOCs URL I can route: ");
            m.append(url);
            Err(ImoocsError::Validation(m))
        },
    }
}

/// `lesson show` fetches the slides with `--fetch-slides`, and with `--no-cache`, which
/// implies it.
pub fn lesson_fetches_slides(fetch_slides: bool, no_cache: bool) -> (r: bool)
    ensures
        r == (fetch_slides || no_cache),
{
    fetch_slides || no_cache
}

} // verus!

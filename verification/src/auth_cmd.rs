//! `imoocs auth`: where the username and password come from, the checks before a
//! Google login, and what `status` / `export` print.
use vstd::prelude::*;
use crate::doctor::{mark, mark_of};
use crate::error::ImoocsError;
use crate::text::{chars_of, string_from_chars};

verus! {

/// A successful `auth login`: the user now logged in.
#[derive(Debug, Clone)]
pub struct LoginOutcome {
    pub username: String,
}

/// The `--username` argument wins over the configured one; with neither the user is
/// asked.
pub fn choose_username(arg: Option<String>, configured: Option<String>) -> (r: Option<String>)
    ensures
        arg is Some ==> r == arg,
        arg is None ==> r == configured,
{
    match arg {
        Some(u) => Some(u),
        None => configured,
    }
}

/// `s` without the `\r` and `\n` characters at its end, as
/// `str::trim_end_matches(['\r', '\n'])` gives it.
pub open spec fn trim_line_end(s: Seq<char>) -> Seq<char>
    decreases s.len(),
{
    if s.len() > 0 && (s.last() == '\r' || s.last() == '\n') {
        trim_line_end(s.drop_last())
    } else {
        s
    }
}

/// The password read from stdin, without its trailing line break(s).
pub fn stdin_password(buf: &str) -> (r: String)
    ensures
        r@ == trim_line_end(buf@),
{
    let cs = chars_of(buf);
    let mut end: usize = cs.len();
    assert(cs@.subrange(0, end as int) =~= cs@);
    while end > 0 && (cs[end - 1] == '\r' || cs[end - 1] == '\n')
        invariant
            end <= cs@.len(),
            cs@ == buf@,
            trim_line_end(cs@.subrange(0, end as int)) == trim_line_end(buf@),
        decreases end,
    {
        assert(cs@.subrange(0, end as int).drop_last() =~= cs@.subrange(0, end - 1));
        end = end - 1;
    }
    assert(trim_line_end(cs@.subrange(0, end as int)) == cs@.subrange(0, end as int));
    let mut kept: Vec<char> = Vec::new();
    let mut i: usize = 0;
    while i < end
        invariant
            end <= cs@.len(),
            i <= end,
            kept@ == cs@.subrange(0, i as int),
        decreases end - i,
    {
        kept.push(cs[i]);
        assert(kept@ =~= cs@.subrange(0, i + 1));
        i = i + 1;
    }
    string_from_chars(&kept)
}

/// Where the MOOCs password comes from.
#[derive(Debug)]
pub enum PasswordSource {
    /// `--password-stdin`: read it, and store it in the keyring.
    Stdin,
    /// The keyring had it.
    Stored(String),
    /// Ask, and store the answer in the keyring.
    Prompt,
}

/// `--password-stdin` wins; otherwise the keyring's password; otherwise the user is
/// asked.
pub fn password_source(password_stdin: bool, stored: Option<String>) -> (r: PasswordSource)
    ensures
        password_stdin ==> r is Stdin,
        !password_stdin ==> (stored matches Some(p) ==> (r matches PasswordSource::Stored(q) && q == p)),
        !password_stdin && stored is None ==> r is Prompt,
{
    if password_stdin {
        return PasswordSource::Stdin;
    }
    match stored {
        Some(p) => PasswordSource::Stored(p),
        None => PasswordSource::Prompt,
    }
}

/// A refused login (an auth error) drops the stored password, so that the next login
/// asks again; other failures keep it.
pub fn forget_password_after(err: &ImoocsError) -> (r: bool)
    ensures
        r == (*err is Auth),
{
    match err {
        ImoocsError::Auth { .. } => true,
        _ => false,
    }
}

/// A Google login needs a stored username.
pub fn require_username(configured: Option<String>) -> (r: Result<String, ImoocsError>)
    ensures
        configured matches Some(u) ==> r == Ok::<String, ImoocsError>(u),
        configured is None ==> (r matches Err(ImoocsError::Validation(m))
            && m@ == "no stored username; run `imoocs auth login` first"@),
{
    match configured {
        Some(u) => Ok(u),
        None => Err(ImoocsError::Validation(String::from_str("no stored username; run `imoocs auth login` first"))),
    }
}

/// ... and that user's password in the keyring.
pub fn require_password(stored: Option<String>) -> (r: Result<String, ImoocsError>)
    ensures
        stored matches Some(p) ==> r == Ok::<String, ImoocsError>(p),
        stored is None ==> (r matches Err(ImoocsError::Validation(m))
            && m@ == "no password in keyring; run `imoocs auth login` first"@),
{
    match stored {
        Some(p) => Ok(p),
        None => Err(ImoocsError::Validation(String::from_str("no password in keyring; run `imoocs auth login` first"))),
    }
}

/// A prompt failure, with the prompt library's error text.
pub fn map_dialoguer_err(text: &str) -> (r: ImoocsError)
    ensures
        r matches ImoocsError::Internal(m) && m@ == "prompt failed: "@ + text@,
{
    let mut m = String::from_str("prompt failed: ");
    m.append(text);
    ImoocsError::Internal(m)
}

/// What `auth status` prints.
pub open spec fn status_text(
    moocs: bool,
    google: bool,
    has_password: bool,
    user: Option<Seq<char>>,
    cookies_file: Seq<char>,
    config_file: Seq<char>,
) -> Seq<char> {
    "  "@ + mark_of(moocs) + " MOOCs login        ("@ + (match user { Some(u) => u, None => "-"@ }) + ")\n"@
        + "  "@ + mark_of(google) + " Google SSO\n"@
        + "  "@ + mark_of(has_password) + " password stored in keyring\n"@
        + "Paths\n"@
        + "  cookies  "@ + cookies_file + "\n"@
        + "  config   "@ + config_file + "\n"@
}

pub fn render_status(
    moocs: bool,
    google: bool,
    has_password: bool,
    user: Option<&str>,
    cookies_file: &str,
    config_file: &str,
) -> (r: String)
    ensures
        r@ == status_text(
            moocs,
            google,
            has_password,
            match user { Some(u) => Some(u@), None => None },
            cookies_file@,
            config_file@,
        ),
{
    proof {
        reveal_strlit("  ");
        reveal_strlit(" MOOCs login        (");
        reveal_strlit("-");
        reveal_strlit(")\n");
        reveal_strlit(" Google SSO\n");
        reveal_strlit(" password stored in keyring\n");
        reveal_strlit("Paths\n");
        reveal_strlit("  cookies  ");
        reveal_strlit("\n");
        reveal_strlit("  config   ");
    }
    let mut out = String::from_str("  ");
    out.append(mark(moocs));
    out.append(" MOOCs login        (");
    match user {
        Some(u) => out.append(u),
        None => out.append("-"),
    }
    out.append(")\n");
    out.append("  ");
    out.append(mark(google));
    out.append(" Google SSO\n");
    out.append("  ");
    out.append(mark(has_password));
    out.append(" password stored in keyring\n");
    out.append("Paths\n");
    out.append("  cookies  ");
    out.append(cookies_file);
    out.append("\n");
    out.append("  config   ");
    out.append(config_file);
    out.append("\n");
    out
}

/// `auth status` exits 0 when logged in to MOOCs, 2 otherwise.
pub fn status_exit_code(moocs: bool) -> (r: u8)
    ensures
        r == (if moocs { 0u8 } else { 2u8 }),
{
    if moocs {
        0
    } else {
        2
    }
}

/// What `auth export` prints; the password itself never appears.
pub open spec fn export_text(user: Option<Seq<char>>, has_password: bool) -> Seq<char> {
    "username: "@ + (match user { Some(u) => u, None => "-"@ }) + "\n"@ + "password: "@
        + (if has_password { "stored in OS keyring (never printed by this CLI)"@ } else { "not stored"@ }) + "\n"@
}

pub fn render_export(user: Option<&str>, has_password: bool) -> (r: String)
    ensures
        r@ == export_text(match user { Some(u) => Some(u@), None => None }, has_password),
{
    proof {
        reveal_strlit("username: ");
        reveal_strlit("-");
        reveal_strlit("\n");
        reveal_strlit("password: ");
        reveal_strlit("stored in OS keyring (never printed by this CLI)");
        reveal_strlit("not stored");
    }
    let mut out = String::from_str("username: ");
    match user {
        Some(u) => out.append(u),
        None => out.append("-"),
    }
    out.append("\n");
    out.append("password: ");
    out.append(if has_password { "stored in OS keyring (never printed by this CLI)" } else { "not stored" });
    out.append("\n");
    out
}

/// How far the agent-browser logins got after a MOOCs login: the daemon's MOOCs login
/// is needed before its Google login is tried.
#[derive(Debug)]
pub enum DaemonLogin {
    /// The MOOCs session is there; go on with Google.
    ContinueWithGoogle,
    /// Stop, with the warning to print (none when no runtime could be had).
    Stop(Option<String>),
}

/// The warning text when the daemon's MOOCs login failed.
pub open spec fn moocs_daemon_warning(e: Seq<char>) -> Seq<char> {
    "warning: agent-browser MOOCs login failed ("@ + e + MOOCS_DAEMON_TAIL@
}

pub const MOOCS_DAEMON_TAIL: &'static str =
    "); write \u{7cfb} (submit/upload/push) \u{3068} slide/drive \u{53d6}\u{5f97}\u{306f}\u{5229}\u{7528}\u{3067}\u{304d}\u{307e}\u{305b}\u{3093}\u{3002}\n  \u{518d}\u{8a66}\u{884c}: `imoocs auth login`";

/// After the daemon's MOOCs login (`None`: no async runtime could be had).
pub fn after_daemon_moocs_login(result: Option<Result<(), String>>) -> (r: DaemonLogin)
    ensures
        result matches Some(Ok(_)) ==> r is ContinueWithGoogle,
        result matches Some(Err(e)) ==> (r matches DaemonLogin::Stop(Some(w)) && w@ == moocs_daemon_warning(e@)),
        result is None ==> (r matches DaemonLogin::Stop(w) && w is None),
{
    match result {
        Some(Ok(())) => DaemonLogin::ContinueWithGoogle,
        Some(Err(e)) => {
            let mut w = String::from_str("warning: agent-browser MOOCs login failed (");
            w.append(e.as_str());
            w.append(MOOCS_DAEMON_TAIL);
            proof {
                reveal_strlit("warning: agent-browser MOOCs login failed (");
            }
            DaemonLogin::Stop(Some(w))
        },
        None => DaemonLogin::Stop(None),
    }
}

pub const GOOGLE_DAEMON_TAIL: &'static str =
    "); slide / drive \u{7cfb}\u{306f}\u{5229}\u{7528}\u{3067}\u{304d}\u{307e}\u{305b}\u{3093}\u{3002}\n  \u{518d}\u{8a66}\u{884c}: `imoocs auth login-google`";

/// The warning after the daemon's Google login, if it failed.
pub fn after_daemon_google_login(result: Option<Result<(), String>>) -> (r: Option<String>)
    ensures
        result matches Some(Err(e)) ==> (r matches Some(w)
            && w@ == "warning: agent-browser Google login failed ("@ + e@ + GOOGLE_DAEMON_TAIL@),
        !(result matches Some(Err(_))) ==> r is None,
{
    match result {
        Some(Err(e)) => {
            let mut w = String::from_str("warning: agent-browser Google login failed (");
            w.append(e.as_str());
            w.append(GOOGLE_DAEMON_TAIL);
            proof {
                reveal_strlit("warning: agent-browser Google login failed (");
            }
            Some(w)
        },
        _ => None,
    }
}

} // verus!

//! The decisions of the MOOCs (Keycloak) and Google (SAML) logins driven
//! through the browser session.
use vstd::prelude::*;
use crate::batch::args_view;
use crate::error::BrowserError;
use crate::snapshot::{Snapshot, first_ref_where, name_contains};
use crate::text::{seq_has_infix, str_contains};

verus! {

/// Starts the SAML chain from Google to the INIAD identity provider.
pub const SAML_REDIRECT_URL: &'static str = "https://accounts.google.com/samlredirect?domain=iniad.org";
/// Host reached once the Google session exists.
pub const MYACCOUNT_DOMAIN: &'static str = "myaccount.google.com";
/// Path of Google's account confirmation page met on a first SAML login.
pub const SPEEDBUMP_FRAGMENT: &'static str = "speedbump/samlconfirmaccount";
/// Label of the button that confirms the account on that page.
pub const CONTINUE_BUTTON_NAME: &'static str = "\u{7d9a}\u{884c}";
/// Name of the auth-vault profile holding the MOOCs credentials.
pub const PROFILE_NAME: &'static str = "moocs";
/// MOOCs login entry point (redirects to Keycloak).
pub const LOGIN_URL: &'static str = "https://moocs.iniad.org/auth/iniad";
/// Keycloak form fields.
pub const USERNAME_SELECTOR: &'static str = "#username";
pub const PASSWORD_SELECTOR: &'static str = "#password";
pub const SUBMIT_SELECTOR: &'static str = "#kc-login";
/// Page that stays on `/account` only when logged in.
pub const ACCOUNT_URL: &'static str = "https://moocs.iniad.org/account";
pub const ACCOUNT_PATH: &'static str = "/account";

/// The URL is Google's account confirmation page.
pub fn at_speedbump(url: &str) -> (r: bool)
    ensures
        r == seq_has_infix(url@, SPEEDBUMP_FRAGMENT@),
{
    str_contains(url, SPEEDBUMP_FRAGMENT)
}

/// The click target of the confirmation button: `@` and the reference of the first
/// element whose name contains the button label.
pub fn continue_button_token(snap: &Snapshot) -> (r: Result<String, BrowserError>)
    ensures
        r matches Ok(t) ==> exists|i: int|
            first_ref_where(snap.refs@, i, name_contains(CONTINUE_BUTTON_NAME@)) && t@ == seq!['@']
                + snap.refs@[i].0@,
        r is Err ==> forall|i: int|
            0 <= i < snap.refs@.len() ==> !name_contains(CONTINUE_BUTTON_NAME@)(#[trigger] snap.refs@[i].1),
        r matches Err(e) ==> (e matches BrowserError::CommandFailed(m)
            && m@ == "speedbump page does not have a `"@ + CONTINUE_BUTTON_NAME@ + "` button"@),
{
    match snap.find_by_name_contains(CONTINUE_BUTTON_NAME) {
        Some((key, _info)) => {
            let mut t = String::new();
            crate::text::push_char(&mut t, '@');
            t.append(key);
            Ok(t)
        },
        None => {
            let mut m = String::from_str("speedbump page does not have a `");
            m.append(CONTINUE_BUTTON_NAME);
            m.append("` button");
            Err(BrowserError::CommandFailed(m))
        },
    }
}

/// The URL shows a live Google session.
pub fn google_session_alive(url: &str) -> (r: bool)
    ensures
        r == seq_has_infix(url@, MYACCOUNT_DOMAIN@),
{
    str_contains(url, MYACCOUNT_DOMAIN)
}

/// Where the SAML chain ended: the account page is success; a challenge or sign-in page
/// needs a human; anything else is a failure naming the URL.
pub fn google_login_verdict(final_url: &str) -> (r: Result<(), BrowserError>)
    ensures
        seq_has_infix(final_url@, MYACCOUNT_DOMAIN@) ==> r is Ok,
        !seq_has_infix(final_url@, MYACCOUNT_DOMAIN@) && (seq_has_infix(final_url@, "challenge"@)
            || seq_has_infix(final_url@, "signin/v2"@)) ==> (r matches Err(
            BrowserError::ChallengeRequired { current_url: u },
        ) && u@ == final_url@),
        !seq_has_infix(final_url@, MYACCOUNT_DOMAIN@) && !seq_has_infix(final_url@, "challenge"@)
            && !seq_has_infix(final_url@, "signin/v2"@) ==> (r matches Err(BrowserError::CommandFailed(m))
            && m@ == "Google SAML did not complete, ended at "@ + final_url@),
{
    if google_session_alive(final_url) {
        return Ok(());
    }
    if str_contains(final_url, "challenge") || str_contains(final_url, "signin/v2") {
        return Err(BrowserError::ChallengeRequired { current_url: String::from_str(final_url) });
    }
    let mut m = String::from_str("Google SAML did not complete, ended at ");
    m.append(final_url);
    Err(BrowserError::CommandFailed(m))
}

/// The step of keeping a Google session alive.
#[derive(Debug, Clone, Copy, PartialEq, Eq, Structural)]
pub enum GoogleRecovery {
    /// Check that the Google account page is reachable.
    CheckGoogle,
    /// Check that the MOOCs session is alive.
    CheckMoocs,
    /// Log in to MOOCs again from the saved profile.
    RestoreMoocs,
    /// Run the SAML chain.
    LoginGoogle,
    /// Nothing more to do.
    Done,
}

/// What follows a step, given whether its check held (ignored by the two login steps):
/// a live Google session ends the work; otherwise MOOCs is checked, restored when
/// dead, and the SAML chain is run last.
pub open spec fn recovery_after(step: GoogleRecovery, ok: bool) -> GoogleRecovery {
    match step {
        GoogleRecovery::CheckGoogle => if ok { GoogleRecovery::Done } else { GoogleRecovery::CheckMoocs },
        GoogleRecovery::CheckMoocs => if ok { GoogleRecovery::LoginGoogle } else { GoogleRecovery::RestoreMoocs },
        GoogleRecovery::RestoreMoocs => GoogleRecovery::LoginGoogle,
        GoogleRecovery::LoginGoogle => GoogleRecovery::Done,
        GoogleRecovery::Done => GoogleRecovery::Done,
    }
}

/// Where recovery stands after `n` steps from `start`, the `k`-th step's check having
/// answered `oks[k]`.
pub open spec fn recovery_state(start: GoogleRecovery, oks: Seq<bool>, n: nat) -> GoogleRecovery
    decreases n,
{
    if n == 0 {
        start
    } else {
        recovery_after(recovery_state(start, oks, (n - 1) as nat), oks[n - 1])
    }
}

/// Recovery from a failed Google check always runs the SAML chain before it is done,
/// whatever the MOOCs check answers: within three steps it reaches `LoginGoogle`
/// without passing `Done`, and the step after it is `Done`. MOOCs is checked first and
/// restored only when its check fails. A Google check that holds ends the work at once,
/// with no login.
pub proof fn lemma_dead_google_session_is_logged_in_again(oks: Seq<bool>)
    requires
        oks.len() >= 4,
    ensures
        !oks[0] ==> exists|k: nat|
            1 <= k <= 3 && #[trigger] recovery_state(GoogleRecovery::CheckGoogle, oks, k) == GoogleRecovery::LoginGoogle
                && recovery_state(GoogleRecovery::CheckGoogle, oks, k + 1) == GoogleRecovery::Done
                && forall|j: nat| j <= k ==> #[trigger] recovery_state(GoogleRecovery::CheckGoogle, oks, j)
                    != GoogleRecovery::Done,
        oks[0] ==> recovery_state(GoogleRecovery::CheckGoogle, oks, 1) == GoogleRecovery::Done,
        !oks[0] ==> recovery_state(GoogleRecovery::CheckGoogle, oks, 1) == GoogleRecovery::CheckMoocs,
        !oks[0] && oks[1] ==> recovery_state(GoogleRecovery::CheckGoogle, oks, 2) == GoogleRecovery::LoginGoogle,
        !oks[0] && !oks[1] ==> recovery_state(GoogleRecovery::CheckGoogle, oks, 2) == GoogleRecovery::RestoreMoocs
            && recovery_state(GoogleRecovery::CheckGoogle, oks, 3) == GoogleRecovery::LoginGoogle,
{
    let s = |n: nat| recovery_state(GoogleRecovery::CheckGoogle, oks, n);
    assert(s(0) == GoogleRecovery::CheckGoogle);
    assert(s(1) == recovery_after(s(0), oks[0]));
    assert(s(2) == recovery_after(s(1), oks[1]));
    assert(s(3) == recovery_after(s(2), oks[2]));
    assert(s(4) == recovery_after(s(3), oks[3]));
    if !oks[0] {
        if oks[1] {
            let k: nat = 2;
            assert forall|j: nat| j <= k implies #[trigger] recovery_state(GoogleRecovery::CheckGoogle, oks, j)
                != GoogleRecovery::Done by {
                if j == 0 {
                } else if j == 1 {
                } else {
                }
            }
            assert(recovery_state(GoogleRecovery::CheckGoogle, oks, k + 1) == GoogleRecovery::Done);
        } else {
            let k: nat = 3;
            assert forall|j: nat| j <= k implies #[trigger] recovery_state(GoogleRecovery::CheckGoogle, oks, j)
                != GoogleRecovery::Done by {
                if j == 0 {
                } else if j == 1 {
                } else if j == 2 {
                } else {
                }
            }
            assert(recovery_state(GoogleRecovery::CheckGoogle, oks, k + 1) == GoogleRecovery::Done);
        }
    }
}

pub fn recovery_next(step: GoogleRecovery, ok: bool) -> (r: GoogleRecovery)
    ensures
        r == recovery_after(step, ok),
{
    match step {
        GoogleRecovery::CheckGoogle => if ok { GoogleRecovery::Done } else { GoogleRecovery::CheckMoocs },
        GoogleRecovery::CheckMoocs => if ok { GoogleRecovery::LoginGoogle } else { GoogleRecovery::RestoreMoocs },
        GoogleRecovery::RestoreMoocs => GoogleRecovery::LoginGoogle,
        GoogleRecovery::LoginGoogle => GoogleRecovery::Done,
        GoogleRecovery::Done => GoogleRecovery::Done,
    }
}

/// The URL shows a live MOOCs session (it stayed on `/account`).
pub fn moocs_session_alive(url: &str) -> (r: bool)
    ensures
        r == seq_has_infix(url@, ACCOUNT_PATH@),
{
    str_contains(url, ACCOUNT_PATH)
}

/// After saving and using the profile, the session must be live.
pub fn moocs_login_verdict(logged_in: bool) -> (r: Result<(), BrowserError>)
    ensures
        logged_in ==> r is Ok,
        !logged_in ==> (r matches Err(BrowserError::CommandFailed(m))
            && m@ == "MOOCs login: credentials saved but session not established"@),
{
    if logged_in {
        Ok(())
    } else {
        Err(BrowserError::CommandFailed(String::from_str(
            "MOOCs login: credentials saved but session not established",
        )))
    }
}

/// `auth save moocs …`: stores the credentials (password read from stdin) with the
/// Keycloak form selectors.
pub open spec fn auth_save_command(username: Seq<char>) -> Seq<Seq<char>> {
    seq![
        "auth"@, "save"@, PROFILE_NAME@, "--url"@, LOGIN_URL@, "--username"@, username,
        "--password-stdin"@, "--username-selector"@, USERNAME_SELECTOR@, "--password-selector"@,
        PASSWORD_SELECTOR@, "--submit-selector"@, SUBMIT_SELECTOR@,
    ]
}

pub fn auth_save_args(username: &str) -> (r: Vec<String>)
    ensures
        args_view(r@) == auth_save_command(username@),
{
    let mut v: Vec<String> = Vec::new();
    v.push(String::from_str("auth"));
    v.push(String::from_str("save"));
    v.push(String::from_str(PROFILE_NAME));
    v.push(String::from_str("--url"));
    v.push(String::from_str(LOGIN_URL));
    v.push(String::from_str("--username"));
    v.push(String::from_str(username));
    v.push(String::from_str("--password-stdin"));
    v.push(String::from_str("--username-selector"));
    v.push(String::from_str(USERNAME_SELECTOR));
    v.push(String::from_str("--password-selector"));
    v.push(String::from_str(PASSWORD_SELECTOR));
    v.push(String::from_str("--submit-selector"));
    v.push(String::from_str(SUBMIT_SELECTOR));
    assert(args_view(v@) =~= auth_save_command(username@));
    v
}

} // verus!

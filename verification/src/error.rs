//! Errors raised while driving the agent-browser process.
use vstd::prelude::*;

verus! {

/// `serde_json::Error`, carried through unchanged.
#[verifier::external_type_specification]
#[verifier::external_body]
pub struct ExJsonError(serde_json::Error);

/// `std::io::Error`, carried through unchanged.
#[verifier::external_type_specification]
#[verifier::external_body]
pub struct ExIoError(std::io::Error);

/// Errors raised inside the browser layer.
#[derive(Debug)]
pub enum BrowserError {
    /// The agent-browser binary is not on PATH.
    BinaryMissing,
    /// Spawning the agent-browser child process failed.
    Spawn(std::io::Error),
    /// The child exited with a non-zero code and its output was not JSON.
    NonZeroExit { code: Option<i32>, stderr: String },
    /// The JSON output could not be parsed.
    Json(serde_json::Error),
    /// The envelope reported `success: false`, or a batch step failed.
    CommandFailed(String),
    /// A Google challenge (reCAPTCHA / 2FA) that a headless browser cannot pass.
    ChallengeRequired { current_url: String },
    /// The named auth profile is missing from the auth vault.
    AuthProfileMissing { name: String },
    /// Any other internal failure.
    Internal(String),
}

impl BrowserError {
    /// Short constructor for `NonZeroExit`.
    pub fn non_zero_exit(code: Option<i32>, stderr: String) -> (r: Self)
        ensures
            r matches BrowserError::NonZeroExit { code: c, stderr: s } && c == code && s@ == stderr@,
    {
        BrowserError::NonZeroExit { code, stderr }
    }
}

} // verus!

verus! {

/// Errors of the command layer; each kind has its own exit code.
#[derive(Debug)]
pub enum ImoocsError {
    /// The MOOCs server answered with an error.
    Api(String),
    /// Not logged in, or the login was refused.
    Auth { message: String },
    /// The input or the configuration is not acceptable.
    Validation(String),
    /// The thing asked for does not exist.
    NotFound { what: String },
    /// A bug or an unexpected local failure.
    Internal(String),
    /// A local file operation failed (the text of the I/O error).
    Io(String),
    /// The network failed.
    Network(String),
    /// The HTTP client failed (the text of its error).
    Reqwest(String),
    /// The resource is reachable only from the campus network.
    NetworkRestricted(String),
    /// The page is not public.
    NonPublic(String),
}

/// Process exit code of each kind: 1 API, 2 Auth, 3 Validation, 4 NotFound,
/// 5 Internal (local I/O included), 6 Network (HTTP client included),
/// 7 NetworkRestricted, 8 NonPublic.
pub open spec fn exit_code_of(e: ImoocsError) -> u8 {
    match e {
        ImoocsError::Api(_) => 1,
        ImoocsError::Auth { .. } => 2,
        ImoocsError::Validation(_) => 3,
        ImoocsError::NotFound { .. } => 4,
        ImoocsError::Internal(_) => 5,
        ImoocsError::Io(_) => 5,
        ImoocsError::Network(_) => 6,
        ImoocsError::Reqwest(_) => 6,
        ImoocsError::NetworkRestricted(_) => 7,
        ImoocsError::NonPublic(_) => 8,
    }
}

impl ImoocsError {
    /// An equal copy of the error.
    pub fn duplicate(&self) -> (r: Self)
        ensures
            r == *self,
    {
        match self {
            ImoocsError::Api(m) => ImoocsError::Api(m.clone()),
            ImoocsError::Auth { message } => ImoocsError::Auth { message: message.clone() },
            ImoocsError::Validation(m) => ImoocsError::Validation(m.clone()),
            ImoocsError::NotFound { what } => ImoocsError::NotFound { what: what.clone() },
            ImoocsError::Internal(m) => ImoocsError::Internal(m.clone()),
            ImoocsError::Io(m) => ImoocsError::Io(m.clone()),
            ImoocsError::Network(m) => ImoocsError::Network(m.clone()),
            ImoocsError::Reqwest(m) => ImoocsError::Reqwest(m.clone()),
            ImoocsError::NetworkRestricted(m) => ImoocsError::NetworkRestricted(m.clone()),
            ImoocsError::NonPublic(m) => ImoocsError::NonPublic(m.clone()),
        }
    }

    pub fn exit_code(&self) -> (r: u8)
        ensures
            r == exit_code_of(*self),
    {
        match self {
            ImoocsError::Api(_) => 1,
            ImoocsError::Auth { .. } => 2,
            ImoocsError::Validation(_) => 3,
            ImoocsError::NotFound { .. } => 4,
            ImoocsError::Internal(_) => 5,
            ImoocsError::Io(_) => 5,
            ImoocsError::Network(_) => 6,
            ImoocsError::Reqwest(_) => 6,
            ImoocsError::NetworkRestricted(_) => 7,
            ImoocsError::NonPublic(_) => 8,
        }
    }
}

} // verus!

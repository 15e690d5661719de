//! The agent-browser child process: how it is invoked, and how its output is read.
use vstd::prelude::*;
use crate::batch::{args_view, lemma_args_view_push};
use crate::error::BrowserError;

verus! {

/// `std::path::PathBuf`, carried through unchanged.
#[verifier::external_type_specification]
#[verifier::external_body]
pub struct ExPathBuf(std::path::PathBuf);

/// Spawns the agent-browser binary with a fixed session name.
///
/// Every invocation starts with `--session-name <session> --json`; the extra
/// environment variables are handed to the child process.
#[derive(Debug)]
pub struct AgentBrowser {
    binary: std::path::PathBuf,
    session_name: String,
    envs: Vec<(String, String)>,
}

/// Characters of each `(key, value)` pair.
pub open spec fn pairs_view(v: Seq<(String, String)>) -> Seq<(Seq<char>, Seq<char>)> {
    Seq::new(v.len(), |i: int| (v[i].0@, v[i].1@))
}

/// `--session-name <session> --json`, then the subcommand arguments.
pub open spec fn command_line(session: Seq<char>, args: Seq<Seq<char>>) -> Seq<Seq<char>> {
    seq!["--session-name"@, session, "--json"@] + args
}

impl AgentBrowser {
    pub closed spec fn spec_binary(&self) -> std::path::PathBuf {
        self.binary
    }

    pub closed spec fn spec_session_name(&self) -> Seq<char> {
        self.session_name@
    }

    pub closed spec fn spec_envs(&self) -> Seq<(Seq<char>, Seq<char>)> {
        pairs_view(self.envs@)
    }

    /// A runner for `binary` in session `session_name` (usually `imoocs`).
    pub fn new(binary: std::path::PathBuf, session_name: &str) -> (r: Self)
        ensures
            r.spec_binary() == binary,
            r.spec_session_name() == session_name@,
            r.spec_envs() == Seq::<(Seq<char>, Seq<char>)>::empty(),
    {
        let r = AgentBrowser { binary, session_name: String::from_str(session_name), envs: Vec::new() };
        assert(pairs_view(r.envs@) =~= Seq::<(Seq<char>, Seq<char>)>::empty());
        r
    }

    /// The same runner, also passing `key=value` to the child's environment.
    pub fn with_env(self, key: &str, value: &str) -> (r: Self)
        ensures
            r.spec_binary() == self.spec_binary(),
            r.spec_session_name() == self.spec_session_name(),
            r.spec_envs() == self.spec_envs().push((key@, value@)),
    {
        let mut s = self;
        let ghost before = s.envs@;
        s.envs.push((String::from_str(key), String::from_str(value)));
        assert(pairs_view(s.envs@) =~= pairs_view(before).push((key@, value@)));
        s
    }

    pub fn binary(&self) -> (r: &std::path::PathBuf)
        ensures
            *r == self.spec_binary(),
    {
        &self.binary
    }

    pub fn session_name(&self) -> (r: &str)
        ensures
            r@ == self.spec_session_name(),
    {
        self.session_name.as_str()
    }

    pub fn envs(&self) -> (r: &[(String, String)])
        ensures
            pairs_view(r@) == self.spec_envs(),
    {
        self.envs.as_slice()
    }

    /// The full argument list for one invocation.
    pub fn command_args(&self, args: &Vec<String>) -> (r: Vec<String>)
        ensures
            args_view(r@) == command_line(self.spec_session_name(), args_view(args@)),
    {
        let mut r: Vec<String> = Vec::new();
        r.push(String::from_str("--session-name"));
        r.push(self.session_name.clone());
        r.push(String::from_str("--json"));
        let mut i: usize = 0;
        while i < args.len()
            invariant
                i <= args@.len(),
                args_view(r@) == command_line(self.spec_session_name(), args_view(args@.subrange(0, i as int))),
            decreases args@.len() - i,
        {
            let ghost prev = r@;
            r.push(args[i].clone());
            proof {
                lemma_args_view_push(prev, args@[i as int]);
                assert(args@.subrange(0, i + 1) =~= args@.subrange(0, i as int).push(args@[i as int]));
                lemma_args_view_push(args@.subrange(0, i as int), args@[i as int]);
            }
            i = i + 1;
            assert(args_view(r@) =~= command_line(self.spec_session_name(), args_view(args@.subrange(0, i as int))));
        }
        assert(args@.subrange(0, args@.len() as int) =~= args@);
        r
    }
}

/// The members of an agent-browser `{success, data, error}` envelope, as read from JSON:
/// `success` as a boolean, `data` as is, `error` as a string.
#[derive(Debug)]
pub struct Envelope<T> {
    pub success: Option<bool>,
    pub data: Option<T>,
    pub error: Option<String>,
}

/// The error message of a failed envelope.
pub open spec fn envelope_error_text<T>(env: Envelope<T>) -> Seq<char> {
    match env.error {
        Some(e) => e@,
        None => "unknown agent-browser error"@,
    }
}

/// An envelope with `success: true` yields its `data` (`null` when absent); any other
/// envelope is a `CommandFailed` carrying its `error` text.
pub open spec fn dispatched<T>(env: Envelope<T>, null: T, r: Result<T, BrowserError>) -> bool {
    if env.success == Some(true) {
        r == Ok::<T, BrowserError>(match env.data {
            Some(d) => d,
            None => null,
        })
    } else {
        r matches Err(BrowserError::CommandFailed(m)) && m@ == envelope_error_text(env)
    }
}

/// Interprets an agent-browser envelope.
pub fn dispatch_envelope<T>(env: Envelope<T>, null: T) -> (r: Result<T, BrowserError>)
    ensures
        dispatched(env, null, r),
{
    let Envelope { success, data, error } = env;
    let ok = match success {
        Some(b) => b,
        None => false,
    };
    if ok {
        match data {
            Some(d) => Ok(d),
            None => Ok(null),
        }
    } else {
        match error {
            Some(e) => Err(BrowserError::CommandFailed(e)),
            None => Err(BrowserError::CommandFailed(String::from_str("unknown agent-browser error"))),
        }
    }
}

/// The stdout of a finished child: its JSON value together with that value read as an
/// envelope, or the parse error.
pub enum Stdout<T> {
    Json(T, Envelope<T>),
    NotJson(serde_json::Error),
}

/// Settles one invocation. A non-zero exit is still read when stdout is JSON, and is
/// `NonZeroExit` otherwise; after a zero exit, stdout must be JSON. The value is
/// dispatched as an envelope when `dispatch` is set and returned as is otherwise.
pub fn settle_output<T>(
    exited_ok: bool,
    code: Option<i32>,
    stderr: String,
    stdout: Stdout<T>,
    dispatch: bool,
    null: T,
) -> (r: Result<T, BrowserError>)
    ensures
        match stdout {
            Stdout::Json(v, env) => if dispatch { dispatched(env, null, r) } else { r == Ok::<T, BrowserError>(v) },
            Stdout::NotJson(e) => if exited_ok {
                r == Err::<T, BrowserError>(BrowserError::Json(e))
            } else {
                r matches Err(BrowserError::NonZeroExit { code: c, stderr: s }) && c == code && s@ == stderr@
            },
        },
{
    match stdout {
        Stdout::Json(v, env) => {
            if dispatch {
                dispatch_envelope(env, null)
            } else {
                Ok(v)
            }
        },
        Stdout::NotJson(e) => {
            if exited_ok {
                Err(BrowserError::Json(e))
            } else {
                Err(BrowserError::non_zero_exit(code, stderr))
            }
        },
    }
}

} // verus!

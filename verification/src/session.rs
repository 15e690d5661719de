//! The `imoocs` browser session.
use vstd::prelude::*;
use crate::batch::{args_view, copy_outcomes, same_outcomes, BatchOutcome};
use crate::error::BrowserError;
use crate::process::AgentBrowser;
use crate::snapshot::Snapshot;

verus! {

/// An agent-browser session with a fixed name (`imoocs` unless chosen otherwise).
#[derive(Debug)]
pub struct BrowserSession {
    agent: AgentBrowser,
}

impl BrowserSession {
    pub closed spec fn spec_agent(&self) -> AgentBrowser {
        self.agent
    }

    /// The session named `imoocs` on `binary`.
    pub fn new(binary: std::path::PathBuf) -> (r: Self)
        ensures
            r.spec_agent().spec_binary() == binary,
            r.spec_agent().spec_session_name() == "imoocs"@,
            r.spec_agent().spec_envs().len() == 0,
    {
        Self::new_with_session(binary, "imoocs")
    }

    /// A session with another name (e.g. a short-lived headed session).
    pub fn new_with_session(binary: std::path::PathBuf, session_name: &str) -> (r: Self)
        ensures
            r.spec_agent().spec_binary() == binary,
            r.spec_agent().spec_session_name() == session_name@,
            r.spec_agent().spec_envs().len() == 0,
    {
        BrowserSession { agent: AgentBrowser::new(binary, session_name) }
    }

    /// The underlying runner.
    pub fn agent(&self) -> (r: &AgentBrowser)
        ensures
            *r == self.spec_agent(),
    {
        &self.agent
    }
}

/// `snapshot -i`, scoped with `-s <css>` when a scope is given.
pub open spec fn snapshot_command(scope: Option<Seq<char>>) -> Seq<Seq<char>> {
    match scope {
        Some(css) => seq!["snapshot"@, "-i"@, "-s"@, css],
        None => seq!["snapshot"@, "-i"@],
    }
}

pub fn snapshot_args(scope: Option<&str>) -> (r: Vec<String>)
    ensures
        args_view(r@) == snapshot_command(match scope { Some(s) => Some(s@), None => None }),
{
    let mut v: Vec<String> = Vec::new();
    v.push(String::from_str("snapshot"));
    v.push(String::from_str("-i"));
    match scope {
        Some(css) => {
            v.push(String::from_str("-s"));
            v.push(String::from_str(css));
        },
        None => {},
    }
    assert(args_view(v@) =~= snapshot_command(match scope { Some(s) => Some(s@), None => None }));
    v
}

/// The URL reported by the browser, or `fallback` when it reported none.
pub fn url_or(reported: Option<String>, fallback: &str) -> (r: String)
    ensures
        r@ == match reported {
            Some(u) => u@,
            None => fallback@,
        },
{
    match reported {
        Some(u) => u,
        None => String::from_str(fallback),
    }
}

/// A stand-in for a browser session in tests: it remembers the last URL it was sent to
/// and answers with the fixtures it was given.
#[derive(Debug)]
pub struct FakeBrowserSession {
    current_url: String,
    snapshot_response: Option<Snapshot>,
    batch_response: Option<Vec<BatchOutcome>>,
}

impl FakeBrowserSession {
    pub closed spec fn spec_url(&self) -> Seq<char> {
        self.current_url@
    }

    pub closed spec fn spec_snapshot(&self) -> Option<Snapshot> {
        self.snapshot_response
    }

    pub closed spec fn spec_batch(&self) -> Option<Seq<BatchOutcome>> {
        match self.batch_response {
            Some(v) => Some(v@),
            None => None,
        }
    }

    /// At no URL, with no fixture.
    pub fn new() -> (r: Self)
        ensures
            r.spec_url() == Seq::<char>::empty(),
            r.spec_snapshot() is None,
            r.spec_batch() is None,
    {
        FakeBrowserSession { current_url: String::new(), snapshot_response: None, batch_response: None }
    }

    /// At `url`, with no fixture.
    pub fn with_initial_url(url: &str) -> (r: Self)
        ensures
            r.spec_url() == url@,
            r.spec_snapshot() is None,
            r.spec_batch() is None,
    {
        FakeBrowserSession { current_url: String::from_str(url), snapshot_response: None, batch_response: None }
    }

    /// The snapshot the next `snapshot_interactive` returns.
    pub fn set_snapshot(&mut self, snapshot: Snapshot)
        ensures
            final(self).spec_snapshot() == Some(snapshot),
            final(self).spec_url() == old(self).spec_url(),
            final(self).spec_batch() == old(self).spec_batch(),
    {
        self.snapshot_response = Some(snapshot);
    }

    /// The response the next `run_batch` returns.
    pub fn set_batch_response(&mut self, response: Vec<BatchOutcome>)
        ensures
            final(self).spec_batch() == Some(response@),
            final(self).spec_url() == old(self).spec_url(),
            final(self).spec_snapshot() == old(self).spec_snapshot(),
    {
        self.batch_response = Some(response);
    }

    /// Goes to `url` and reports it as the final URL.
    pub fn navigate(&mut self, url: &str) -> (r: Result<String, BrowserError>)
        ensures
            r matches Ok(u) && u@ == url@,
            final(self).spec_url() == url@,
            final(self).spec_snapshot() == old(self).spec_snapshot(),
            final(self).spec_batch() == old(self).spec_batch(),
    {
        self.current_url = String::from_str(url);
        Ok(String::from_str(url))
    }

    /// The URL it was last sent to.
    pub fn current_url(&self) -> (r: Result<String, BrowserError>)
        ensures
            r matches Ok(u) && u@ == self.spec_url(),
    {
        Ok(self.current_url.clone())
    }

    /// The snapshot fixture, or an internal error when none was set.
    pub fn snapshot_interactive(&self, _scope: Option<&str>) -> (r: Result<Snapshot, BrowserError>)
        ensures
            self.spec_snapshot() matches Some(s) ==> (r matches Ok(t) && t.same_as(s)),
            self.spec_snapshot() is None ==> (r matches Err(BrowserError::Internal(m))
                && m@ == "FakeBrowserSession: no snapshot fixture set"@),
    {
        match &self.snapshot_response {
            Some(s) => Ok(s.duplicate()),
            None => Err(BrowserError::Internal(String::from_str("FakeBrowserSession: no snapshot fixture set"))),
        }
    }

    /// The batch fixture, or an internal error when none was set.
    pub fn run_batch(&self, _batch_json: &str) -> (r: Result<Vec<BatchOutcome>, BrowserError>)
        ensures
            self.spec_batch() matches Some(b) ==> (r matches Ok(v) && same_outcomes(v@, b)),
            self.spec_batch() is None ==> (r matches Err(BrowserError::Internal(m))
                && m@ == "FakeBrowserSession: no batch fixture set"@),
    {
        match &self.batch_response {
            Some(b) => Ok(copy_outcomes(b)),
            None => Err(BrowserError::Internal(String::from_str("FakeBrowserSession: no batch fixture set"))),
        }
    }
}

} // verus!

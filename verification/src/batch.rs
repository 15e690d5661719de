//! Builder for the command list handed to `agent-browser batch --json`,
//! and the checks applied to the per-command outcomes.
use vstd::prelude::*;
use crate::error::BrowserError;
use crate::text::{decimal, push_char, seq_has_prefix, u64_to_decimal};
use crate::json::json_of_commands;

verus! {

/// The argument of `agent-browser wait --load <kind>`.
#[derive(Debug, Clone, Copy, PartialEq, Eq, Structural)]
pub enum LoadKind {
    Load,
    DomContentLoaded,
    NetworkIdle,
}

/// The token of each load kind on the command line.
pub open spec fn load_kind_token(k: LoadKind) -> Seq<char> {
    match k {
        LoadKind::Load => "load"@,
        LoadKind::DomContentLoaded => "domcontentloaded"@,
        LoadKind::NetworkIdle => "networkidle"@,
    }
}

impl LoadKind {
    pub fn as_str(self) -> (r: &'static str)
        ensures
            r@ == load_kind_token(self),
    {
        match self {
            LoadKind::Load => "load",
            LoadKind::DomContentLoaded => "domcontentloaded",
            LoadKind::NetworkIdle => "networkidle",
        }
    }
}

/// How an element is addressed: an `@eN` reference from a snapshot, or a CSS selector.
#[derive(Debug, Clone)]
pub enum Target {
    Ref(String),
    Css(String),
}

/// The command-line token of a target: references always carry one leading `@`.
pub open spec fn target_token(t: Target) -> Seq<char> {
    match t {
        Target::Ref(r) => if seq_has_prefix(r@, seq!['@']) { r@ } else { seq!['@'] + r@ },
        Target::Css(s) => s@,
    }
}

/// A reference's token starts with `@`, and normalising a token again gives it back.
pub proof fn lemma_ref_token_normal(r: String, again: String)
    requires
        again@ == target_token(Target::Ref(r)),
    ensures
        target_token(Target::Ref(r)).len() > 0,
        target_token(Target::Ref(r))[0] == '@',
        target_token(Target::Ref(again)) == again@,
{
    let t = target_token(Target::Ref(r));
    if seq_has_prefix(r@, seq!['@']) {
        assert(r@.subrange(0, 1)[0] == '@');
    }
    assert(t[0] == '@');
    assert(again@.subrange(0, 1) =~= seq!['@']);
}

impl Target {
    pub fn as_token(&self) -> (r: String)
        ensures
            r@ == target_token(*self),
    {
        match self {
            Target::Ref(r) => {
                let n = r.as_str().unicode_len();
                let starts = if n > 0 { r.as_str().get_char(0) == '@' } else { false };
                proof {
                    if r@.len() > 0 {
                        assert(r@.subrange(0, 1) =~= seq![r@[0]]);
                        if r@[0] == '@' {
                            assert(r@.subrange(0, 1) =~= seq!['@']);
                        } else {
                            assert(r@.subrange(0, 1)[0] != seq!['@'][0]);
                        }
                    }
                }
                if starts {
                    r.clone()
                } else {
                    let mut s = String::new();
                    push_char(&mut s, '@');
                    s.append(r.as_str());
                    assert(s@ =~= seq!['@'] + r@);
                    s
                }
            },
            Target::Css(s) => s.clone(),
        }
    }
}

/// Per-command result of `batch --json`, reduced to the members the callers read:
/// `result.url` and `result.result` (as a string or as an unsigned number).
#[derive(Debug, Clone)]
pub struct OutcomeResult {
    pub url: Option<String>,
    pub text: Option<String>,
    pub number: Option<u64>,
}

/// One entry of the `batch --json` response.
#[derive(Debug, Clone)]
pub struct BatchOutcome {
    pub command: Vec<String>,
    pub error: Option<String>,
    pub result: Option<OutcomeResult>,
    pub success: bool,
}

/// An equal copy of a list of strings.
pub fn copy_strings(v: &Vec<String>) -> (r: Vec<String>)
    ensures
        r@ == v@,
{
    let mut out: Vec<String> = Vec::new();
    let mut i: usize = 0;
    while i < v.len()
        invariant
            i <= v@.len(),
            out@ == v@.subrange(0, i as int),
        decreases v@.len() - i,
    {
        out.push(v[i].clone());
        assert(out@ =~= v@.subrange(0, i + 1));
        i = i + 1;
    }
    assert(out@ =~= v@);
    out
}

fn copy_opt_string(s: &Option<String>) -> (r: Option<String>)
    ensures
        r == *s,
{
    match s {
        Some(x) => Some(x.clone()),
        None => None,
    }
}

/// The same command, error, result and success flag.
pub open spec fn same_outcome(a: BatchOutcome, b: BatchOutcome) -> bool {
    a.command@ == b.command@ && a.error == b.error && a.result == b.result && a.success == b.success
}

/// Two responses with the same outcomes in the same order.
pub open spec fn same_outcomes(a: Seq<BatchOutcome>, b: Seq<BatchOutcome>) -> bool {
    a.len() == b.len() && forall|i: int| 0 <= i < a.len() ==> same_outcome(#[trigger] a[i], b[i])
}

impl BatchOutcome {
    /// A copy with the same contents.
    pub fn duplicate(&self) -> (r: Self)
        ensures
            same_outcome(r, *self),
    {
        let result = match &self.result {
            Some(x) => Some(OutcomeResult { url: copy_opt_string(&x.url), text: copy_opt_string(&x.text), number: x.number }),
            None => None,
        };
        BatchOutcome { command: copy_strings(&self.command), error: copy_opt_string(&self.error), result, success: self.success }
    }
}

/// A copy of a batch response.
pub fn copy_outcomes(v: &Vec<BatchOutcome>) -> (r: Vec<BatchOutcome>)
    ensures
        same_outcomes(r@, v@),
{
    let mut out: Vec<BatchOutcome> = Vec::new();
    let mut i: usize = 0;
    while i < v.len()
        invariant
            i <= v@.len(),
            out@.len() == i,
            forall|j: int| 0 <= j < i ==> same_outcome(#[trigger] out@[j], v@[j]),
        decreases v@.len() - i,
    {
        out.push(v[i].duplicate());
        i = i + 1;
    }
    out
}

/// Builds the JSON array of commands for `agent-browser batch --json`.
#[derive(Debug, Clone)]
pub struct BatchBuilder {
    commands: Vec<Vec<String>>,
}

/// Characters of each argument of one command.
pub open spec fn args_view(v: Seq<String>) -> Seq<Seq<char>> {
    Seq::new(v.len(), |i: int| v[i]@)
}

pub proof fn lemma_args_view_push(v: Seq<String>, x: String)
    ensures
        args_view(v.push(x)) == args_view(v).push(x@),
{
    assert(args_view(v.push(x)) =~= args_view(v).push(x@));
}

impl View for BatchBuilder {
    type V = Seq<Seq<Seq<char>>>;

    closed spec fn view(&self) -> Seq<Seq<Seq<char>>> {
        Seq::new(self.commands@.len(), |i: int| args_view(self.commands@[i]@))
    }
}

/// Builder states `views[0..=n]` where each call appended one command: state `i` holds the
/// first `i` commands.
proof fn lemma_appended_prefix(views: Seq<Seq<Seq<Seq<char>>>>, cmds: Seq<Seq<Seq<char>>>, i: int)
    requires
        views.len() == cmds.len() + 1,
        views[0] == Seq::<Seq<Seq<char>>>::empty(),
        forall|k: int| 0 <= k < cmds.len() ==> #[trigger] views[k + 1] == views[k].push(cmds[k]),
        0 <= i <= cmds.len(),
    ensures
        views[i] == cmds.take(i),
    decreases i,
{
    if i == 0 {
        assert(cmds.take(0) =~= Seq::<Seq<Seq<char>>>::empty());
    } else {
        lemma_appended_prefix(views, cmds, i - 1);
        assert(views[i] == views[i - 1].push(cmds[i - 1]));
        assert(cmds.take(i) =~= cmds.take(i - 1).push(cmds[i - 1]));
    }
}

/// A builder that starts empty (`new`) and then gets one command per call holds exactly
/// the commands of the calls, in call order, and that is what `build` returns: each
/// command method's `ensures` is the step `views[k + 1] == views[k].push(cmds[k])`.
pub proof fn lemma_built_in_call_order(views: Seq<Seq<Seq<Seq<char>>>>, cmds: Seq<Seq<Seq<char>>>)
    requires
        views.len() == cmds.len() + 1,
        views[0] == Seq::<Seq<Seq<char>>>::empty(),
        forall|k: int| 0 <= k < cmds.len() ==> #[trigger] views[k + 1] == views[k].push(cmds[k]),
    ensures
        views.last() == cmds,
{
    lemma_appended_prefix(views, cmds, cmds.len() as int);
    assert(cmds.take(cmds.len() as int) =~= cmds);
}

/// The rendered `"<n>"` of a millisecond count.
pub open spec fn ms(n: u32) -> Seq<char> {
    decimal(n as nat)
}

impl BatchBuilder {
    pub fn new() -> (r: Self)
        ensures
            r@ == Seq::<Seq<Seq<char>>>::empty(),
    {
        let r = BatchBuilder { commands: Vec::new() };
        assert(r@ =~= Seq::<Seq<Seq<char>>>::empty());
        r
    }

    /// Appends one raw command.
    pub fn push(&mut self, args: Vec<String>) -> (r: &mut Self)
        ensures
            r@ == old(self)@.push(args_view(args@)),
            *final(self) == *final(r),
    {
        let ghost before = self@;
        self.commands.push(args);
        assert(self@ =~= before.push(args_view(args@)));
        self
    }

    pub fn open(&mut self, url: &str) -> (r: &mut Self)
        ensures
            r@ == old(self)@.push(seq!["open"@, url@]),
            *final(self) == *final(r),
    {
        let mut a: Vec<String> = Vec::new();
        a.push(String::from_str("open"));
        a.push(String::from_str(url));
        assert(args_view(a@) =~= seq!["open"@, url@]);
        self.push(a)
    }

    /// Same as [`BatchBuilder::open`].
    pub fn navigate(&mut self, url: &str) -> (r: &mut Self)
        ensures
            r@ == old(self)@.push(seq!["open"@, url@]),
            *final(self) == *final(r),
    {
        self.open(url)
    }

    pub fn wait_load(&mut self, kind: LoadKind) -> (r: &mut Self)
        ensures
            r@ == old(self)@.push(seq!["wait"@, "--load"@, load_kind_token(kind)]),
            *final(self) == *final(r),
    {
        let mut a: Vec<String> = Vec::new();
        a.push(String::from_str("wait"));
        a.push(String::from_str("--load"));
        a.push(String::from_str(kind.as_str()));
        assert(args_view(a@) =~= seq!["wait"@, "--load"@, load_kind_token(kind)]);
        self.push(a)
    }

    fn wait_with_timeout(&mut self, flag: &str, value: &str, timeout_ms: u32) -> (r: &mut Self)
        ensures
            r@ == old(self)@.push(seq!["wait"@, flag@, value@, "--timeout"@, ms(timeout_ms)]),
            *final(self) == *final(r),
    {
        let mut a: Vec<String> = Vec::new();
        a.push(String::from_str("wait"));
        a.push(String::from_str(flag));
        a.push(String::from_str(value));
        a.push(String::from_str("--timeout"));
        a.push(u64_to_decimal(timeout_ms as u64));
        assert(args_view(a@) =~= seq!["wait"@, flag@, value@, "--timeout"@, ms(timeout_ms)]);
        self.push(a)
    }

    pub fn wait_url(&mut self, glob: &str, timeout_ms: u32) -> (r: &mut Self)
        ensures
            r@ == old(self)@.push(seq!["wait"@, "--url"@, glob@, "--timeout"@, ms(timeout_ms)]),
            *final(self) == *final(r),
    {
        self.wait_with_timeout("--url", glob, timeout_ms)
    }

    pub fn wait_fn(&mut self, expr: &str, timeout_ms: u32) -> (r: &mut Self)
        ensures
            r@ == old(self)@.push(seq!["wait"@, "--fn"@, expr@, "--timeout"@, ms(timeout_ms)]),
            *final(self) == *final(r),
    {
        self.wait_with_timeout("--fn", expr, timeout_ms)
    }

    pub fn wait_text(&mut self, text: &str, timeout_ms: u32) -> (r: &mut Self)
        ensures
            r@ == old(self)@.push(seq!["wait"@, "--text"@, text@, "--timeout"@, ms(timeout_ms)]),
            *final(self) == *final(r),
    {
        self.wait_with_timeout("--text", text, timeout_ms)
    }

    pub fn wait_ms(&mut self, wait: u32) -> (r: &mut Self)
        ensures
            r@ == old(self)@.push(seq!["wait"@, ms(wait)]),
            *final(self) == *final(r),
    {
        let mut a: Vec<String> = Vec::new();
        a.push(String::from_str("wait"));
        a.push(u64_to_decimal(wait as u64));
        assert(args_view(a@) =~= seq!["wait"@, ms(wait)]);
        self.push(a)
    }

    pub fn snapshot_interactive(&mut self) -> (r: &mut Self)
        ensures
            r@ == old(self)@.push(seq!["snapshot"@, "-i"@]),
            *final(self) == *final(r),
    {
        let mut a: Vec<String> = Vec::new();
        a.push(String::from_str("snapshot"));
        a.push(String::from_str("-i"));
        assert(args_view(a@) =~= seq!["snapshot"@, "-i"@]);
        self.push(a)
    }

    pub fn snapshot_scoped(&mut self, css: &str) -> (r: &mut Self)
        ensures
            r@ == old(self)@.push(seq!["snapshot"@, "-i"@, "-s"@, css@]),
            *final(self) == *final(r),
    {
        let mut a: Vec<String> = Vec::new();
        a.push(String::from_str("snapshot"));
        a.push(String::from_str("-i"));
        a.push(String::from_str("-s"));
        a.push(String::from_str(css));
        assert(args_view(a@) =~= seq!["snapshot"@, "-i"@, "-s"@, css@]);
        self.push(a)
    }

    fn verb_then_target(&mut self, verb: &str, target: &Target) -> (r: &mut Self)
        ensures
            r@ == old(self)@.push(seq![verb@, target_token(*target)]),
            *final(self) == *final(r),
    {
        let mut a: Vec<String> = Vec::new();
        a.push(String::from_str(verb));
        a.push(target.as_token());
        assert(args_view(a@) =~= seq![verb@, target_token(*target)]);
        self.push(a)
    }

    pub fn click(&mut self, target: &Target) -> (r: &mut Self)
        ensures
            r@ == old(self)@.push(seq!["click"@, target_token(*target)]),
            *final(self) == *final(r),
    {
        self.verb_then_target("click", target)
    }

    pub fn fill(&mut self, target: &Target, value: &str) -> (r: &mut Self)
        ensures
            r@ == old(self)@.push(seq!["fill"@, target_token(*target), value@]),
            *final(self) == *final(r),
    {
        let mut a: Vec<String> = Vec::new();
        a.push(String::from_str("fill"));
        a.push(target.as_token());
        a.push(String::from_str(value));
        assert(args_view(a@) =~= seq!["fill"@, target_token(*target), value@]);
        self.push(a)
    }

    /// `files` are the display forms of the paths to attach.
    pub fn upload(&mut self, target: &Target, files: &Vec<String>) -> (r: &mut Self)
        ensures
            r@ == old(self)@.push(seq!["upload"@, target_token(*target)] + args_view(files@)),
            *final(self) == *final(r),
    {
        let mut a: Vec<String> = Vec::new();
        a.push(String::from_str("upload"));
        a.push(target.as_token());
        let mut i: usize = 0;
        while i < files.len()
            invariant
                i <= files@.len(),
                args_view(a@) =~= seq!["upload"@, target_token(*target)] + args_view(files@.subrange(0, i as int)),
            decreases files@.len() - i,
        {
            let ghost prev = a@;
            a.push(files[i].clone());
            proof {
                lemma_args_view_push(prev, files@[i as int]);
                assert(files@.subrange(0, i + 1) =~= files@.subrange(0, i as int).push(files@[i as int]));
                lemma_args_view_push(files@.subrange(0, i as int), files@[i as int]);
            }
            i = i + 1;
            assert(args_view(a@) =~= seq!["upload"@, target_token(*target)] + args_view(files@.subrange(0, i as int)));
        }
        assert(files@.subrange(0, files@.len() as int) =~= files@);
        self.push(a)
    }

    pub fn set_viewport(&mut self, width: u32, height: u32) -> (r: &mut Self)
        ensures
            r@ == old(self)@.push(seq!["set"@, "viewport"@, decimal(width as nat), decimal(height as nat)]),
            *final(self) == *final(r),
    {
        let mut a: Vec<String> = Vec::new();
        a.push(String::from_str("set"));
        a.push(String::from_str("viewport"));
        a.push(u64_to_decimal(width as u64));
        a.push(u64_to_decimal(height as u64));
        assert(args_view(a@) =~= seq!["set"@, "viewport"@, decimal(width as nat), decimal(height as nat)]);
        self.push(a)
    }

    /// `path` is the display form of the output file.
    pub fn pdf(&mut self, path: &str) -> (r: &mut Self)
        ensures
            r@ == old(self)@.push(seq!["pdf"@, path@]),
            *final(self) == *final(r),
    {
        self.two("pdf", path)
    }

    pub fn eval(&mut self, script: &str) -> (r: &mut Self)
        ensures
            r@ == old(self)@.push(seq!["eval"@, script@]),
            *final(self) == *final(r),
    {
        self.two("eval", script)
    }

    pub fn get_url(&mut self) -> (r: &mut Self)
        ensures
            r@ == old(self)@.push(seq!["get"@, "url"@]),
            *final(self) == *final(r),
    {
        self.two("get", "url")
    }

    pub fn get_html(&mut self, target: &Target) -> (r: &mut Self)
        ensures
            r@ == old(self)@.push(seq!["get"@, "html"@, target_token(*target)]),
            *final(self) == *final(r),
    {
        let tok = target.as_token();
        self.three("get", "html", tok.as_str())
    }

    pub fn get_text(&mut self, target: &Target) -> (r: &mut Self)
        ensures
            r@ == old(self)@.push(seq!["get"@, "text"@, target_token(*target)]),
            *final(self) == *final(r),
    {
        let tok = target.as_token();
        self.three("get", "text", tok.as_str())
    }

    /// `path` is the display form of the state file.
    pub fn state_save(&mut self, path: &str) -> (r: &mut Self)
        ensures
            r@ == old(self)@.push(seq!["state"@, "save"@, path@]),
            *final(self) == *final(r),
    {
        self.three("state", "save", path)
    }

    /// `path` is the display form of the state file.
    pub fn state_load(&mut self, path: &str) -> (r: &mut Self)
        ensures
            r@ == old(self)@.push(seq!["state"@, "load"@, path@]),
            *final(self) == *final(r),
    {
        self.three("state", "load", path)
    }

    fn two(&mut self, a0: &str, a1: &str) -> (r: &mut Self)
        ensures
            r@ == old(self)@.push(seq![a0@, a1@]),
            *final(self) == *final(r),
    {
        let mut a: Vec<String> = Vec::new();
        a.push(String::from_str(a0));
        a.push(String::from_str(a1));
        assert(args_view(a@) =~= seq![a0@, a1@]);
        self.push(a)
    }

    fn three(&mut self, a0: &str, a1: &str, a2: &str) -> (r: &mut Self)
        ensures
            r@ == old(self)@.push(seq![a0@, a1@, a2@]),
            *final(self) == *final(r),
    {
        let mut a: Vec<String> = Vec::new();
        a.push(String::from_str(a0));
        a.push(String::from_str(a1));
        a.push(String::from_str(a2));
        assert(args_view(a@) =~= seq![a0@, a1@, a2@]);
        self.push(a)
    }

    /// The commands gathered so far.
    pub fn build(&self) -> (r: &[Vec<String>])
        ensures
            r@.len() == self@.len(),
            forall|i: int| 0 <= i < r@.len() ==> args_view(#[trigger] r@[i]@) == self@[i],
    {
        self.commands.as_slice()
    }

    /// `serde_json::to_string` on the gathered commands (a `Vec<Vec<String>>`). In serde_json
    /// the text goes into a `Vec<u8>`, which never refuses a write, and a string fails to
    /// serialise only when the writer does, so the call always gives `Ok`.
    #[verifier::external_body]
    fn commands_json(&self) -> (r: Result<String, serde_json::Error>)
        ensures
            r is Ok,
            r matches Ok(s) ==> s@ == json_of_commands(self@),
    {
        serde_json::to_string(&self.commands)
    }

    /// The JSON text handed to `agent-browser batch --json` on its stdin.
    pub fn to_json(&self) -> (r: Result<String, serde_json::Error>)
        ensures
            r matches Ok(s) && s@ == json_of_commands(self@),
    {
        self.commands_json()
    }
}


} // verus!

verus! {

/// Rust's `{:?}` rendering of a list of strings (as in `["open", "https://…"]`).
pub uninterp spec fn debug_of_strings(v: Seq<Seq<char>>) -> Seq<char>;

/// Renders a command with `format!("{:?}", ..)`.
#[verifier::external_body]
pub(crate) fn debug_strings(v: &Vec<String>) -> (r: String)
    ensures
        r@ == debug_of_strings(args_view(v@)),
{
    format!("{:?}", v)
}

/// The error text of an outcome, `"unknown"` when it has none.
pub open spec fn outcome_error_text(o: BatchOutcome) -> Seq<char> {
    match o.error {
        Some(e) => e@,
        None => "unknown"@,
    }
}

/// The first `k` outcomes all succeeded.
pub open spec fn all_succeed_before(outs: Seq<BatchOutcome>, k: int) -> bool {
    forall|j: int| 0 <= j < k ==> (#[trigger] outs[j]).success
}

/// Index of the first failed outcome among the first `limit`, if any.
pub open spec fn first_failure_within(outs: Seq<BatchOutcome>, limit: int) -> Option<int> {
    if exists|i: int| 0 <= i < limit && i < outs.len() && !(#[trigger] outs[i]).success {
        Some(choose|i: int| 0 <= i < limit && i < outs.len() && !outs[i].success && all_succeed_before(outs, i))
    } else {
        None
    }
}

proof fn lemma_least_failure(outs: Seq<BatchOutcome>, limit: int, i: int)
    requires
        0 <= i < limit,
        i < outs.len(),
        !outs[i].success,
        all_succeed_before(outs, i),
    ensures
        first_failure_within(outs, limit) == Some(i),
{
    let c = choose|k: int| 0 <= k < limit && k < outs.len() && !outs[k].success && all_succeed_before(outs, k);
    assert(0 <= c < limit && c < outs.len() && !outs[c].success && all_succeed_before(outs, c));
    if c < i {
        assert(outs[c].success);
    }
    if i < c {
        assert(outs[i].success);
    }
}

/// Finds the first failed outcome among the first `limit` outcomes.
pub fn find_failure(outs: &Vec<BatchOutcome>, limit: usize) -> (r: Option<usize>)
    ensures
        r matches Some(i) ==> first_failure_within(outs@, limit as int) == Some(i as int) && i < outs@.len()
            && i < limit && !outs@[i as int].success && all_succeed_before(outs@, i as int),
        r is None ==> first_failure_within(outs@, limit as int) is None,
{
    let mut i: usize = 0;
    while i < outs.len() && i < limit
        invariant
            i <= outs@.len(),
            all_succeed_before(outs@, i as int),
        decreases outs@.len() - i,
    {
        if !outs[i].success {
            proof {
                lemma_least_failure(outs@, limit as int, i as int);
            }
            return Some(i);
        }
        i = i + 1;
    }
    proof {
        if exists|k: int| 0 <= k < limit && k < outs@.len() && !(#[trigger] outs@[k]).success {
            let k = choose|k: int| 0 <= k < limit && k < outs@.len() && !(#[trigger] outs@[k]).success;
            assert(outs@[k].success);
        }
    }
    None
}

/// `<label>` + `{:?}` of the failed command + `" failed: "` + its error text.
pub open spec fn step_failed_message(label: Seq<char>, o: BatchOutcome) -> Seq<char> {
    label + debug_of_strings(args_view(o.command@)) + " failed: "@ + outcome_error_text(o)
}

/// Builds [`step_failed_message`].
pub fn step_failed(label: &str, o: &BatchOutcome) -> (r: BrowserError)
    ensures
        r matches BrowserError::CommandFailed(m) && m@ == step_failed_message(label@, *o),
{
    let mut m = String::from_str(label);
    let d = debug_strings(&o.command);
    m.append(d.as_str());
    m.append(" failed: ");
    match &o.error {
        Some(e) => m.append(e.as_str()),
        None => m.append("unknown"),
    }
    BrowserError::CommandFailed(m)
}

/// The message of a failed step of an assignment batch:
/// `"<op>: command #<i> (<command>) failed: <error>"`.
pub open spec fn batch_failure_message(op: Seq<char>, i: nat, o: BatchOutcome) -> Seq<char> {
    op + ": command #"@ + decimal(i) + " ("@ + debug_of_strings(args_view(o.command@)) + ") failed: "@
        + outcome_error_text(o)
}

/// Checks a batch response: `Ok` when every step succeeded, otherwise the
/// failure of the first step that did not.
pub fn check_batch(outs: &Vec<BatchOutcome>, op: &str) -> (r: Result<(), BrowserError>)
    ensures
        r is Ok <==> (forall|i: int| 0 <= i < outs@.len() ==> (#[trigger] outs@[i]).success),
        r matches Err(e) ==> exists|i: int|
            first_failure_within(outs@, outs@.len() as int) == Some(i)
                && (e matches BrowserError::CommandFailed(m) && m@
                == batch_failure_message(op@, i as nat, outs@[i])),
{
    match find_failure(outs, outs.len()) {
        Some(i) => {
            let mut m = String::from_str(op);
            m.append(": command #");
            let n = u64_to_decimal(i as u64);
            m.append(n.as_str());
            m.append(" (");
            let d = debug_strings(&outs[i].command);
            m.append(d.as_str());
            m.append(") failed: ");
            match &outs[i].error {
                Some(e) => m.append(e.as_str()),
                None => m.append("unknown"),
            }
            assert(!outs@[i as int].success);
            Err(BrowserError::CommandFailed(m))
        },
        None => {
            proof {
                assert forall|i: int| 0 <= i < outs@.len() implies (#[trigger] outs@[i]).success by {
                    if !outs@[i].success {
                        assert(exists|k: int| 0 <= k < outs@.len() && k < outs@.len() && !(#[trigger] outs@[k]).success);
                    }
                }
            }
            Ok(())
        },
    }
}

/// `result.url` of the last outcome, empty when absent.
pub open spec fn last_url(outs: Seq<BatchOutcome>) -> Seq<char> {
    if outs.len() == 0 {
        Seq::empty()
    } else {
        match outs.last().result {
            Some(res) => match res.url {
                Some(u) => u@,
                None => Seq::empty(),
            },
            None => Seq::empty(),
        }
    }
}

pub fn final_url(outs: &Vec<BatchOutcome>) -> (r: String)
    ensures
        r@ == last_url(outs@),
{
    if outs.len() == 0 {
        return String::new();
    }
    match &outs[outs.len() - 1].result {
        Some(res) => match &res.url {
            Some(u) => u.clone(),
            None => String::new(),
        },
        None => String::new(),
    }
}

/// `result.url` of outcome `i`.
pub open spec fn url_at(outs: Seq<BatchOutcome>, i: int) -> Option<Seq<char>> {
    if 0 <= i < outs.len() {
        match outs[i].result {
            Some(res) => match res.url {
                Some(u) => Some(u@),
                None => None,
            },
            None => None,
        }
    } else {
        None
    }
}

/// `result.result` of outcome `i`, when it is a string.
pub open spec fn text_at(outs: Seq<BatchOutcome>, i: int) -> Option<Seq<char>> {
    if 0 <= i < outs.len() {
        match outs[i].result {
            Some(res) => match res.text {
                Some(u) => Some(u@),
                None => None,
            },
            None => None,
        }
    } else {
        None
    }
}

/// `result.result` of outcome `i`, when it is an unsigned number.
pub open spec fn number_at(outs: Seq<BatchOutcome>, i: int) -> Option<u64> {
    if 0 <= i < outs.len() {
        match outs[i].result {
            Some(res) => res.number,
            None => None,
        }
    } else {
        None
    }
}

pub fn check_number_at(outs: &Vec<BatchOutcome>, i: usize) -> (r: Option<u64>)
    ensures
        r == number_at(outs@, i as int),
{
    if i >= outs.len() {
        return None;
    }
    match &outs[i].result {
        Some(res) => res.number,
        None => None,
    }
}

pub fn get_url_at(outs: &Vec<BatchOutcome>, i: usize) -> (r: Option<String>)
    ensures
        r matches Some(s) ==> url_at(outs@, i as int) == Some(s@),
        r is None ==> url_at(outs@, i as int) is None,
{
    if i >= outs.len() {
        return None;
    }
    match &outs[i].result {
        Some(res) => match &res.url {
            Some(u) => Some(u.clone()),
            None => None,
        },
        None => None,
    }
}

pub fn get_text_at(outs: &Vec<BatchOutcome>, i: usize) -> (r: Option<String>)
    ensures
        r matches Some(s) ==> text_at(outs@, i as int) == Some(s@),
        r is None ==> text_at(outs@, i as int) is None,
{
    if i >= outs.len() {
        return None;
    }
    match &outs[i].result {
        Some(res) => match &res.text {
            Some(u) => Some(u.clone()),
            None => None,
        },
        None => None,
    }
}

} // verus!

//! The gates of `assignment submit` / `upload` / `push`, and what `push` shows before
//! asking for consent.
use vstd::prelude::*;
use crate::error::ImoocsError;
use crate::text::{decimal, u64_to_decimal};

verus! {

/// `assignment.confirm` in the configuration.
#[derive(Debug, Clone, Copy, PartialEq, Eq, Structural)]
pub enum ConfirmMode {
    /// `submit` / `upload` finalise on the server at once.
    Auto,
    /// `submit` / `upload` only stage a local draft; `push` finalises it.
    Confirm,
}

/// The `[assignment]` table.
#[derive(Debug, Clone)]
pub struct AssignmentConfig {
    pub confirm: Option<ConfirmMode>,
}

/// The `[slides]` table.
#[derive(Debug, Clone)]
pub struct SlidesConfig {
    pub out_dir: Option<String>,
}

/// The parts of `config.toml` that the commands read.
#[derive(Debug, Clone)]
pub struct Config {
    pub username: Option<String>,
    pub assignment: Option<AssignmentConfig>,
    pub slides: Option<SlidesConfig>,
}

/// The configured `assignment.confirm`.
pub open spec fn confirm_mode_of(cfg: Config) -> Option<ConfirmMode> {
    match cfg.assignment {
        Some(a) => a.confirm,
        None => None,
    }
}

impl Config {
    pub fn confirm_mode(&self) -> (r: Option<ConfirmMode>)
        ensures
            r == confirm_mode_of(*self),
    {
        match &self.assignment {
            Some(a) => a.confirm,
            None => None,
        }
    }
}

/// The built-in slides directory setting.
pub const DEFAULT_SLIDES_OUT_DIR: &'static str = "tmp";

/// The slides directory setting in force: `--out-dir`, then `[slides] out_dir`, then
/// `"tmp"`.
pub open spec fn slides_setting(cli: Option<Seq<char>>, cfg: Config) -> Seq<char> {
    match cli {
        Some(v) => v,
        None => match cfg.slides {
            Some(s) => match s.out_dir {
                Some(d) => d@,
                None => DEFAULT_SLIDES_OUT_DIR@,
            },
            None => DEFAULT_SLIDES_OUT_DIR@,
        },
    }
}

pub fn slides_out_dir_value<'a>(cli_override: Option<&'a str>, cfg: &'a Config) -> (r: &'a str)
    ensures
        r@ == slides_setting(match cli_override { Some(v) => Some(v@), None => None }, *cfg),
{
    if let Some(v) = cli_override {
        return v;
    }
    match &cfg.slides {
        Some(s) => match &s.out_dir {
            Some(d) => d.as_str(),
            None => DEFAULT_SLIDES_OUT_DIR,
        },
        None => DEFAULT_SLIDES_OUT_DIR,
    }
}

/// Where `submit` / `upload` go.
#[derive(Debug, Clone, Copy, PartialEq, Eq, Structural)]
pub enum SubmitGate {
    /// Finalise on the server now (`auto`).
    Direct,
    /// Stage a local draft (`confirm`).
    Stage,
}

/// Text of the error raised while `assignment.confirm` is unset.
pub open spec fn confirm_unset_message() -> Seq<char> {
    "config `assignment.confirm` is not set. Run `imoocs setup`, or add `[assignment]\\nconfirm = \"auto\"` (or `\"confirm\"`) to your config.toml."@
}

fn confirm_unset() -> (r: ImoocsError)
    ensures
        r matches ImoocsError::Validation(m) && m@ == confirm_unset_message(),
{
    ImoocsError::Validation(String::from_str(
        "config `assignment.confirm` is not set. Run `imoocs setup`, or add `[assignment]\\nconfirm = \"auto\"` (or `\"confirm\"`) to your config.toml.",
    ))
}

/// `auto` submits directly, `confirm` stages, an unset mode is refused; the terminal
/// plays no part.
pub fn decide_submit_gate(mode: Option<ConfirmMode>) -> (r: Result<SubmitGate, ImoocsError>)
    ensures
        mode == Some(ConfirmMode::Auto) ==> r == Ok::<SubmitGate, ImoocsError>(SubmitGate::Direct),
        mode == Some(ConfirmMode::Confirm) ==> r == Ok::<SubmitGate, ImoocsError>(SubmitGate::Stage),
        mode is None ==> (r matches Err(ImoocsError::Validation(m)) && m@ == confirm_unset_message()),
{
    match mode {
        None => Err(confirm_unset()),
        Some(ConfirmMode::Auto) => Ok(SubmitGate::Direct),
        Some(ConfirmMode::Confirm) => Ok(SubmitGate::Stage),
    }
}

/// `decide_submit_gate` on the configured mode.
pub fn resolve_submit_gate(cfg: &Config) -> (r: Result<SubmitGate, ImoocsError>)
    ensures
        confirm_mode_of(*cfg) == Some(ConfirmMode::Auto) ==> r == Ok::<SubmitGate, ImoocsError>(SubmitGate::Direct),
        confirm_mode_of(*cfg) == Some(ConfirmMode::Confirm) ==> r == Ok::<SubmitGate, ImoocsError>(SubmitGate::Stage),
        confirm_mode_of(*cfg) is None ==> (r matches Err(ImoocsError::Validation(m)) && m@ == confirm_unset_message()),
{
    decide_submit_gate(cfg.confirm_mode())
}

/// Text of the error raised when `push` runs without a terminal.
pub open spec fn push_needs_tty_message() -> Seq<char> {
    "`assignment push` must be run from a TTY (interactive shell). Draft is retained; re-run from your terminal to finalise."@
}

/// `push` needs a configured mode and an interactive terminal, in that order of checks.
pub fn decide_push_precheck(mode: Option<ConfirmMode>, is_tty: bool) -> (r: Result<(), ImoocsError>)
    ensures
        mode is None ==> (r matches Err(ImoocsError::Validation(m)) && m@ == confirm_unset_message()),
        mode is Some && !is_tty ==> (r matches Err(ImoocsError::Validation(m)) && m@ == push_needs_tty_message()),
        mode is Some && is_tty ==> r is Ok,
{
    if mode.is_none() {
        return Err(confirm_unset());
    }
    if !is_tty {
        return Err(ImoocsError::Validation(String::from_str(
            "`assignment push` must be run from a TTY (interactive shell). Draft is retained; re-run from your terminal to finalise.",
        )));
    }
    Ok(())
}

/// The user's reply to the push prompt.
#[derive(Debug)]
pub enum PromptReply {
    Yes,
    No,
    /// End of input, interruption, or a broken pipe.
    Interrupted,
    /// Any other prompt failure, with its text.
    Failed(String),
}

/// Only `y` lets the push proceed; every other reply keeps the draft and is reported.
pub fn push_reply_verdict(reply: PromptReply) -> (r: Result<bool, ImoocsError>)
    ensures
        reply is Yes ==> r == Ok::<bool, ImoocsError>(true),
        reply is No ==> (r matches Err(ImoocsError::Validation(m))
            && m@ == "Push cancelled. Draft is retained; re-run `imoocs assignment push` when ready."@),
        reply is Interrupted ==> (r matches Err(ImoocsError::Validation(m))
            && m@ == "Push cancelled (prompt interrupted). Draft is retained; re-run `imoocs assignment push` when ready."@),
        reply matches PromptReply::Failed(e) ==> (r matches Err(ImoocsError::Internal(m))
            && m@ == "prompt failed: "@ + e@),
{
    match reply {
        PromptReply::Yes => Ok(true),
        PromptReply::No => Err(ImoocsError::Validation(String::from_str(
            "Push cancelled. Draft is retained; re-run `imoocs assignment push` when ready.",
        ))),
        PromptReply::Interrupted => Err(ImoocsError::Validation(String::from_str(
            "Push cancelled (prompt interrupted). Draft is retained; re-run `imoocs assignment push` when ready.",
        ))),
        PromptReply::Failed(e) => {
            let mut m = String::from_str("prompt failed: ");
            m.append(e.as_str());
            Err(ImoocsError::Internal(m))
        },
    }
}

/// What `push` is about to send.
pub struct PushAction<'a> {
    pub course: &'a str,
    pub problem: &'a str,
    pub answer_pids: &'a [String],
    pub file_pids: &'a [(String, String)],
}

/// The pieces joined with `sep`.
pub open spec fn join_with(ps: Seq<Seq<char>>, sep: Seq<char>) -> Seq<char>
    decreases ps.len(),
{
    if ps.len() == 0 {
        Seq::empty()
    } else if ps.len() == 1 {
        ps[0]
    } else {
        join_with(ps.drop_last(), sep) + sep + ps.last()
    }
}

/// Joins the strings with `sep`.
pub fn join_strings(v: &[String], sep: &str) -> (r: String)
    ensures
        r@ == join_with(Seq::new(v@.len(), |i: int| v@[i]@), sep@),
{
    let ghost all = Seq::new(v@.len(), |i: int| v@[i]@);
    let mut out = String::new();
    let mut i: usize = 0;
    while i < v.len()
        invariant
            i <= v@.len(),
            all == Seq::new(v@.len(), |i: int| v@[i]@),
            out@ == join_with(all.subrange(0, i as int), sep@),
        decreases v@.len() - i,
    {
        assert(all.subrange(0, i + 1).drop_last() =~= all.subrange(0, i as int));
        if i > 0 {
            out.append(sep);
        }
        out.append(v[i].as_str());
        i = i + 1;
        proof {
            if i == 1 {
                assert(out@ =~= join_with(all.subrange(0, i as int), sep@));
            }
        }
    }
    assert(all.subrange(0, v@.len() as int) =~= all);
    out
}

/// `"answers=<n>"`, `"files=<m>"`, both, or `"empty"`.
pub open spec fn push_summary(answers: nat, files: nat) -> Seq<char> {
    if answers == 0 && files == 0 {
        "empty"@
    } else if files == 0 {
        "answers="@ + decimal(answers)
    } else if answers == 0 {
        "files="@ + decimal(files)
    } else {
        "answers="@ + decimal(answers) + " files="@ + decimal(files)
    }
}

/// `"<pid>=<file name>"` for each staged file.
pub open spec fn file_entries(f: Seq<(String, String)>) -> Seq<Seq<char>> {
    Seq::new(f.len(), |i: int| f[i].0@ + "="@ + f[i].1@)
}

impl<'a> PushAction<'a> {
    /// The one-line question: `Push <course>/<problem>? [<summary>]`.
    pub open spec fn prompt(&self) -> Seq<char> {
        "Push "@ + self.course@ + "/"@ + self.problem@ + "? ["@
            + push_summary(self.answer_pids@.len(), self.file_pids@.len()) + "]"@
    }

    /// The details shown before the question: the target, the answer fields, the files.
    pub open spec fn detail(&self) -> Seq<char> {
        "Push target: "@ + self.course@ + "/"@ + self.problem@ + "\n"@ + (if self.answer_pids@.len() == 0 {
            "  answers: -"@
        } else {
            "  answers: "@ + join_with(Seq::new(self.answer_pids@.len(), |i: int| self.answer_pids@[i]@), ", "@)
        }) + "\n"@ + (if self.file_pids@.len() == 0 {
            "  files:   -"@
        } else {
            "  files:   "@ + join_with(file_entries(self.file_pids@), ", "@)
        })
    }

    pub fn prompt_text(&self) -> (r: String)
        ensures
            r@ == self.prompt(),
    {
        let a = self.answer_pids.len();
        let f = self.file_pids.len();
        let mut s = String::from_str("Push ");
        s.append(self.course);
        s.append("/");
        s.append(self.problem);
        s.append("? [");
        if a == 0 && f == 0 {
            s.append("empty");
        } else if f == 0 {
            s.append("answers=");
            let n = u64_to_decimal(a as u64);
            s.append(n.as_str());
        } else if a == 0 {
            s.append("files=");
            let n = u64_to_decimal(f as u64);
            s.append(n.as_str());
        } else {
            s.append("answers=");
            let n = u64_to_decimal(a as u64);
            s.append(n.as_str());
            s.append(" files=");
            let m = u64_to_decimal(f as u64);
            s.append(m.as_str());
        }
        s.append("]");
        s
    }

    pub fn detail_text(&self) -> (r: String)
        ensures
            r@ == self.detail(),
    {
        let mut s = String::from_str("Push target: ");
        s.append(self.course);
        s.append("/");
        s.append(self.problem);
        s.append("\n");
        if self.answer_pids.len() == 0 {
            s.append("  answers: -");
        } else {
            s.append("  answers: ");
            let j = join_strings(self.answer_pids, ", ");
            s.append(j.as_str());
        }
        s.append("\n");
        if self.file_pids.len() == 0 {
            s.append("  files:   -");
        } else {
            s.append("  files:   ");
            let mut entries: Vec<String> = Vec::new();
            let mut i: usize = 0;
            while i < self.file_pids.len()
                invariant
                    i <= self.file_pids@.len(),
                    entries@.len() == i,
                    forall|k: int| 0 <= k < i ==> (#[trigger] entries@[k])@ == file_entries(self.file_pids@)[k],
                decreases self.file_pids@.len() - i,
            {
                let mut e = self.file_pids[i].0.clone();
                e.append("=");
                e.append(self.file_pids[i].1.as_str());
                entries.push(e);
                i = i + 1;
            }
            let j = join_strings(entries.as_slice(), ", ");
            assert(Seq::new(entries@.len(), |i: int| entries@[i]@) =~= file_entries(self.file_pids@));
            s.append(j.as_str());
        }
        s
    }
}

} // verus!

//! The command lists that answer or upload to an assignment problem
//! through the browser session.
use vstd::prelude::*;
use crate::batch::{BatchBuilder, args_view};
use crate::js::{click_submit_js, click_submit_script, content_ready_js, content_ready_script, fill_value_js, fill_value_script, install_xhr_monitor_js, open_problem_js, open_problem_script, suppress_dialogs_js, suppress_dialogs_script, wait_xhr_idle_js, xhr_idle_script, xhr_monitor_script};
use crate::text::decimal;

verus! {

/// Selector of the problem container with the given `data-urlprefix`.
pub open spec fn container_selector(urlprefix: Seq<char>) -> Seq<char> {
    ".problem-container[data-urlprefix=\""@ + urlprefix + "\"]"@
}

/// Selector of the problem's file input for field `pid`.
pub open spec fn file_input_selector(urlprefix: Seq<char>, pid: Seq<char>) -> Seq<char> {
    ".problem-container[data-urlprefix=\""@ + urlprefix + "\"] input[type=\"file\"][name=\""@ + pid + "\"]"@
}

/// `wait --fn <expr> --timeout <t>`.
pub open spec fn wait_fn_command(expr: Seq<char>, t: nat) -> Seq<Seq<char>> {
    seq!["wait"@, "--fn"@, expr, "--timeout"@, decimal(t)]
}

/// Expression that holds once the document has finished loading.
pub open spec fn document_complete() -> Seq<char> {
    "document.readyState === 'complete'"@
}

/// Expression that holds once the selector matches an element.
pub open spec fn selector_present(sel: Seq<char>) -> Seq<char> {
    "document.querySelector('"@ + sel + "') !== null"@
}

/// Open the page, wait for the container, open the problem and wait for its content.
pub open spec fn page_prelude(page_url: Seq<char>, sel: Seq<char>) -> Seq<Seq<Seq<char>>> {
    seq![
        seq!["open"@, page_url],
        wait_fn_command(document_complete(), 30000),
        wait_fn_command(selector_present(sel), 30000),
        seq!["eval"@, open_problem_script(sel)],
        wait_fn_command(content_ready_script(sel), 30000),
    ]
}

/// One `eval` filling each `(pid, value)` pair, in the given order.
pub open spec fn fill_commands(sel: Seq<char>, answers: Seq<(Seq<char>, Seq<char>)>) -> Seq<Seq<Seq<char>>> {
    Seq::new(answers.len(), |i: int| seq!["eval"@, fill_value_script(sel, answers[i].0, answers[i].1)])
}

/// Suppress dialogs, watch the requests, click submit, wait until idle, close the browser.
pub open spec fn submit_tail(sel: Seq<char>) -> Seq<Seq<Seq<char>>> {
    seq![
        seq!["eval"@, suppress_dialogs_script()],
        seq!["eval"@, xhr_monitor_script()],
        seq!["eval"@, click_submit_script(sel)],
        wait_fn_command(xhr_idle_script(), 30000),
        seq!["close"@],
    ]
}

/// Characters of each `(pid, value)` pair.
pub open spec fn answers_view(a: Seq<(String, String)>) -> Seq<(Seq<char>, Seq<char>)> {
    Seq::new(a.len(), |i: int| (a[i].0@, a[i].1@))
}

/// The whole answer batch.
pub open spec fn submit_answer_plan(
    page_url: Seq<char>,
    urlprefix: Seq<char>,
    answers: Seq<(Seq<char>, Seq<char>)>,
) -> Seq<Seq<Seq<char>>> {
    page_prelude(page_url, container_selector(urlprefix))
        + fill_commands(container_selector(urlprefix), answers)
        + submit_tail(container_selector(urlprefix))
}

/// The whole upload batch.
pub open spec fn upload_file_plan(
    page_url: Seq<char>,
    urlprefix: Seq<char>,
    pid: Seq<char>,
    file: Seq<char>,
) -> Seq<Seq<Seq<char>>> {
    page_prelude(page_url, container_selector(urlprefix))
        + seq![seq!["upload"@, file_input_selector(urlprefix, pid), file]]
        + submit_tail(container_selector(urlprefix))
}

/// In the answer batch, the five commands that open the problem come first, starting with
/// opening the page; then the `i`-th command after them fills field `answers[i].0` with
/// exactly `answers[i].1`, each pair once and in order; the five closing commands follow,
/// with the click on submit third and closing the browser last.
pub proof fn lemma_each_field_gets_its_own_answer(
    page_url: Seq<char>,
    urlprefix: Seq<char>,
    answers: Seq<(Seq<char>, Seq<char>)>,
)
    ensures
        submit_answer_plan(page_url, urlprefix, answers).len() == answers.len() + 10,
        submit_answer_plan(page_url, urlprefix, answers)[0] == seq!["open"@, page_url],
        submit_answer_plan(page_url, urlprefix, answers)[answers.len() as int + 7] == seq![
            "eval"@,
            click_submit_script(container_selector(urlprefix)),
        ],
        submit_answer_plan(page_url, urlprefix, answers)[answers.len() as int + 9] == seq!["close"@],
        forall|i: int| 0 <= i < answers.len() ==> #[trigger] submit_answer_plan(page_url, urlprefix, answers)[5 + i]
            == seq!["eval"@, fill_value_script(container_selector(urlprefix), answers[i].0, answers[i].1)],
{
    let plan = submit_answer_plan(page_url, urlprefix, answers);
    let sel = container_selector(urlprefix);
    let n = answers.len() as int;
    assert(plan[n + 7] == submit_tail(sel)[2]);
    assert(plan[n + 9] == submit_tail(sel)[4]);
    assert forall|i: int| 0 <= i < answers.len() implies #[trigger] plan[5 + i]
        == seq!["eval"@, fill_value_script(sel, answers[i].0, answers[i].1)] by {
        assert(plan[5 + i] == fill_commands(sel, answers)[i]);
    }
}

/// The upload batch opens the problem like the answer batch, then attaches exactly
/// `file` to the file input of field `pid`, then submits and closes the browser.
pub proof fn lemma_upload_attaches_the_file(page_url: Seq<char>, urlprefix: Seq<char>, pid: Seq<char>, file: Seq<char>)
    ensures
        upload_file_plan(page_url, urlprefix, pid, file).len() == 11,
        upload_file_plan(page_url, urlprefix, pid, file)[0] == seq!["open"@, page_url],
        upload_file_plan(page_url, urlprefix, pid, file)[5] == seq!["upload"@, file_input_selector(urlprefix, pid), file],
        upload_file_plan(page_url, urlprefix, pid, file)[8] == seq![
            "eval"@,
            click_submit_script(container_selector(urlprefix)),
        ],
        upload_file_plan(page_url, urlprefix, pid, file)[10] == seq!["close"@],
{
    let sel = container_selector(urlprefix);
    let plan = upload_file_plan(page_url, urlprefix, pid, file);
    assert(plan[8] == submit_tail(sel)[2]);
    assert(plan[10] == submit_tail(sel)[4]);
}

fn make_container_selector(urlprefix: &str) -> (r: String)
    ensures
        r@ == container_selector(urlprefix@),
{
    let mut s = String::from_str(".problem-container[data-urlprefix=\"");
    s.append(urlprefix);
    s.append("\"]");
    s
}

fn add_prelude(b: &mut BatchBuilder, page_url: &str, sel: &str)
    ensures
        final(b)@ == old(b)@ + page_prelude(page_url@, sel@),
{
    let ghost start = b@;
    b.open(page_url);
    b.wait_fn("document.readyState === 'complete'", 30000);
    let mut present = String::from_str("document.querySelector('");
    present.append(sel);
    present.append("') !== null");
    b.wait_fn(present.as_str(), 30000);
    let js = open_problem_js(sel);
    b.eval(js.as_str());
    let ready = content_ready_js(sel);
    b.wait_fn(ready.as_str(), 30000);
    assert(b@ =~= start + page_prelude(page_url@, sel@));
}

fn add_tail(b: &mut BatchBuilder, sel: &str)
    ensures
        final(b)@ == old(b)@ + submit_tail(sel@),
{
    let ghost start = b@;
    let s1 = suppress_dialogs_js();
    b.eval(s1.as_str());
    let s2 = install_xhr_monitor_js();
    b.eval(s2.as_str());
    let s3 = click_submit_js(sel);
    b.eval(s3.as_str());
    let s4 = wait_xhr_idle_js();
    b.wait_fn(s4.as_str(), 30000);
    let mut close: Vec<String> = Vec::new();
    close.push(String::from_str("close"));
    assert(args_view(close@) =~= seq!["close"@]);
    b.push(close);
    assert(b@ =~= start + submit_tail(sel@));
}

/// Commands that open the assignment page, fill each answer field and submit.
pub fn submit_answer_batch(page_url: &str, urlprefix: &str, answers: &Vec<(String, String)>) -> (r: BatchBuilder)
    ensures
        r@ == submit_answer_plan(page_url@, urlprefix@, answers_view(answers@)),
{
    let sel = make_container_selector(urlprefix);
    let mut b = BatchBuilder::new();
    add_prelude(&mut b, page_url, sel.as_str());
    let ghost mid = b@;
    let mut i: usize = 0;
    while i < answers.len()
        invariant
            i <= answers@.len(),
            sel@ == container_selector(urlprefix@),
            b@ == mid + fill_commands(sel@, answers_view(answers@).subrange(0, i as int)),
        decreases answers@.len() - i,
    {
        let js = fill_value_js(sel.as_str(), answers[i].0.as_str(), answers[i].1.as_str());
        b.eval(js.as_str());
        i = i + 1;
        assert(fill_commands(sel@, answers_view(answers@).subrange(0, i as int)) =~= fill_commands(
            sel@,
            answers_view(answers@).subrange(0, i - 1),
        ).push(seq!["eval"@, fill_value_script(sel@, answers@[i - 1].0@, answers@[i - 1].1@)]));
    }
    assert(answers_view(answers@).subrange(0, answers@.len() as int) =~= answers_view(answers@));
    add_tail(&mut b, sel.as_str());
    assert(b@ =~= submit_answer_plan(page_url@, urlprefix@, answers_view(answers@)));
    b
}

/// Commands that open the assignment page, attach `file` to field `pid` and submit.
/// `file` is the display form of the local path.
pub fn upload_file_batch(page_url: &str, urlprefix: &str, pid: &str, file: &str) -> (r: BatchBuilder)
    ensures
        r@ == upload_file_plan(page_url@, urlprefix@, pid@, file@),
{
    let sel = make_container_selector(urlprefix);
    let mut css = String::from_str(".problem-container[data-urlprefix=\"");
    css.append(urlprefix);
    css.append("\"] input[type=\"file\"][name=\"");
    css.append(pid);
    css.append("\"]");
    let mut b = BatchBuilder::new();
    add_prelude(&mut b, page_url, sel.as_str());
    let ghost mid = b@;
    let mut up: Vec<String> = Vec::new();
    up.push(String::from_str("upload"));
    up.push(css);
    up.push(String::from_str(file));
    assert(args_view(up@) =~= seq!["upload"@, file_input_selector(urlprefix@, pid@), file@]);
    b.push(up);
    add_tail(&mut b, sel.as_str());
    assert(b@ =~= upload_file_plan(page_url@, urlprefix@, pid@, file@));
    b
}

} // verus!

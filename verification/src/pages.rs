//! The browser batches that read pages, Google Slides and Google Drive, and the
//! checks applied to their results.
use vstd::prelude::*;
use crate::batch::{
    check_number_at, first_failure_within, final_url, find_failure, get_text_at, get_url_at,
    last_url, number_at, step_failed, step_failed_message, text_at, url_at, BatchBuilder, BatchOutcome, LoadKind,
    load_kind_token,
};
use crate::error::BrowserError;
use crate::slide_url::{build_slide_url, slide_url};
use crate::text::{decimal, decimal_pad3, pad3, seq_has_infix, str_contains, str_eq, u64_to_decimal};

verus! {

/// Holds once a Slides pubembed has drawn its first slide, loaded its web fonts and images.
pub const SLIDES_READY_JS: &'static str = "(function(){
if (typeof document === 'undefined' || !document.body) return false;
var svg = document.querySelector('.punch-viewer-svgpage-svgcontainer svg');
if (!svg) return false;
try {
  if (document.fonts && document.fonts.status !== 'loaded') return false;
} catch (e) { /* document.fonts may be unsupported */ }
var imgs = Array.from(document.images || []);
if (imgs.length > 0 && !imgs.every(function(i){return i.complete;})) return false;
return true;
})()";

/// Reads the total number of slides from the viewer (`n/m` counter, then `viewerInfo`).
pub const SLIDES_COUNT_JS: &'static str = "(function(){
var a11y = document.querySelector('.punch-viewer-svgpage-a11yelement');
if (a11y) {
  var m = (a11y.getAttribute('aria-label') || '').match(/(\\d+)\\s*\\/\\s*(\\d+)/);
  if (m) return parseInt(m[2], 10);
}
var els = document.querySelectorAll('[aria-label]');
for (var i = 0; i < els.length; i++) {
  var m2 = (els[i].getAttribute('aria-label') || '').match(/^[^\\d]*(\\d+)\\s*\\/\\s*(\\d+)/);
  if (m2) return parseInt(m2[2], 10);
}
if (typeof window.viewerInfo === 'object' && window.viewerInfo && Array.isArray(window.viewerInfo.slidesIds)) {
  return window.viewerInfo.slidesIds.length;
}
return 0;
})()";

/// Hides the viewer's navigation bar and branding before a screenshot.
pub const HIDE_NAVBAR_JS: &'static str = "(function(){
document.querySelectorAll('.punch-viewer-navbar, .punch-viewer-branding').forEach(function(e){ e.style.display = 'none'; });
return true;
})()";

/// Lists the rows of the Drive grid as a JSON string of `{id, name, tooltip, isFolder}`.
pub const DRIVE_EXTRACT_JS: &'static str = "(function(){
var rows = document.querySelectorAll('tr[role=\"row\"][data-id]');
return JSON.stringify(Array.from(rows).map(function(tr){
  var id = tr.getAttribute('data-id');
  var tt = tr.querySelector('[data-tooltip]');
  var tooltip = tt ? (tt.getAttribute('data-tooltip') || '') : '';
  var name = '';
  var s = tr.querySelector('strong.DNoYtb');
  if (s) { name = s.textContent; }
  else if (tt) {
    var s2 = tt.querySelector('strong');
    if (s2) { name = s2.textContent; }
  }
  var isFolder = /\u{30d5}\u{30a9}\u{30eb}\u{30c0}/.test(tooltip);
  return { id: id, name: name, tooltip: tooltip, isFolder: isFolder };
}));
})()";

/// Holds once the Drive grid shows rows, or its empty-folder notice.
pub const DRIVE_READY_JS: &'static str = "(function(){
if (document.querySelectorAll('tr[role=\"row\"][data-id]').length > 0) return true;
var main = document.querySelector('[role=\"main\"]');
if (!main) return false;
var t = (main.innerText || '').slice(0, 500);
return /\u{30d5}\u{30a1}\u{30a4}\u{30eb}\u{304c}\u{3042}\u{308a}\u{307e}\u{305b}\u{3093}|\u{3053}\u{3053}\u{306b}\u{30d5}\u{30a1}\u{30a4}\u{30eb}|\u{307e}\u{3060}\u{4f55}\u{3082}\u{3042}\u{308a}\u{307e}\u{305b}\u{3093}|\u{30a2}\u{30a4}\u{30c6}\u{30e0}\u{304c}\u{3042}\u{308a}\u{307e}\u{305b}\u{3093}|This folder is empty/.test(t);
})()";

/// Expression that holds once the document has finished loading.
pub const DOCUMENT_COMPLETE_JS: &'static str = "document.readyState === 'complete'";

/// Expression that yields the whole document as HTML.
pub const OUTER_HTML_JS: &'static str = "document.documentElement.outerHTML";

/// The last step landed on the Google sign-in host.
pub open spec fn redirected_to_sign_in(outs: Seq<BatchOutcome>) -> bool {
    seq_has_infix(last_url(outs), "accounts.google.com"@)
}

fn sign_in_redirect(outs: &Vec<BatchOutcome>) -> (r: bool)
    ensures
        r == redirected_to_sign_in(outs@),
{
    let u = final_url(outs);
    str_contains(u.as_str(), "accounts.google.com")
}

/// The `wait --fn <expr> --timeout 30000` command.
pub open spec fn wait_fn_30s(expr: Seq<char>) -> Seq<Seq<char>> {
    seq!["wait"@, "--fn"@, expr, "--timeout"@, decimal(30000)]
}

/// Open the embed, wait for it, read the slide count, read the final URL.
pub open spec fn count_slides_plan(embed_url: Seq<char>) -> Seq<Seq<Seq<char>>> {
    seq![
        seq!["open"@, embed_url],
        seq!["wait"@, "--load"@, load_kind_token(LoadKind::DomContentLoaded)],
        wait_fn_30s(SLIDES_READY_JS@),
        seq!["eval"@, SLIDES_COUNT_JS@],
        seq!["get"@, "url"@],
    ]
}

pub fn count_slides_batch(embed_url: &str) -> (r: BatchBuilder)
    ensures
        r@ == count_slides_plan(embed_url@),
{
    let mut b = BatchBuilder::new();
    b.open(embed_url);
    b.wait_load(LoadKind::DomContentLoaded);
    b.wait_fn(SLIDES_READY_JS, 30000);
    b.eval(SLIDES_COUNT_JS);
    b.get_url();
    assert(b@ =~= count_slides_plan(embed_url@));
    b
}

/// `result.result` of outcome `i`, when it is an unsigned number.
pub open spec fn count_reading(outs: Seq<BatchOutcome>, i: int) -> nat {
    match number_at(outs, i) {
        Some(n) => if n > u32::MAX { u32::MAX as nat } else { n as nat },
        None => 0,
    }
}

/// The outcome of reading the slide count: a sign-in redirect, then a failure among the
/// three loading steps, are errors; otherwise the count read by the fourth step (0 when
/// missing), capped at `u32::MAX`.
pub fn count_slides_verdict(outs: &Vec<BatchOutcome>) -> (r: Result<u32, BrowserError>)
    ensures
        redirected_to_sign_in(outs@) ==> (r matches Err(BrowserError::CommandFailed(m))
            && m@ == "Slides navigation redirected to Google sign-in; session expired"@),
        !redirected_to_sign_in(outs@) ==> match first_failure_within(outs@, 3) {
            Some(i) => r matches Err(BrowserError::CommandFailed(m))
                && m@ == step_failed_message("count_slides: step "@, outs@[i]),
            None => r matches Ok(n) && n as nat == count_reading(outs@, 3),
        },
{
    if sign_in_redirect(outs) {
        return Err(BrowserError::CommandFailed(String::from_str(
            "Slides navigation redirected to Google sign-in; session expired",
        )));
    }
    match find_failure(outs, 3) {
        Some(i) => Err(step_failed("count_slides: step ", &outs[i])),
        None => {
            let n = check_number_at(outs, 3);
            match n {
                Some(v) => if v > u32::MAX as u64 { Ok(u32::MAX) } else { Ok(v as u32) },
                None => Ok(0),
            }
        },
    }
}

/// Set the viewport, open the slide, wait, hide the navigation bar, take the
/// screenshot into `dest`, read the final URL.
pub open spec fn screenshot_plan(embed_url: Seq<char>, n: nat, dest: Seq<char>) -> Seq<Seq<Seq<char>>> {
    seq![
        seq!["set"@, "viewport"@, decimal(1280), decimal(720)],
        seq!["open"@, slide_url(embed_url, n)],
        seq!["wait"@, "--load"@, load_kind_token(LoadKind::DomContentLoaded)],
        wait_fn_30s(SLIDES_READY_JS@),
        seq!["eval"@, HIDE_NAVBAR_JS@],
        seq!["screenshot"@, dest],
        seq!["get"@, "url"@],
    ]
}

/// `dest` is the display form of the PNG file to write.
pub fn screenshot_batch(embed_url: &str, slide_index: u32, dest: &str) -> (r: BatchBuilder)
    ensures
        r@ == screenshot_plan(embed_url@, slide_index as nat, dest@),
{
    let target = build_slide_url(embed_url, slide_index);
    let mut b = BatchBuilder::new();
    b.set_viewport(1280, 720);
    b.open(target.as_str());
    b.wait_load(LoadKind::DomContentLoaded);
    b.wait_fn(SLIDES_READY_JS, 30000);
    b.eval(HIDE_NAVBAR_JS);
    let mut shot: Vec<String> = Vec::new();
    shot.push(String::from_str("screenshot"));
    shot.push(String::from_str(dest));
    assert(crate::batch::args_view(shot@) =~= seq!["screenshot"@, dest@]);
    b.push(shot);
    b.get_url();
    assert(b@ =~= screenshot_plan(embed_url@, slide_index as nat, dest@));
    b
}

/// `"fetch_slide_screenshot(<n>)"`.
pub open spec fn screenshot_label(n: nat) -> Seq<char> {
    "fetch_slide_screenshot("@ + decimal(n) + ")"@
}

/// The outcome of one screenshot: a sign-in redirect, then any failed step, are errors.
pub fn screenshot_verdict(outs: &Vec<BatchOutcome>, slide_index: u32) -> (r: Result<(), BrowserError>)
    ensures
        redirected_to_sign_in(outs@) ==> (r matches Err(BrowserError::CommandFailed(m))
            && m@ == screenshot_label(slide_index as nat) + ": redirected to Google sign-in"@),
        !redirected_to_sign_in(outs@) ==> match first_failure_within(outs@, outs@.len() as int) {
            Some(i) => r matches Err(BrowserError::CommandFailed(m))
                && m@ == step_failed_message(screenshot_label(slide_index as nat) + ": step "@, outs@[i]),
            None => r is Ok,
        },
{
    let mut label = String::from_str("fetch_slide_screenshot(");
    let n = u64_to_decimal(slide_index as u64);
    label.append(n.as_str());
    label.append(")");
    if sign_in_redirect(outs) {
        label.append(": redirected to Google sign-in");
        return Err(BrowserError::CommandFailed(label));
    }
    match find_failure(outs, outs.len()) {
        Some(i) => {
            label.append(": step ");
            Err(step_failed(label.as_str(), &outs[i]))
        },
        None => Ok(()),
    }
}

/// `page_NNN.png` for the `n`-th slide.
pub open spec fn page_file_name(n: nat) -> Seq<char> {
    "page_"@ + pad3(decimal(n)) + ".png"@
}

/// The file names of all slides, `page_001.png` onwards; a count of zero is an error.
pub fn screenshot_file_names(total: u32) -> (r: Result<Vec<String>, BrowserError>)
    ensures
        total == 0 ==> (r matches Err(BrowserError::CommandFailed(m))
            && m@ == "slides: could not detect slide count (DOM structure may have changed)"@),
        total > 0 ==> (r matches Ok(v) && v@.len() == total
            && forall|i: int| 0 <= i < total ==> (#[trigger] v@[i])@ == page_file_name((i + 1) as nat)),
{
    if total == 0 {
        return Err(BrowserError::CommandFailed(String::from_str(
            "slides: could not detect slide count (DOM structure may have changed)",
        )));
    }
    let mut v: Vec<String> = Vec::new();
    let mut i: u32 = 0;
    while i < total
        invariant
            i <= total,
            v@.len() == i,
            forall|k: int| 0 <= k < i ==> (#[trigger] v@[k])@ == page_file_name((k + 1) as nat),
        decreases total - i,
    {
        let mut name = String::from_str("page_");
        let d = decimal_pad3(i as u64 + 1);
        name.append(d.as_str());
        name.append(".png");
        v.push(name);
        i = i + 1;
    }
    Ok(v)
}

/// The Drive page of a folder; `root` is My Drive.
pub open spec fn drive_folder_url(folder_id: Seq<char>) -> Seq<char> {
    if folder_id == "root"@ {
        "https://drive.google.com/drive/my-drive"@
    } else {
        "https://drive.google.com/drive/folders/"@ + folder_id
    }
}

pub fn drive_folder_page(folder_id: &str) -> (r: String)
    ensures
        r@ == drive_folder_url(folder_id@),
{
    if str_eq(folder_id, "root") {
        String::from_str("https://drive.google.com/drive/my-drive")
    } else {
        let mut s = String::from_str("https://drive.google.com/drive/folders/");
        s.append(folder_id);
        s
    }
}

/// Open the folder, wait for the grid, extract the rows, read the final URL.
pub open spec fn drive_listing_plan(folder_id: Seq<char>) -> Seq<Seq<Seq<char>>> {
    seq![
        seq!["open"@, drive_folder_url(folder_id)],
        seq!["wait"@, "--load"@, load_kind_token(LoadKind::DomContentLoaded)],
        wait_fn_30s(DRIVE_READY_JS@),
        seq!["eval"@, DRIVE_EXTRACT_JS@],
        seq!["get"@, "url"@],
    ]
}

pub fn drive_listing_batch(folder_id: &str) -> (r: BatchBuilder)
    ensures
        r@ == drive_listing_plan(folder_id@),
{
    let url = drive_folder_page(folder_id);
    let mut b = BatchBuilder::new();
    b.open(url.as_str());
    b.wait_load(LoadKind::DomContentLoaded);
    b.wait_fn(DRIVE_READY_JS, 30000);
    b.eval(DRIVE_EXTRACT_JS);
    b.get_url();
    assert(b@ =~= drive_listing_plan(folder_id@));
    b
}

/// The outcome of listing a folder: any failed step, then a sign-in redirect, are
/// errors; otherwise the JSON text returned by the extraction step.
pub fn drive_listing_verdict(outs: &Vec<BatchOutcome>) -> (r: Result<String, BrowserError>)
    ensures
        match first_failure_within(outs@, outs@.len() as int) {
            Some(i) => r matches Err(BrowserError::CommandFailed(m))
                && m@ == step_failed_message("list_drive_folder: step "@, outs@[i]),
            None => if redirected_to_sign_in(outs@) {
                r matches Err(BrowserError::CommandFailed(m))
                    && m@ == "Drive folder navigation redirected to Google sign-in; session expired"@
            } else {
                match text_at(outs@, 3) {
                    Some(t) => r matches Ok(s) && s@ == t,
                    None => r matches Err(BrowserError::Internal(m))
                        && m@ == "list_drive_folder: missing eval result"@,
                }
            },
        },
{
    if let Some(i) = find_failure(outs, outs.len()) {
        return Err(step_failed("list_drive_folder: step ", &outs[i]));
    }
    if sign_in_redirect(outs) {
        return Err(BrowserError::CommandFailed(String::from_str(
            "Drive folder navigation redirected to Google sign-in; session expired",
        )));
    }
    match get_text_at(outs, 3) {
        Some(t) => Ok(t),
        None => Err(BrowserError::Internal(String::from_str("list_drive_folder: missing eval result"))),
    }
}

/// Whether a Drive row is a folder.
#[derive(Debug, Clone, Copy, PartialEq, Eq, Structural)]
pub enum DriveItemKind {
    Folder,
    File,
}

/// One row of a Drive folder listing.
#[derive(Debug, Clone)]
pub struct DriveItem {
    pub id: String,
    pub name: String,
    pub kind: DriveItemKind,
    /// The raw `data-tooltip` (locale dependent), a hint for the file type.
    pub tooltip: String,
}

impl DriveItem {
    /// The item of one extracted row.
    pub fn from_row(id: String, name: String, tooltip: String, is_folder: bool) -> (r: Self)
        ensures
            r.id == id,
            r.name == name,
            r.tooltip == tooltip,
            r.kind == (if is_folder { DriveItemKind::Folder } else { DriveItemKind::File }),
    {
        DriveItem { id, name, kind: if is_folder { DriveItemKind::Folder } else { DriveItemKind::File }, tooltip }
    }
}

/// Open the page, wait for the document, read its HTML, read the final URL.
pub open spec fn fetch_page_plan(url: Seq<char>) -> Seq<Seq<Seq<char>>> {
    seq![
        seq!["open"@, url],
        wait_fn_30s(DOCUMENT_COMPLETE_JS@),
        seq!["eval"@, OUTER_HTML_JS@],
        seq!["get"@, "url"@],
    ]
}

pub fn fetch_page_batch(url: &str) -> (r: BatchBuilder)
    ensures
        r@ == fetch_page_plan(url@),
{
    let mut b = BatchBuilder::new();
    b.open(url);
    b.wait_fn(DOCUMENT_COMPLETE_JS, 30000);
    b.eval(OUTER_HTML_JS);
    b.get_url();
    assert(b@ =~= fetch_page_plan(url@));
    b
}

/// A fetched page: its full HTML and the URL after redirects.
#[derive(Debug, Clone)]
pub struct PageFetch {
    pub html: String,
    pub final_url: String,
}

/// The outcome of fetching a page: any failed step is an error; otherwise the HTML of
/// the third step and the URL of the fourth, each of which must be present.
pub fn fetch_page_verdict(outs: &Vec<BatchOutcome>) -> (r: Result<PageFetch, BrowserError>)
    ensures
        match first_failure_within(outs@, outs@.len() as int) {
            Some(i) => r matches Err(BrowserError::CommandFailed(m))
                && m@ == step_failed_message("fetch_page: command "@, outs@[i]),
            None => match (text_at(outs@, 2), url_at(outs@, 3)) {
                (Some(h), Some(u)) => r matches Ok(p) && p.html@ == h && p.final_url@ == u,
                (None, _) => r matches Err(BrowserError::Internal(m)) && m@ == "fetch_page: missing eval result"@,
                (Some(_), None) => r matches Err(BrowserError::Internal(m))
                    && m@ == "fetch_page: missing url result"@,
            },
        },
{
    if let Some(i) = find_failure(outs, outs.len()) {
        return Err(step_failed("fetch_page: command ", &outs[i]));
    }
    let html = match get_text_at(outs, 2) {
        Some(h) => h,
        None => return Err(BrowserError::Internal(String::from_str("fetch_page: missing eval result"))),
    };
    let final_url = match get_url_at(outs, 3) {
        Some(u) => u,
        None => return Err(BrowserError::Internal(String::from_str("fetch_page: missing url result"))),
    };
    Ok(PageFetch { html, final_url })
}

} // verus!

//! JavaScript snippets evaluated in the assignment page, and the quoting of
//! values spliced into them.
use vstd::prelude::*;
use crate::text::push_char;

verus! {

/// Lower-case hexadecimal digit for `d < 16`.
pub open spec fn hex_char(d: nat) -> char {
    if d == 0 { '0' } else if d == 1 { '1' } else if d == 2 { '2' } else if d == 3 { '3' }
    else if d == 4 { '4' } else if d == 5 { '5' } else if d == 6 { '6' } else if d == 7 { '7' }
    else if d == 8 { '8' } else if d == 9 { '9' } else if d == 10 { 'a' } else if d == 11 { 'b' }
    else if d == 12 { 'c' } else if d == 13 { 'd' } else if d == 14 { 'e' } else { 'f' }
}

/// How one character is written inside a double-quoted JavaScript string literal:
/// backslash, single and double quote, newline, carriage return and tab get their
/// short escapes,
/// other control characters become `\u00XX`, everything else stands for itself.
pub open spec fn js_escape_char(c: char) -> Seq<char> {
    if c == '\\' {
        seq!['\\', '\\']
    } else if c == '"' {
        seq!['\\', '"']
    } else if c == '\'' {
        seq!['\\', '\'']
    } else if c == '\n' {
        seq!['\\', 'n']
    } else if c == '\r' {
        seq!['\\', 'r']
    } else if c == '\t' {
        seq!['\\', 't']
    } else if (c as u32) < 0x20 {
        seq!['\\', 'u', '0', '0', hex_char((c as u32) as nat / 16), hex_char((c as u32) as nat % 16)]
    } else {
        seq![c]
    }
}

/// The escaped body of a string literal.
pub open spec fn js_escape(s: Seq<char>) -> Seq<char>
    decreases s.len(),
{
    if s.len() == 0 {
        Seq::empty()
    } else {
        js_escape(s.drop_last()) + js_escape_char(s.last())
    }
}

/// A double-quoted JavaScript string literal denoting `s`.
pub open spec fn js_literal(s: Seq<char>) -> Seq<char> {
    seq!['"'] + js_escape(s) + seq!['"']
}

fn hex_digit(d: u32) -> (c: char)
    requires
        d < 16,
    ensures
        c == hex_char(d as nat),
{
    if d == 0 { '0' } else if d == 1 { '1' } else if d == 2 { '2' } else if d == 3 { '3' }
    else if d == 4 { '4' } else if d == 5 { '5' } else if d == 6 { '6' } else if d == 7 { '7' }
    else if d == 8 { '8' } else if d == 9 { '9' } else if d == 10 { 'a' } else if d == 11 { 'b' }
    else if d == 12 { 'c' } else if d == 13 { 'd' } else if d == 14 { 'e' } else { 'f' }
}

fn push_escaped(out: &mut String, c: char)
    ensures
        final(out)@ == old(out)@ + js_escape_char(c),
{
    let ghost before = out@;
    if c == '\\' {
        push_char(out, '\\');
        push_char(out, '\\');
    } else if c == '"' {
        push_char(out, '\\');
        push_char(out, '"');
    } else if c == '\'' {
        push_char(out, '\\');
        push_char(out, '\'');
    } else if c == '\n' {
        push_char(out, '\\');
        push_char(out, 'n');
    } else if c == '\r' {
        push_char(out, '\\');
        push_char(out, 'r');
    } else if c == '\t' {
        push_char(out, '\\');
        push_char(out, 't');
    } else if (c as u32) < 0x20 {
        let v = c as u32;
        push_char(out, '\\');
        push_char(out, 'u');
        push_char(out, '0');
        push_char(out, '0');
        push_char(out, hex_digit(v / 16));
        push_char(out, hex_digit(v % 16));
    } else {
        push_char(out, c);
    }
    assert(out@ =~= before + js_escape_char(c));
}

/// Builds a double-quoted JavaScript string literal for `s`.
pub fn js_string(s: &str) -> (r: String)
    ensures
        r@ == js_literal(s@),
{
    let n = s.unicode_len();
    let mut out = String::new();
    push_char(&mut out, '"');
    let mut i: usize = 0;
    while i < n
        invariant
            n == s@.len(),
            i <= n,
            out@ == seq!['"'] + js_escape(s@.subrange(0, i as int)),
        decreases n - i,
    {
        let c = s.get_char(i);
        push_escaped(&mut out, c);
        proof {
            let sub = s@.subrange(0, i + 1);
            assert(sub.drop_last() =~= s@.subrange(0, i as int));
            assert(sub.last() == c);
        }
        i = i + 1;
        assert(out@ =~= seq!['"'] + js_escape(s@.subrange(0, i as int)));
    }
    assert(s@.subrange(0, n as int) =~= s@);
    push_char(&mut out, '"');
    assert(out@ =~= js_literal(s@));
    out
}

/// `prefix`, then the literal for `value`, then `suffix`.
fn wrap_literal(prefix: &str, value: &str, suffix: &str) -> (r: String)
    ensures
        r@ == prefix@ + js_literal(value@) + suffix@,
{
    let mut out = String::from_str(prefix);
    let lit = js_string(value);
    out.append(lit.as_str());
    out.append(suffix);
    out
}

/// Replaces `window.alert` and `window.confirm` by auto-accepting stubs so that
/// a confirmation dialog cannot hang the headless browser.
pub open spec fn suppress_dialogs_script() -> Seq<char> {
    "window.alert=function(){};window.confirm=function(){return true;};1"@
}

pub fn suppress_dialogs_js() -> (r: String)
    ensures
        r@ == suppress_dialogs_script(),
{
    String::from_str("window.alert=function(){};window.confirm=function(){return true;};1")
}

/// Hooks `XMLHttpRequest` and `fetch` to count requests in flight and record the
/// time the last one finished (`window.__moocsActiveReqs` / `window.__moocsLastFinish`);
/// installing it twice is a no-op.
pub open spec fn xhr_monitor_script() -> Seq<char> {
    "(function(){if(window.__moocsActiveReqs!==undefined)return;window.__moocsActiveReqs=0;window.__moocsLastFinish=0;var origSend=XMLHttpRequest.prototype.send;XMLHttpRequest.prototype.send=function(){window.__moocsActiveReqs++;this.addEventListener('loadend',function(){window.__moocsActiveReqs--;window.__moocsLastFinish=Date.now();});return origSend.apply(this,arguments);};if(window.fetch){var origFetch=window.fetch;window.fetch=function(){window.__moocsActiveReqs++;return origFetch.apply(this,arguments).finally(function(){window.__moocsActiveReqs--;window.__moocsLastFinish=Date.now();});};}})();1"@
}

pub fn install_xhr_monitor_js() -> (r: String)
    ensures
        r@ == xhr_monitor_script(),
{
    String::from_str("(function(){if(window.__moocsActiveReqs!==undefined)return;window.__moocsActiveReqs=0;window.__moocsLastFinish=0;var origSend=XMLHttpRequest.prototype.send;XMLHttpRequest.prototype.send=function(){window.__moocsActiveReqs++;this.addEventListener('loadend',function(){window.__moocsActiveReqs--;window.__moocsLastFinish=Date.now();});return origSend.apply(this,arguments);};if(window.fetch){var origFetch=window.fetch;window.fetch=function(){window.__moocsActiveReqs++;return origFetch.apply(this,arguments).finally(function(){window.__moocsActiveReqs--;window.__moocsLastFinish=Date.now();});};}})();1")
}

/// True once no request is in flight and the last one finished more than 200 ms ago;
/// false while the monitor is not installed.
pub open spec fn xhr_idle_script() -> Seq<char> {
    "(function(){if(typeof window.__moocsActiveReqs==='undefined')return false;if(window.__moocsActiveReqs>0)return false;var lf=window.__moocsLastFinish||0;return lf>0&&(Date.now()-lf>200);})()"@
}

pub fn wait_xhr_idle_js() -> (r: String)
    ensures
        r@ == xhr_idle_script(),
{
    String::from_str("(function(){if(typeof window.__moocsActiveReqs==='undefined')return false;if(window.__moocsActiveReqs>0)return false;var lf=window.__moocsLastFinish||0;return lf>0&&(Date.now()-lf>200);})()")
}

/// Clicks the container's visible `button.start-answer`, if any.
pub open spec fn open_problem_script(sel: Seq<char>) -> Seq<char> {
    "(function(){var c=document.querySelector("@ + js_literal(sel)
        + ");if(!c)return;var b=c.querySelector('button.start-answer');if(b&&b.offsetParent!==null){b.click();}})();1"@
}

pub fn open_problem_js(container_sel: &str) -> (r: String)
    ensures
        r@ == open_problem_script(container_sel@),
{
    wrap_literal(
        "(function(){var c=document.querySelector(",
        container_sel,
        ");if(!c)return;var b=c.querySelector('button.start-answer');if(b&&b.offsetParent!==null){b.click();}})();1",
    )
}

/// True once the container's `.problem-contentpage` is displayed.
pub open spec fn content_ready_script(sel: Seq<char>) -> Seq<char> {
    "(function(){var c=document.querySelector("@ + js_literal(sel)
        + ");if(!c)return false;var pp=c.querySelector('.problem-contentpage');return pp && pp.offsetParent !== null;})()"@
}

pub fn content_ready_js(container_sel: &str) -> (r: String)
    ensures
        r@ == content_ready_script(container_sel@),
{
    wrap_literal(
        "(function(){var c=document.querySelector(",
        container_sel,
        ");if(!c)return false;var pp=c.querySelector('.problem-contentpage');return pp && pp.offsetParent !== null;})()",
    )
}

/// Sets `textarea[name=<pid>]` (or `input[type="text"][name=<pid>]`) inside the
/// container to `value` and fires `input` and `change` events.
pub open spec fn fill_value_script(sel: Seq<char>, pid: Seq<char>, value: Seq<char>) -> Seq<char> {
    "(function(){var c=document.querySelector("@ + js_literal(sel) + ");if(!c)return;var pid="@
        + js_literal(pid)
        + ";var el=c.querySelector('textarea[name=\"'+pid+'\"]')||c.querySelector('input[type=\"text\"][name=\"'+pid+'\"]');if(!el)return;el.value="@
        + js_literal(value)
        + ";el.dispatchEvent(new Event('input',{bubbles:true}));el.dispatchEvent(new Event('change',{bubbles:true}));})();1"@
}

pub fn fill_value_js(container_sel: &str, pid: &str, value: &str) -> (r: String)
    ensures
        r@ == fill_value_script(container_sel@, pid@, value@),
{
    let mut out = wrap_literal(
        "(function(){var c=document.querySelector(",
        container_sel,
        ");if(!c)return;var pid=",
    );
    let p = js_string(pid);
    out.append(p.as_str());
    out.append(
        ";var el=c.querySelector('textarea[name=\"'+pid+'\"]')||c.querySelector('input[type=\"text\"][name=\"'+pid+'\"]');if(!el)return;el.value=",
    );
    let v = js_string(value);
    out.append(v.as_str());
    out.append(
        ";el.dispatchEvent(new Event('input',{bubbles:true}));el.dispatchEvent(new Event('change',{bubbles:true}));})();1",
    );
    out
}

/// Clicks the container's `button.submit-answer`, if any.
pub open spec fn click_submit_script(sel: Seq<char>) -> Seq<char> {
    "(function(){var c=document.querySelector("@ + js_literal(sel)
        + ");if(!c)return;var b=c.querySelector('button.submit-answer');if(b){b.click();}})();1"@
}

pub fn click_submit_js(container_sel: &str) -> (r: String)
    ensures
        r@ == click_submit_script(container_sel@),
{
    wrap_literal(
        "(function(){var c=document.querySelector(",
        container_sel,
        ");if(!c)return;var b=c.querySelector('button.submit-answer');if(b){b.click();}})();1",
    )
}

/// The value of a hexadecimal digit.
pub open spec fn hex_value(c: char) -> Option<nat> {
    if '0' <= c && c <= '9' {
        Some((c as u32 - '0' as u32) as nat)
    } else if 'a' <= c && c <= 'f' {
        Some((c as u32 - 'a' as u32 + 10) as nat)
    } else if 'A' <= c && c <= 'F' {
        Some((c as u32 - 'A' as u32 + 10) as nat)
    } else {
        None
    }
}

/// The character a JavaScript engine reads for the escape `\<e>`, for the short
/// escapes that `js_escape_char` writes.
pub open spec fn short_escape(e: char) -> Option<char> {
    if e == '\\' {
        Some('\\')
    } else if e == '"' {
        Some('"')
    } else if e == '\'' {
        Some('\'')
    } else if e == 'n' {
        Some('\n')
    } else if e == 'r' {
        Some('\r')
    } else if e == 't' {
        Some('\t')
    } else {
        None
    }
}

/// The value of the four hexadecimal digits of a `\uXXXX` escape.
pub open spec fn hex4(t: Seq<char>) -> Option<nat>
    recommends
        t.len() == 4,
{
    match (hex_value(t[0]), hex_value(t[1]), hex_value(t[2]), hex_value(t[3])) {
        (Some(a), Some(b), Some(c), Some(d)) => Some(a * 4096 + b * 256 + c * 16 + d),
        _ => None,
    }
}

/// What a JavaScript engine reads from the body of a double-quoted string literal,
/// left to right, for the escapes `js_escape` uses: `None` where the literal would end
/// early (a bare `"`), break across lines (a bare line break), or hold an escape outside
/// that set.
pub open spec fn js_unescape(t: Seq<char>) -> Option<Seq<char>>
    decreases t.len(),
{
    if t.len() == 0 {
        Some(Seq::empty())
    } else if t[0] == '\\' {
        if t.len() < 2 {
            None
        } else if t[1] == 'u' {
            if t.len() < 6 {
                None
            } else {
                match hex4(t.subrange(2, 6)) {
                    Some(v) => if v < 0xD800 {
                        match js_unescape(t.skip(6)) {
                            Some(rest) => Some(seq![v as char] + rest),
                            None => None,
                        }
                    } else {
                        None
                    },
                    None => None,
                }
            }
        } else {
            match short_escape(t[1]) {
                Some(c) => match js_unescape(t.skip(2)) {
                    Some(rest) => Some(seq![c] + rest),
                    None => None,
                },
                None => None,
            }
        }
    } else if t[0] == '"' || t[0] == '\n' || t[0] == '\r' {
        None
    } else {
        match js_unescape(t.skip(1)) {
            Some(rest) => Some(seq![t[0]] + rest),
            None => None,
        }
    }
}

/// `js_escape`, read from the front.
proof fn lemma_js_escape_front(s: Seq<char>)
    requires
        s.len() > 0,
    ensures
        js_escape(s) == js_escape_char(s[0]) + js_escape(s.skip(1)),
    decreases s.len(),
{
    if s.len() == 1 {
        assert(s.drop_last() =~= Seq::<char>::empty());
        assert(s.skip(1) =~= Seq::<char>::empty());
        assert(js_escape(s.drop_last()) =~= Seq::<char>::empty());
        assert(js_escape(s) =~= js_escape_char(s[0]));
    } else {
        lemma_js_escape_front(s.drop_last());
        assert(s.drop_last().skip(1) =~= s.skip(1).drop_last());
        assert(s.skip(1).last() == s.last());
        assert(s.drop_last()[0] == s[0]);
    }
}

proof fn lemma_hex_round_trip(d: nat)
    requires
        d < 16,
    ensures
        hex_value(hex_char(d)) == Some(d),
{
}

/// Reading one escaped character in front of more text.
proof fn lemma_unescape_char(c: char, rest: Seq<char>)
    ensures
        js_unescape(js_escape_char(c) + rest) == match js_unescape(rest) {
            Some(r) => Some(seq![c] + r),
            None => None::<Seq<char>>,
        },
{
    let t = js_escape_char(c) + rest;
    if c == '\\' || c == '"' || c == '\'' || c == '\n' || c == '\r' || c == '\t' {
        assert(t.skip(2) =~= rest);
    } else if (c as u32) < 0x20 {
        let v = c as u32;
        lemma_hex_round_trip(v as nat / 16);
        lemma_hex_round_trip(v as nat % 16);
        assert(t.subrange(2, 6) =~= seq!['0', '0', hex_char(v as nat / 16), hex_char(v as nat % 16)]);
        assert(t.skip(6) =~= rest);
        assert(hex4(t.subrange(2, 6)) == Some(v as nat)) by (nonlinear_arith)
            requires
                hex4(t.subrange(2, 6)) == Some(0nat * 4096 + 0nat * 256 + (v as nat / 16) * 16 + v as nat % 16),
        ;
        assert((v as nat) as char == c);
    } else {
        assert(t[0] == c);
        assert(t.skip(1) =~= rest);
    }
}

/// What `js_string` writes reads back as the text it was given: the literal is one
/// JavaScript string token, it denotes exactly `s`, and it holds no control character.
pub proof fn lemma_js_literal_round_trip(s: Seq<char>)
    ensures
        js_literal(s)[0] == '"',
        js_literal(s).last() == '"',
        js_unescape(js_literal(s).subrange(1, js_literal(s).len() - 1)) == Some(s),
        forall|i: int| 0 <= i < js_literal(s).len() ==> (#[trigger] js_literal(s)[i] as u32) >= 0x20,
    decreases s.len(),
{
    let lit = js_literal(s);
    assert(lit.subrange(1, lit.len() - 1) =~= js_escape(s));
    lemma_js_unescape_escape(s);
    lemma_js_escape_printable(s);
    assert forall|i: int| 0 <= i < lit.len() implies (#[trigger] lit[i] as u32) >= 0x20 by {
        if 0 < i < lit.len() - 1 {
            assert(lit[i] == js_escape(s)[i - 1]);
        }
    }
}

/// No character that `js_escape_char` writes is a control character.
proof fn lemma_escape_char_printable(c: char)
    ensures
        forall|i: int| 0 <= i < js_escape_char(c).len() ==> (#[trigger] js_escape_char(c)[i] as u32) >= 0x20,
{
    if !(c == '\\' || c == '"' || c == '\'' || c == '\n' || c == '\r' || c == '\t') && (c as u32) < 0x20 {
        let v = c as u32;
        assert(v as nat / 16 < 16);
        assert(v as nat % 16 < 16);
    }
}

/// No character of `js_escape(s)` is a control character.
proof fn lemma_js_escape_printable(s: Seq<char>)
    ensures
        forall|i: int| 0 <= i < js_escape(s).len() ==> (#[trigger] js_escape(s)[i] as u32) >= 0x20,
    decreases s.len(),
{
    if s.len() > 0 {
        lemma_js_escape_printable(s.drop_last());
        lemma_escape_char_printable(s.last());
        let a = js_escape(s.drop_last());
        let b = js_escape_char(s.last());
        assert forall|i: int| 0 <= i < js_escape(s).len() implies (#[trigger] js_escape(s)[i] as u32) >= 0x20 by {
            if i < a.len() {
                assert(js_escape(s)[i] == a[i]);
            } else {
                assert(js_escape(s)[i] == b[i - a.len()]);
            }
        }
    }
}

proof fn lemma_js_unescape_escape(s: Seq<char>)
    ensures
        js_unescape(js_escape(s)) == Some(s),
    decreases s.len(),
{
    if s.len() == 0 {
        assert(js_escape(s) =~= Seq::<char>::empty());
    } else {
        lemma_js_escape_front(s);
        lemma_js_unescape_escape(s.skip(1));
        lemma_unescape_char(s[0], js_escape(s.skip(1)));
        assert(seq![s[0]] + s.skip(1) =~= s);
    }
}

} // verus!

//! Reading the tool request out of a model reply.
//!
//! A reply may ask for one tool by a tag: `<execute>`, `<browse>`,
//! `<capture_screen>`, `<write_file path="…">`, `<delete_file path="…">`,
//! `<edit_file path="…" mode="…">` or `<patch>`. The first that applies, in
//! that order, is the action; a reply with none is the final answer.
//! Positions are byte offsets into the reply's UTF-8 encoding.

use crate::text::{
    contains, find, find_bytes_from, find_from, lemma_find_contains, lemma_find_from, matches_at,
    owned, push_str, trim, trim_str,
};
use vstd::prelude::*;
use vstd::string::StringSliceAdditionalSpecFns;
use vstd::utf8::{
    decode_utf8, encode_utf8, encode_utf8_decode_utf8, encode_utf8_valid_utf8, is_ascii_chars,
    is_ascii_chars_encode_utf8, is_ascii_chars_nat_bound, is_char_boundary,
    is_char_boundary_iff_not_is_continuation_byte, is_char_boundary_start_end_of_seq,
    is_continuation_byte, valid_utf8, valid_utf8_split,
};

verus! {

/// A tool request read from a reply.
#[derive(Debug)]
pub enum AgentAction {
    /// Run a shell command.
    Execute(String),
    /// Open a URL in the browser.
    Browse(String),
    /// Take a screenshot.
    CaptureScreen,
    /// Write `content` to `path`.
    WriteFile { path: String, content: String },
    /// Delete `path`.
    DeleteFile(String),
    /// Edit `path` in `mode` with `content`.
    EditFile { path: String, mode: String, content: String },
    /// Apply a self-modification patch.
    Patch(String),
    /// No tool: the reply is the answer.
    Done,
}

/// The content of an action.
pub enum ActionView {
    Execute(Seq<char>),
    Browse(Seq<char>),
    CaptureScreen,
    WriteFile(Seq<char>, Seq<char>),
    DeleteFile(Seq<char>),
    EditFile(Seq<char>, Seq<char>, Seq<char>),
    Patch(Seq<char>),
    Done,
}

impl View for AgentAction {
    type V = ActionView;

    open spec fn view(&self) -> ActionView {
        match self {
            AgentAction::Execute(c) => ActionView::Execute(c@),
            AgentAction::Browse(u) => ActionView::Browse(u@),
            AgentAction::CaptureScreen => ActionView::CaptureScreen,
            AgentAction::WriteFile { path, content } => ActionView::WriteFile(path@, content@),
            AgentAction::DeleteFile(p) => ActionView::DeleteFile(p@),
            AgentAction::EditFile { path, mode, content } => ActionView::EditFile(
                path@,
                mode@,
                content@,
            ),
            AgentAction::Patch(p) => ActionView::Patch(p@),
            AgentAction::Done => ActionView::Done,
        }
    }
}

/// The text of the bytes `[x, y)` of a reply.
pub open spec fn text_at(b: Seq<u8>, x: int, y: int) -> Seq<char> {
    decode_utf8(b.subrange(x, y))
}

/// The span between the first opening tag and the first closing tag, when
/// the opening one comes first.
pub open spec fn paired(b: Seq<u8>, open: Seq<u8>, close: Seq<u8>) -> Option<(int, int)> {
    match find(b, open) {
        Some(s) => match find(b, close) {
            Some(e) => if s < e {
                Some((s + open.len(), e))
            } else {
                None
            },
            None => None,
        },
        None => None,
    }
}

/// A write request at `s`: the path runs to `">`, the content (trimmed) to
/// `</write_file>`.
pub open spec fn write_action(b: Seq<u8>, s: int) -> Option<ActionView> {
    let ps = s + "<write_file path=\"".spec_bytes().len();
    match find_from(b, "\">".spec_bytes(), ps) {
        None => None,
        Some(q) => {
            let cs = q + 2;
            match find_from(b, "</write_file>".spec_bytes(), cs) {
                None => None,
                Some(e) => Some(ActionView::WriteFile(text_at(b, ps, q), trim(text_at(b, cs, e)))),
            }
        },
    }
}

/// A delete request at `s`: the path runs to the next `"`.
pub open spec fn delete_action(b: Seq<u8>, s: int) -> Option<ActionView> {
    let ps = s + "<delete_file path=\"".spec_bytes().len();
    match find_from(b, "\"".spec_bytes(), ps) {
        None => None,
        Some(q) => Some(ActionView::DeleteFile(text_at(b, ps, q))),
    }
}

/// An edit request at `s`: the path runs to the next `"`; the mode starts
/// 8 bytes later (after ` mode="`) and runs to `">`; the content (as is)
/// runs to `</edit_file>`.
pub open spec fn edit_action(b: Seq<u8>, s: int) -> Option<ActionView> {
    let ps = s + "<edit_file path=\"".spec_bytes().len();
    match find_from(b, "\"".spec_bytes(), ps) {
        None => None,
        Some(q) => {
            let ms = q + 8;
            match find_from(b, "\">".spec_bytes(), ms) {
                None => None,
                Some(me) => {
                    let cs = me + 2;
                    match find_from(b, "</edit_file>".spec_bytes(), cs) {
                        None => None,
                        Some(e) => Some(
                            ActionView::EditFile(
                                text_at(b, ps, q),
                                text_at(b, ms, me),
                                text_at(b, cs, e),
                            ),
                        ),
                    }
                },
            }
        },
    }
}

/// The file request: write if a write tag is there, else delete if a
/// delete tag is, else edit; `None` when the chosen one is incomplete.
pub open spec fn file_action(b: Seq<u8>) -> Option<ActionView> {
    match find(b, "<write_file path=\"".spec_bytes()) {
        Some(s) => write_action(b, s),
        None => match find(b, "<delete_file path=\"".spec_bytes()) {
            Some(s) => delete_action(b, s),
            None => match find(b, "<edit_file path=\"".spec_bytes()) {
                Some(s) => edit_action(b, s),
                None => None,
            },
        },
    }
}

/// The action a reply asks for.
pub open spec fn action_of(b: Seq<u8>) -> ActionView {
    match paired(b, "<execute>".spec_bytes(), "</execute>".spec_bytes()) {
        Some((x, y)) => ActionView::Execute(trim(text_at(b, x, y))),
        None => match paired(b, "<browse>".spec_bytes(), "</browse>".spec_bytes()) {
            Some((x, y)) => ActionView::Browse(trim(text_at(b, x, y))),
            None => if contains(b, "<capture_screen>".spec_bytes()) {
                ActionView::CaptureScreen
            } else {
                match file_action(b) {
                    Some(a) => a,
                    None => match paired(b, "<patch>".spec_bytes(), "</patch>".spec_bytes()) {
                        Some((x, y)) => ActionView::Patch(trim(text_at(b, x, y))),
                        None => ActionView::Done,
                    },
                }
            },
        },
    }
}

/// Reading the file request would cut the reply out of range or inside a
/// character: no write or delete tag, an edit tag whose path is closed, and
/// the mode's start (8 bytes past the quote) past the end or not on a
/// character boundary.
pub open spec fn file_panics(b: Seq<u8>) -> bool {
    &&& find(b, "<write_file path=\"".spec_bytes()) is None
    &&& find(b, "<delete_file path=\"".spec_bytes()) is None
    &&& find(b, "<edit_file path=\"".spec_bytes()) matches Some(s) && find_from(
        b,
        "\"".spec_bytes(),
        s + "<edit_file path=\"".spec_bytes().len(),
    ) matches Some(q) && !(q + 8 <= b.len() && is_char_boundary(b, q + 8))
}

/// The replies on which reading the request would cut the reply out of
/// range or inside a character: no earlier tool applies and the file
/// request would.
pub open spec fn action_panics(b: Seq<u8>) -> bool {
    &&& paired(b, "<execute>".spec_bytes(), "</execute>".spec_bytes()) is None
    &&& paired(b, "<browse>".spec_bytes(), "</browse>".spec_bytes()) is None
    &&& !contains(b, "<capture_screen>".spec_bytes())
    &&& file_panics(b)
}

// ── UTF-8 boundaries ─────────────────────────────────────────────────

/// An ASCII byte starts a character, and so does the byte after it.
proof fn lemma_ascii_boundary(b: Seq<u8>, i: int)
    requires
        valid_utf8(b),
        0 <= i < b.len(),
        b[i] < 128,
    ensures
        is_char_boundary(b, i),
        is_char_boundary(b, i + 1),
{
    is_char_boundary_iff_not_is_continuation_byte(b, i);
    let suffix = b.subrange(i, b.len() as int);
    valid_utf8_split(b, i);
    if i + 1 == b.len() {
        is_char_boundary_start_end_of_seq(b);
    } else {
        reveal_with_fuel(is_char_boundary, 2);
        assert(is_char_boundary(suffix, 1));
        is_char_boundary_iff_not_is_continuation_byte(suffix, 1);
        assert(suffix[1] == b[i + 1]);
        is_char_boundary_iff_not_is_continuation_byte(b, i + 1);
    }
}

/// A match of an ASCII pattern starts and ends on character boundaries.
proof fn lemma_match_boundaries(b: Seq<u8>, p: Seq<u8>, m: int)
    requires
        valid_utf8(b),
        matches_at(b, p, m),
        p.len() > 0,
        forall|i: int| 0 <= i < p.len() ==> p[i] < 128,
    ensures
        is_char_boundary(b, m),
        is_char_boundary(b, m + p.len()),
{
    assert(b[m] == b.subrange(m, m + p.len())[0]);
    lemma_ascii_boundary(b, m);
    let l = m + p.len() - 1;
    assert(b[l] == b.subrange(m, m + p.len())[p.len() - 1]);
    lemma_ascii_boundary(b, l);
}

/// The UTF-8 bytes of an ASCII text are its characters, all below 128.
proof fn lemma_ascii_tag(s: Seq<char>)
    requires
        is_ascii_chars(s),
    ensures
        encode_utf8(s).len() == s.len(),
        forall|i: int| 0 <= i < encode_utf8(s).len() ==> encode_utf8(s)[i] < 128,
{
    is_ascii_chars_encode_utf8(s);
    is_ascii_chars_nat_bound(s);
    assert forall|i: int| 0 <= i < encode_utf8(s).len() implies encode_utf8(s)[i] < 128 by {
        let c = s[i];
        assert((c as nat) < 128);
        assert(c as u8 == encode_utf8(s)[i]);
        assert((c as u32) < 128);
        let u = c as u32;
        assert(u < 128 ==> (u as u8) < 128) by (bit_vector);
    }
}

/// Two ASCII tags whose closing one starts with a character that the
/// opening one holds only at its start: the same in bytes.
proof fn lemma_tags_apart(open: Seq<char>, close: Seq<char>)
    requires
        is_ascii_chars(open),
        is_ascii_chars(close),
        close.len() > 0,
        forall|k: int| 1 <= k < open.len() ==> open[k] != close[0],
    ensures
        forall|k: int|
            1 <= k < encode_utf8(open).len() ==> encode_utf8(open)[k] != encode_utf8(close)[0],
{
    is_ascii_chars_encode_utf8(open);
    is_ascii_chars_encode_utf8(close);
    is_ascii_chars_nat_bound(open);
    is_ascii_chars_nat_bound(close);
    assert forall|k: int| 1 <= k < encode_utf8(open).len() implies encode_utf8(open)[k]
        != encode_utf8(close)[0] by {
        let a = open[k] as u32;
        let c = close[0] as u32;
        assert(a < 128 && c < 128);
        assert(open[k] != close[0]);
        assert(a != c);
        assert(a < 128 && c < 128 && a != c ==> (a as u8) != (c as u8)) by (bit_vector);
    }
}

/// A boundary of a text stays a boundary in any prefix that reaches it.
proof fn lemma_prefix_boundary(b: Seq<u8>, y: int, x: int)
    requires
        valid_utf8(b),
        0 <= x <= y <= b.len(),
        is_char_boundary(b, y),
        is_char_boundary(b, x),
    ensures
        valid_utf8(b.subrange(0, y)),
        is_char_boundary(b.subrange(0, y), x),
{
    let pre = b.subrange(0, y);
    valid_utf8_split(b, y);
    if x == 0 {
    } else if x == y {
        is_char_boundary_start_end_of_seq(pre);
    } else {
        is_char_boundary_iff_not_is_continuation_byte(b, x);
        is_char_boundary_iff_not_is_continuation_byte(pre, x);
    }
}

/// The bytes `[x, y)` of `s`, both on character boundaries.
fn substring(s: &str, x: usize, y: usize) -> (t: &str)
    requires
        x <= y <= s.spec_bytes().len(),
        is_char_boundary(s.spec_bytes(), x as int),
        is_char_boundary(s.spec_bytes(), y as int),
    ensures
        t@ == text_at(s.spec_bytes(), x as int, y as int),
{
    let ghost b = s.spec_bytes();
    proof {
        encode_utf8_valid_utf8(s@);
        lemma_prefix_boundary(b, y as int, x as int);
    }
    let (head, _) = s.split_at(y);
    let (_, mid) = head.split_at(x);
    proof {
        assert(mid.spec_bytes() =~= b.subrange(x as int, y as int));
        encode_utf8_decode_utf8(mid@);
    }
    mid
}

// ── Reading the reply ────────────────────────────────────────────────

/// The span between an opening and a closing tag, if any.
fn paired_exec(b: &[u8], open: &[u8], close: &[u8]) -> (r: Option<(usize, usize)>)
    ensures
        match r {
            Some((x, y)) => paired(b@, open@, close@) == Some((x as int, y as int)),
            None => paired(b@, open@, close@) is None,
        },
{
    proof {
        lemma_find_from(b@, open@, 0);
    }
    match find_bytes_from(b, open, 0) {
        None => None,
        Some(s) => match find_bytes_from(b, close, 0) {
            None => None,
            Some(e) => {
                let blen = b.len();
                assert(s + open@.len() <= blen);
                if s < e {
                    Some((s + open.len(), e))
                } else {
                    None
                }
            },
        },
    }
}

/// Whether reading `resp` would cut it out of range or inside a character.
pub fn response_is_malformed(resp: &str) -> (m: bool)
    ensures
        m == action_panics(resp.spec_bytes()),
{
    let b = resp.as_bytes();
    let ghost bs = b@;
    proof {
        lemma_find_contains(bs, "<capture_screen>".spec_bytes());
        lemma_find_from(bs, "<edit_file path=\"".spec_bytes(), 0);
    }
    if paired_exec(b, "<execute>".as_bytes(), "</execute>".as_bytes()).is_some() {
        return false;
    }
    if paired_exec(b, "<browse>".as_bytes(), "</browse>".as_bytes()).is_some() {
        return false;
    }
    if find_bytes_from(b, "<capture_screen>".as_bytes(), 0).is_some() {
        return false;
    }
    if find_bytes_from(b, "<write_file path=\"".as_bytes(), 0).is_some() {
        return false;
    }
    if find_bytes_from(b, "<delete_file path=\"".as_bytes(), 0).is_some() {
        return false;
    }
    let tag = "<edit_file path=\"".as_bytes();
    match find_bytes_from(b, tag, 0) {
        None => false,
        Some(s) => {
            let blen = b.len();
            assert(s + tag@.len() <= blen);
            let ps = s + tag.len();
            match find_bytes_from(b, "\"".as_bytes(), ps) {
                None => false,
                Some(q) => {
                    if q > b.len() || b.len() - q < 8 {
                        true
                    } else {
                        !resp.is_char_boundary(q + 8)
                    }
                },
            }
        },
    }
}

/// The trimmed text between an opening and a closing ASCII tag.
fn paired_text(resp: &str, open: &str, close: &str) -> (r: Option<String>)
    requires
        is_ascii_chars(open@),
        is_ascii_chars(close@),
        open@.len() > 0,
        close@.len() > 0,
        forall|k: int|
            1 <= k < open.spec_bytes().len() ==> open.spec_bytes()[k] != close.spec_bytes()[0],
    ensures
        match r {
            Some(t) => paired(resp.spec_bytes(), open.spec_bytes(), close.spec_bytes()) matches Some(
                (x, y),
            ) && t@ == trim(text_at(resp.spec_bytes(), x, y)),
            None => paired(resp.spec_bytes(), open.spec_bytes(), close.spec_bytes()) is None,
        },
{
    let b = resp.as_bytes();
    let ob = open.as_bytes();
    let cb = close.as_bytes();
    let ghost bs = b@;
    proof {
        encode_utf8_valid_utf8(resp@);
        lemma_ascii_tag(open@);
        lemma_ascii_tag(close@);
        lemma_find_from(bs, ob@, 0);
        lemma_find_from(bs, cb@, 0);
    }
    match paired_exec(b, ob, cb) {
        None => None,
        Some((x, y)) => {
            proof {
                let s0 = x - ob@.len();
                lemma_match_boundaries(bs, ob@, s0);
                lemma_match_boundaries(bs, cb@, y as int);
                if y < x {
                    assert(bs[y as int] == bs.subrange(y as int, y + cb@.len())[0]);
                    assert(bs[y as int] == bs.subrange(s0, s0 + ob@.len())[y - s0]);
                }
            }
            let t = substring(resp, x, y);
            Some(trim_str(t))
        },
    }
}

/// The file request of a reply, when it does not cut the reply badly.
fn file_action_exec(resp: &str) -> (r: Option<AgentAction>)
    requires
        !file_panics(resp.spec_bytes()),
    ensures
        match r {
            Some(a) => file_action(resp.spec_bytes()) == Some(a@),
            None => file_action(resp.spec_bytes()) is None,
        },
{
    let b = resp.as_bytes();
    let ghost bs = b@;
    let wt = "<write_file path=\"";
    let dt = "<delete_file path=\"";
    let et = "<edit_file path=\"";
    let gt = "\">";
    let qt = "\"";
    let wc = "</write_file>";
    let ec = "</edit_file>";
    proof {
        encode_utf8_valid_utf8(resp@);
        reveal_strlit("<write_file path=\"");
        reveal_strlit("<delete_file path=\"");
        reveal_strlit("<edit_file path=\"");
        reveal_strlit("\">");
        reveal_strlit("\"");
        reveal_strlit("</write_file>");
        reveal_strlit("</edit_file>");
        lemma_ascii_tag(wt@);
        lemma_ascii_tag(dt@);
        lemma_ascii_tag(et@);
        lemma_ascii_tag(gt@);
        lemma_ascii_tag(qt@);
        lemma_ascii_tag(wc@);
        lemma_ascii_tag(ec@);
        lemma_find_from(bs, wt.spec_bytes(), 0);
        lemma_find_from(bs, dt.spec_bytes(), 0);
        lemma_find_from(bs, et.spec_bytes(), 0);
    }
    let blen = b.len();
    match find_bytes_from(b, wt.as_bytes(), 0) {
        Some(s) => {
            let ps = s + wt.as_bytes().len();
            proof {
                lemma_match_boundaries(bs, wt.spec_bytes(), s as int);
                lemma_find_from(bs, gt.spec_bytes(), ps as int);
            }
            match find_bytes_from(b, gt.as_bytes(), ps) {
                None => None,
                Some(q) => {
                    let cs = q + 2;
                    proof {
                        lemma_match_boundaries(bs, gt.spec_bytes(), q as int);
                        lemma_find_from(bs, wc.spec_bytes(), cs as int);
                    }
                    match find_bytes_from(b, wc.as_bytes(), cs) {
                        None => None,
                        Some(e) => {
                            proof {
                                lemma_match_boundaries(bs, wc.spec_bytes(), e as int);
                            }
                            let path = owned(substring(resp, ps, q));
                            let content = trim_str(substring(resp, cs, e));
                            Some(AgentAction::WriteFile { path, content })
                        },
                    }
                },
            }
        },
        None => match find_bytes_from(b, dt.as_bytes(), 0) {
            Some(s) => {
                let ps = s + dt.as_bytes().len();
                proof {
                    lemma_match_boundaries(bs, dt.spec_bytes(), s as int);
                    lemma_find_from(bs, qt.spec_bytes(), ps as int);
                }
                match find_bytes_from(b, qt.as_bytes(), ps) {
                    None => None,
                    Some(q) => {
                        proof {
                            lemma_match_boundaries(bs, qt.spec_bytes(), q as int);
                        }
                        Some(AgentAction::DeleteFile(owned(substring(resp, ps, q))))
                    },
                }
            },
            None => match find_bytes_from(b, et.as_bytes(), 0) {
                None => None,
                Some(s) => {
                    let ps = s + et.as_bytes().len();
                    proof {
                        lemma_match_boundaries(bs, et.spec_bytes(), s as int);
                        lemma_find_from(bs, qt.spec_bytes(), ps as int);
                    }
                    match find_bytes_from(b, qt.as_bytes(), ps) {
                        None => None,
                        Some(q) => {
                            proof {
                                lemma_match_boundaries(bs, qt.spec_bytes(), q as int);
                            }
                            let ms = q + 8;
                            proof {
                                lemma_find_from(bs, gt.spec_bytes(), ms as int);
                            }
                            match find_bytes_from(b, gt.as_bytes(), ms) {
                                None => None,
                                Some(me) => {
                                    let cs = me + 2;
                                    proof {
                                        lemma_match_boundaries(bs, gt.spec_bytes(), me as int);
                                        lemma_find_from(bs, ec.spec_bytes(), cs as int);
                                    }
                                    match find_bytes_from(b, ec.as_bytes(), cs) {
                                        None => None,
                                        Some(e) => {
                                            proof {
                                                lemma_match_boundaries(bs, ec.spec_bytes(), e as int);
                                            }
                                            let path = owned(substring(resp, ps, q));
                                            let mode = owned(substring(resp, ms, me));
                                            let content = owned(substring(resp, cs, e));
                                            Some(AgentAction::EditFile { path, mode, content })
                                        },
                                    }
                                },
                            }
                        },
                    }
                },
            },
        },
    }
}

/// The tool request of a model reply, or `Done` when it asks for none.
pub fn parse_action(resp: &str) -> (a: AgentAction)
    requires
        !action_panics(resp.spec_bytes()),
    ensures
        a@ == action_of(resp.spec_bytes()),
{
    proof {
        reveal_strlit("<execute>");
        reveal_strlit("</execute>");
        reveal_strlit("<browse>");
        reveal_strlit("</browse>");
        reveal_strlit("<patch>");
        reveal_strlit("</patch>");
        lemma_tags_apart("<execute>"@, "</execute>"@);
        lemma_tags_apart("<browse>"@, "</browse>"@);
        lemma_tags_apart("<patch>"@, "</patch>"@);
        lemma_find_contains(resp.spec_bytes(), "<capture_screen>".spec_bytes());
    }
    match paired_text(resp, "<execute>", "</execute>") {
        Some(cmd) => {
            return AgentAction::Execute(cmd);
        },
        None => {},
    }
    match paired_text(resp, "<browse>", "</browse>") {
        Some(url) => {
            return AgentAction::Browse(url);
        },
        None => {},
    }
    if find_bytes_from(resp.as_bytes(), "<capture_screen>".as_bytes(), 0).is_some() {
        return AgentAction::CaptureScreen;
    }
    match file_action_exec(resp) {
        Some(a) => {
            return a;
        },
        None => {},
    }
    match paired_text(resp, "<patch>", "</patch>") {
        Some(p) => AgentAction::Patch(p),
        None => AgentAction::Done,
    }
}

} // verus!

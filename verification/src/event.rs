//! The events the application reacts to and the work it hands to the HTTP
//! worker.
use vstd::prelude::*;

use crate::models::response::{ResponseData, ResponseView};
use crate::text::{decimal, push_decimal};
use vstd::utf8::{decode_utf8, valid_utf8};

verus! {

/// The keys the application distinguishes; every other key is `Other`.
#[derive(Debug, PartialEq, Eq, Structural, Clone, Copy)]
pub enum KeyCode {
    Char(char),
    Enter,
    Esc,
    Backspace,
    Tab,
    BackTab,
    Up,
    Down,
    Other,
}

/// A key press, and whether Control was held.
#[derive(Debug, PartialEq, Eq, Structural, Clone, Copy)]
pub struct KeyEvent {
    pub code: KeyCode,
    pub ctrl: bool,
}

/// Maximum response body we'll read into memory (10 MiB).
pub const MAX_BODY_BYTES: usize = 10485760;

/// A request for the HTTP worker to send.
#[derive(Debug)]
pub struct HttpTask {
    pub request_id: String,
    pub method: String,
    pub url: String,
    pub headers: Vec<(String, String)>,
    pub body: Option<String>,
}

/// The content of a header list.
pub open spec fn header_list_view(hs: Seq<(String, String)>) -> Seq<(Seq<char>, Seq<char>)> {
    hs.map_values(|h: (String, String)| (h.0@, h.1@))
}

/// The content of an [`HttpTask`].
pub struct TaskView {
    pub request_id: Seq<char>,
    pub method: Seq<char>,
    pub url: Seq<char>,
    pub headers: Seq<(Seq<char>, Seq<char>)>,
    pub body: Option<Seq<char>>,
}

impl View for HttpTask {
    type V = TaskView;

    open spec fn view(&self) -> TaskView {
        TaskView {
            request_id: self.request_id@,
            method: self.method@,
            url: self.url@,
            headers: header_list_view(self.headers@),
            body: match self.body {
                Some(b) => Some(b@),
                None => None,
            },
        }
    }
}

/// What happens to the application.
#[derive(Debug)]
pub enum AppEvent {
    Key(KeyEvent),
    Tick,
    HttpResponse { response: ResponseData, _request_id: String },
    HttpError { error: String, _request_id: String },
}

/// Whether a header value holds a carriage return or a line feed, which would
/// let it smuggle further header lines into the request.
pub open spec fn has_line_break(s: Seq<char>) -> bool {
    s.contains('\r') || s.contains('\n')
}

/// The message for a header whose value holds a line break.
pub open spec fn crlf_message(key: Seq<char>) -> Seq<char> {
    "Invalid header value for '"@ + key + "': contains CRLF"@
}

/// The error the worker reports instead of sending a request whose header
/// values hold line breaks: `Ok` when no value holds one, otherwise the
/// message for the first header (in order) whose value does.
pub open spec fn header_check(hs: Seq<(Seq<char>, Seq<char>)>) -> Result<(), Seq<char>>
    decreases hs.len(),
{
    if hs.len() == 0 {
        Ok(())
    } else if has_line_break(hs[0].1) {
        Err(crlf_message(hs[0].0))
    } else {
        header_check(hs.drop_first())
    }
}

fn line_break_in(s: &String) -> (r: bool)
    ensures
        r == has_line_break(s@),
{
    crate::text::contains_char(s.as_str(), '\r') || crate::text::contains_char(s.as_str(), '\n')
}

/// Guard against CRLF injection: the check the worker makes on a task's
/// headers before it sends anything.
pub fn check_header_values(headers: &Vec<(String, String)>) -> (r: Result<(), String>)
    ensures
        match r {
            Ok(()) => header_check(header_list_view(headers@)) == Ok::<(), Seq<char>>(()),
            Err(m) => header_check(header_list_view(headers@)) == Err::<(), Seq<char>>(m@),
        },
{
    let ghost hv = header_list_view(headers@);
    let mut i: usize = 0;
    assert(hv.skip(0) =~= hv);
    while i < headers.len()
        invariant
            i <= headers.len(),
            hv == header_list_view(headers@),
            header_check(hv) == header_check(hv.skip(i as int)),
        decreases headers.len() - i,
    {
        assert(hv.skip(i as int)[0] == hv[i as int]);
        assert(hv.skip(i as int).drop_first() =~= hv.skip(i + 1));
        if line_break_in(&headers[i].1) {
            let mut m = String::new();
            m.push_str("Invalid header value for '");
            m.push_str(headers[i].0.as_str());
            m.push_str("': contains CRLF");
            return Err(m);
        }
        i += 1;
    }
    assert(hv.skip(i as int) =~= Seq::<(Seq<char>, Seq<char>)>::empty());
    Ok(())
}

/// How much of a body of `total` bytes is kept, and whether it was cut.
pub fn body_cut(total: usize) -> (r: (usize, bool))
    ensures
        r.1 == (total > MAX_BODY_BYTES),
        r.0 == (if total > MAX_BODY_BYTES { MAX_BODY_BYTES } else { total }),
{
    if total > MAX_BODY_BYTES {
        (MAX_BODY_BYTES, true)
    } else {
        (total, false)
    }
}

/// The note appended to a body that was cut at the limit.
pub open spec fn truncation_note() -> Seq<char> {
    "\n\n[… truncated — response exceeded "@ + decimal((MAX_BODY_BYTES / 1024 / 1024) as nat)
        + " MiB]"@
}

/// The note appended to a body that was cut at [`MAX_BODY_BYTES`].
pub fn truncation_notice() -> (r: String)
    ensures
        r@ == truncation_note(),
{
    let mut m = String::new();
    m.push_str("\n\n[… truncated — response exceeded ");
    push_decimal(&mut m, (MAX_BODY_BYTES / 1024 / 1024) as u128);
    m.push_str(" MiB]");
    m
}

/// The body as shown: the decoded text, followed by the truncation note when
/// the body was cut at the limit.
pub fn finish_body(decoded: String, cut: bool) -> (r: String)
    ensures
        r@ == (if cut { decoded@ + truncation_note() } else { decoded@ }),
{
    let mut body = decoded;
    if cut {
        let note = truncation_notice();
        body.push_str(note.as_str());
    }
    body
}

/// The text `String::from_utf8_lossy` makes of some bytes: their UTF-8
/// decoding, with each invalid sequence replaced by U+FFFD.
pub uninterp spec fn lossy_utf8(bytes: Seq<u8>) -> Seq<char>;

/// `String::from_utf8_lossy`, made an owned `String`. Valid UTF-8 decodes to
/// its characters (std documentation); how invalid sequences are replaced is
/// only named.
#[verifier::external_body]
fn lossy_text(bytes: &[u8]) -> (r: String)
    ensures
        r@ == lossy_utf8(bytes@),
        valid_utf8(bytes@) ==> r@ == decode_utf8(bytes@),
{
    String::from_utf8_lossy(bytes).into_owned()
}

/// The body shown for the received bytes: the first [`MAX_BODY_BYTES`] of
/// them decoded as UTF-8 (invalid sequences replaced), followed by the
/// truncation note when there were more.
pub open spec fn shown_body(bytes: Seq<u8>) -> Seq<char> {
    if bytes.len() > MAX_BODY_BYTES {
        lossy_utf8(bytes.take(MAX_BODY_BYTES as int)) + truncation_note()
    } else {
        lossy_utf8(bytes)
    }
}

/// The body the worker reports for the bytes a server sent.
pub fn body_from_bytes(bytes: &[u8]) -> (r: String)
    ensures
        r@ == shown_body(bytes@),
{
    let (kept, cut) = body_cut(bytes.len());
    let (head, _) = bytes.split_at(kept);
    assert(head@ =~= (if cut { bytes@.take(MAX_BODY_BYTES as int) } else { bytes@ }));
    finish_body(lossy_text(head), cut)
}

} // verus!

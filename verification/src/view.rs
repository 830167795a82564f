//! What the screen shows for a given state: colours, labels, masks, and
//! whether a response body is treated as JSON. Drawing is the caller's.
use vstd::prelude::*;

use crate::app::types::{DeleteTarget, FocusPanel};
use crate::models::collection::Collection;
use crate::models::environment::Environment;
use crate::models::request::{HttpMethod, KeyValuePair, PairView};
use crate::models::response::{ResponseData, ResponseView};
use crate::text::{chars_of, contains_str, occurs_in, owned, same_text};

verus! {

/// The foreground colours the panels use for methods and status codes.
#[derive(Debug, Clone, Copy, PartialEq, Eq, Structural)]
pub enum Tint {
    Green,
    Blue,
    Yellow,
    Magenta,
    Red,
    Cyan,
}

/// The colour a method is written in, in the sidebar and in the method
/// selector alike.
pub open spec fn method_tint_of(m: HttpMethod) -> Tint {
    match m {
        HttpMethod::GET => Tint::Green,
        HttpMethod::POST => Tint::Blue,
        HttpMethod::PUT => Tint::Yellow,
        HttpMethod::PATCH => Tint::Magenta,
        HttpMethod::DELETE => Tint::Red,
        HttpMethod::HEAD | HttpMethod::OPTIONS => Tint::Cyan,
    }
}

pub fn method_tint(m: &HttpMethod) -> (r: Tint)
    ensures
        r == method_tint_of(*m),
{
    match m {
        HttpMethod::GET => Tint::Green,
        HttpMethod::POST => Tint::Blue,
        HttpMethod::PUT => Tint::Yellow,
        HttpMethod::PATCH => Tint::Magenta,
        HttpMethod::DELETE => Tint::Red,
        HttpMethod::HEAD | HttpMethod::OPTIONS => Tint::Cyan,
    }
}

/// The colour of a status code: success below 300, redirects below 400,
/// errors above.
pub fn status_tint(code: u16) -> (r: Tint)
    ensures
        code < 300 ==> r == Tint::Green,
        300 <= code < 400 ==> r == Tint::Yellow,
        400 <= code ==> r == Tint::Red,
{
    if code < 300 {
        Tint::Green
    } else if code < 400 {
        Tint::Yellow
    } else {
        Tint::Red
    }
}

/// The name of the focused panel in the status bar.
pub fn focus_label(f: &FocusPanel) -> (r: &'static str)
    ensures
        r@ == (match *f {
            FocusPanel::Sidebar => "SIDEBAR"@,
            FocusPanel::RequestUrl => "URL"@,
            FocusPanel::RequestMethod => "METHOD"@,
            FocusPanel::RequestTabs => "REQUEST"@,
            FocusPanel::RequestBody => "BODY"@,
            FocusPanel::ResponsePanel => "RESPONSE"@,
        }),
{
    match f {
        FocusPanel::Sidebar => "SIDEBAR",
        FocusPanel::RequestUrl => "URL",
        FocusPanel::RequestMethod => "METHOD",
        FocusPanel::RequestTabs => "REQUEST",
        FocusPanel::RequestBody => "BODY",
        FocusPanel::ResponsePanel => "RESPONSE",
    }
}

/// The editing mode in the status bar.
pub fn mode_label(insert_mode: bool) -> (r: &'static str)
    ensures
        r@ == (if insert_mode { " INSERT "@ } else { " NORMAL "@ }),
{
    if insert_mode {
        " INSERT "
    } else {
        " NORMAL "
    }
}

/// The active environment in the status bar: ` env:NAME ` for an active
/// index that names an environment, ` no-env ` otherwise.
pub fn env_label(envs: &Vec<Environment>, active: Option<usize>) -> (r: String)
    ensures
        r@ == (match active {
            Some(i) if i < envs@.len() => " env:"@ + envs@[i as int]@.name + " "@,
            _ => " no-env "@,
        }),
{
    match active {
        Some(i) if i < envs.len() => {
            let mut s = owned(" env:");
            s.push_str(envs[i].name.as_str());
            s.push_str(" ");
            s
        },
        _ => owned(" no-env "),
    }
}

/// `name` between double quotes.
pub open spec fn quoted(name: Seq<char>) -> Seq<char> {
    seq!['"'] + name + seq!['"']
}

/// What the delete confirmation names: `collection "NAME"` or
/// `request "NAME"`, or `item` / `request` where the target no longer exists.
pub fn delete_label(collections: &Vec<Collection>, target: &DeleteTarget) -> (r: String)
    ensures
        r@ == (match *target {
            DeleteTarget::Collection(ci) => if ci < collections@.len() {
                "collection "@ + quoted(collections@[ci as int]@.name)
            } else {
                "item"@
            },
            DeleteTarget::Request { collection_idx: ci, request_idx: ri } => if ci
                < collections@.len() && ri < collections@[ci as int]@.requests.len() {
                "request "@ + quoted(collections@[ci as int]@.requests[ri as int].name)
            } else {
                "request"@
            },
        }),
{
    match target {
        DeleteTarget::Collection(ci) => {
            if *ci < collections.len() {
                let mut s = owned("collection \"");
                s.push_str(collections[*ci].name.as_str());
                s.push('"');
                proof {
                    reveal_strlit("collection \"");
                    reveal_strlit("collection ");
                    assert(s@ =~= "collection "@ + quoted(collections@[*ci as int]@.name));
                }
                s
            } else {
                owned("item")
            }
        },
        DeleteTarget::Request { collection_idx, request_idx } => {
            if *collection_idx < collections.len() && *request_idx
                < collections[*collection_idx].requests.len() {
                let mut s = owned("request \"");
                s.push_str(collections[*collection_idx].requests[*request_idx].name.as_str());
                s.push('"');
                proof {
                    reveal_strlit("request \"");
                    reveal_strlit("request ");
                    let c = collections@[*collection_idx as int];
                    assert(c@.requests[*request_idx as int] == c.requests@[*request_idx as int]@);
                    assert(s@ =~= "request "@ + quoted(c@.requests[*request_idx as int].name));
                }
                s
            } else {
                owned("request")
            }
        },
    }
}

/// At most this many mask characters stand for a token or key.
pub const MASK_LIMIT: usize = 40;

/// `n` mask characters.
pub open spec fn stars(n: nat) -> Seq<char> {
    Seq::new(n, |_i: int| '*')
}

/// A secret shown as one `*` per byte of its UTF-8 text, at most
/// [`MASK_LIMIT`] of them when `capped` (tokens and keys; a password is
/// shown uncapped).
pub fn mask_secret(secret: &str, capped: bool) -> (r: String)
    ensures
        r@ == stars(
            (if capped && secret.len() > MASK_LIMIT {
                MASK_LIMIT
            } else {
                secret.len()
            }) as nat,
        ),
{
    let len = secret.len();
    let n = if capped && len > MASK_LIMIT {
        MASK_LIMIT
    } else {
        len
    };
    let mut s = String::new();
    let mut i: usize = 0;
    while i < n
        invariant
            i <= n,
            s@ == stars(i as nat),
        decreases n - i,
    {
        s.push('*');
        i += 1;
        assert(s@ =~= stars(i as nat));
    }
    s
}

// ── JSON detection ───────────────────────────────────────────────────────────
/// The lowercase mapping of a text by the Unicode case tables, including
/// the context-dependent rule for final sigma (what `str::to_lowercase`
/// returns).
pub uninterp spec fn lowercase(s: Seq<char>) -> Seq<char>;

/// `str::to_lowercase`. Its result is a function of the text alone; the
/// Unicode tables it follows are not written out here, only named.
#[verifier::external_body]
fn to_lowercase(s: &str) -> (r: String)
    ensures
        r@ == lowercase(s@),
{
    s.to_lowercase()
}

/// The characters with the Unicode `White_Space` property, which
/// `str::trim_start` removes.
pub open spec fn is_white_space(c: char) -> bool {
    ||| '\u{9}' <= c <= '\u{d}'
    ||| c == ' '
    ||| c == '\u{85}'
    ||| c == '\u{a0}'
    ||| c == '\u{1680}'
    ||| '\u{2000}' <= c <= '\u{200a}'
    ||| c == '\u{2028}'
    ||| c == '\u{2029}'
    ||| c == '\u{202f}'
    ||| c == '\u{205f}'
    ||| c == '\u{3000}'
}

fn white_space(c: char) -> (r: bool)
    ensures
        r == is_white_space(c),
{
    ('\u{9}' <= c && c <= '\u{d}') || c == ' ' || c == '\u{85}' || c == '\u{a0}' || c
        == '\u{1680}' || ('\u{2000}' <= c && c <= '\u{200a}') || c == '\u{2028}' || c
        == '\u{2029}' || c == '\u{202f}' || c == '\u{205f}' || c == '\u{3000}'
}

/// The first character of `s` that is not white space, if any.
pub open spec fn first_visible(s: Seq<char>) -> Option<char>
    decreases s.len(),
{
    if s.len() == 0 {
        None
    } else if is_white_space(s[0]) {
        first_visible(s.drop_first())
    } else {
        Some(s[0])
    }
}

fn first_visible_char(s: &str) -> (r: Option<char>)
    ensures
        r == first_visible(s@),
{
    let cs = chars_of(s);
    let mut i: usize = 0;
    assert(s@.skip(0) =~= s@);
    while i < cs.len()
        invariant
            i <= cs.len(),
            cs@ == s@,
            first_visible(s@) == first_visible(s@.skip(i as int)),
        decreases cs.len() - i,
    {
        assert(s@.skip(i as int)[0] == cs@[i as int]);
        if !white_space(cs[i]) {
            return Some(cs[i]);
        }
        assert(s@.skip(i as int).drop_first() =~= s@.skip(i + 1));
        i += 1;
    }
    None
}

/// A header that declares JSON content: its name is `content-type` and its
/// value mentions `json`, both compared in lowercase.
pub open spec fn declares_json(h: PairView) -> bool {
    lowercase(h.key) == "content-type"@ && occurs_in(lowercase(h.value), "json"@)
}

/// A response shown as JSON: a header declares it, or the body's first
/// visible character opens an object or an array.
pub open spec fn looks_like_json(r: ResponseView) -> bool {
    ||| exists|i: int| 0 <= i < r.headers.len() && declares_json(#[trigger] r.headers[i])
    ||| first_visible(r.body) == Some('{')
    ||| first_visible(r.body) == Some('[')
}

fn header_declares_json(h: &KeyValuePair) -> (r: bool)
    ensures
        r == declares_json(h@),
{
    let key = to_lowercase(h.key.as_str());
    if !same_text(key.as_str(), "content-type") {
        return false;
    }
    let value = to_lowercase(h.value.as_str());
    contains_str(value.as_str(), "json")
}

/// Whether the response body is shown as JSON (highlighted).
pub fn is_json_response(resp: &ResponseData) -> (r: bool)
    ensures
        r == looks_like_json(resp@),
{
    let mut i: usize = 0;
    while i < resp.headers.len()
        invariant
            i <= resp.headers.len(),
            forall|k: int| 0 <= k < i ==> !declares_json(#[trigger] resp@.headers[k]),
        decreases resp.headers.len() - i,
    {
        assert(resp@.headers[i as int] == resp.headers@[i as int]@);
        if header_declares_json(&resp.headers[i]) {
            return true;
        }
        i += 1;
    }
    let first = first_visible_char(resp.body.as_str());
    match first {
        Some(c) => c == '{' || c == '[',
        None => false,
    }
}

} // verus!

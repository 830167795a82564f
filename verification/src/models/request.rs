//! What a request is made of: method, key/value rows, authentication.
use vstd::prelude::*;

use crate::text::owned;

verus! {

/// The HTTP methods the editor offers, in the order the method selector
/// cycles through them.
#[derive(Debug, PartialEq, Eq, Structural)]
pub enum HttpMethod {
    GET,
    POST,
    PUT,
    PATCH,
    DELETE,
    HEAD,
    OPTIONS,
}

impl Clone for HttpMethod {
    fn clone(&self) -> (r: Self)
        ensures
            r == *self,
    {
        match self {
            HttpMethod::GET => HttpMethod::GET,
            HttpMethod::POST => HttpMethod::POST,
            HttpMethod::PUT => HttpMethod::PUT,
            HttpMethod::PATCH => HttpMethod::PATCH,
            HttpMethod::DELETE => HttpMethod::DELETE,
            HttpMethod::HEAD => HttpMethod::HEAD,
            HttpMethod::OPTIONS => HttpMethod::OPTIONS,
        }
    }
}

impl Default for HttpMethod {
    fn default() -> (r: Self)
        ensures
            r == HttpMethod::GET,
    {
        HttpMethod::GET
    }
}

impl HttpMethod {
    /// The method's name as it goes on the wire.
    pub open spec fn name(self) -> Seq<char> {
        match self {
            HttpMethod::GET => "GET"@,
            HttpMethod::POST => "POST"@,
            HttpMethod::PUT => "PUT"@,
            HttpMethod::PATCH => "PATCH"@,
            HttpMethod::DELETE => "DELETE"@,
            HttpMethod::HEAD => "HEAD"@,
            HttpMethod::OPTIONS => "OPTIONS"@,
        }
    }

    /// The method that follows `self` in the selector's cycle.
    pub open spec fn next(self) -> HttpMethod {
        match self {
            HttpMethod::GET => HttpMethod::POST,
            HttpMethod::POST => HttpMethod::PUT,
            HttpMethod::PUT => HttpMethod::PATCH,
            HttpMethod::PATCH => HttpMethod::DELETE,
            HttpMethod::DELETE => HttpMethod::HEAD,
            HttpMethod::HEAD => HttpMethod::OPTIONS,
            HttpMethod::OPTIONS => HttpMethod::GET,
        }
    }

    /// The method that precedes `self` in the selector's cycle.
    pub open spec fn prev(self) -> HttpMethod {
        match self {
            HttpMethod::GET => HttpMethod::OPTIONS,
            HttpMethod::POST => HttpMethod::GET,
            HttpMethod::PUT => HttpMethod::POST,
            HttpMethod::PATCH => HttpMethod::PUT,
            HttpMethod::DELETE => HttpMethod::PATCH,
            HttpMethod::HEAD => HttpMethod::DELETE,
            HttpMethod::OPTIONS => HttpMethod::HEAD,
        }
    }

    pub fn as_str(&self) -> (r: &str)
        ensures
            r@ == self.name(),
    {
        match self {
            HttpMethod::GET => "GET",
            HttpMethod::POST => "POST",
            HttpMethod::PUT => "PUT",
            HttpMethod::PATCH => "PATCH",
            HttpMethod::DELETE => "DELETE",
            HttpMethod::HEAD => "HEAD",
            HttpMethod::OPTIONS => "OPTIONS",
        }
    }

    pub fn cycle_next(&self) -> (r: HttpMethod)
        ensures
            r == self.next(),
    {
        match self {
            HttpMethod::GET => HttpMethod::POST,
            HttpMethod::POST => HttpMethod::PUT,
            HttpMethod::PUT => HttpMethod::PATCH,
            HttpMethod::PATCH => HttpMethod::DELETE,
            HttpMethod::DELETE => HttpMethod::HEAD,
            HttpMethod::HEAD => HttpMethod::OPTIONS,
            HttpMethod::OPTIONS => HttpMethod::GET,
        }
    }

    pub fn cycle_prev(&self) -> (r: HttpMethod)
        ensures
            r == self.prev(),
    {
        match self {
            HttpMethod::GET => HttpMethod::OPTIONS,
            HttpMethod::POST => HttpMethod::GET,
            HttpMethod::PUT => HttpMethod::POST,
            HttpMethod::PATCH => HttpMethod::PUT,
            HttpMethod::DELETE => HttpMethod::PATCH,
            HttpMethod::HEAD => HttpMethod::DELETE,
            HttpMethod::OPTIONS => HttpMethod::HEAD,
        }
    }
}

/// Stepping the method selector forward and then back (or back and then
/// forward) returns to the method one started from.
pub proof fn lemma_cycle_inverse(m: HttpMethod)
    ensures
        m.next().prev() == m,
        m.prev().next() == m,
{
}

/// Stepping the method selector forward seven times visits every method once
/// and returns to the start.
pub proof fn lemma_cycle_period(m: HttpMethod)
    ensures
        m.next().next().next().next().next().next().next() == m,
        m.next() != m,
        m.next().next() != m,
        m.next().next().next() != m,
        m.next().next().next().next() != m,
        m.next().next().next().next().next() != m,
        m.next().next().next().next().next().next() != m,
{
}

/// A header or query parameter row; disabled rows are kept but not sent.
#[derive(Debug)]
pub struct KeyValuePair {
    pub key: String,
    pub value: String,
    pub enabled: bool,
}

/// The content of a [`KeyValuePair`].
pub struct PairView {
    pub key: Seq<char>,
    pub value: Seq<char>,
    pub enabled: bool,
}

impl View for KeyValuePair {
    type V = PairView;

    open spec fn view(&self) -> PairView {
        PairView { key: self.key@, value: self.value@, enabled: self.enabled }
    }
}

/// The contents of a list of rows.
pub open spec fn pairs_view(rows: Seq<KeyValuePair>) -> Seq<PairView> {
    rows.map_values(|p: KeyValuePair| p@)
}

impl Clone for KeyValuePair {
    fn clone(&self) -> (r: Self)
        ensures
            r@ == self@,
    {
        KeyValuePair { key: self.key.clone(), value: self.value.clone(), enabled: self.enabled }
    }
}

impl Default for KeyValuePair {
    fn default() -> (r: Self)
        ensures
            r@ == (PairView { key: Seq::empty(), value: Seq::empty(), enabled: false }),
    {
        KeyValuePair { key: String::new(), value: String::new(), enabled: false }
    }
}

impl KeyValuePair {
    /// An enabled row.
    pub fn new(key: &str, value: &str) -> (r: Self)
        ensures
            r@ == (PairView { key: key@, value: value@, enabled: true }),
    {
        KeyValuePair { key: owned(key), value: owned(value), enabled: true }
    }
}

/// A copy of a list of rows.
pub fn copy_pairs(rows: &[KeyValuePair]) -> (r: Vec<KeyValuePair>)
    ensures
        pairs_view(r@) == pairs_view(rows@),
{
    let mut out: Vec<KeyValuePair> = Vec::new();
    let mut i: usize = 0;
    while i < rows.len()
        invariant
            i <= rows.len(),
            out@.len() == i,
            forall|k: int| 0 <= k < i ==> #[trigger] out@[k]@ == rows@[k]@,
        decreases rows.len() - i,
    {
        out.push(rows[i].clone());
        i += 1;
    }
    assert(pairs_view(out@) =~= pairs_view(rows@));
    out
}

/// A copy of a vector of rows.
pub fn copy_pair_vec(rows: &Vec<KeyValuePair>) -> (r: Vec<KeyValuePair>)
    ensures
        pairs_view(r@) == pairs_view(rows@),
{
    copy_pairs(rows.as_slice())
}

/// How a request authenticates.
#[derive(Debug)]
pub enum AuthConfig {
    NoAuth,
    BearerToken { token: String },
    BasicAuth { username: String, password: String },
    ApiKey { header: String, value: String },
}

/// The content of an [`AuthConfig`].
pub enum AuthView {
    NoAuth,
    BearerToken { token: Seq<char> },
    BasicAuth { username: Seq<char>, password: Seq<char> },
    ApiKey { header: Seq<char>, value: Seq<char> },
}

impl View for AuthConfig {
    type V = AuthView;

    open spec fn view(&self) -> AuthView {
        match self {
            AuthConfig::NoAuth => AuthView::NoAuth,
            AuthConfig::BearerToken { token } => AuthView::BearerToken { token: token@ },
            AuthConfig::BasicAuth { username, password } => AuthView::BasicAuth {
                username: username@,
                password: password@,
            },
            AuthConfig::ApiKey { header, value } => AuthView::ApiKey {
                header: header@,
                value: value@,
            },
        }
    }
}

impl Clone for AuthConfig {
    fn clone(&self) -> (r: Self)
        ensures
            r@ == self@,
    {
        match self {
            AuthConfig::NoAuth => AuthConfig::NoAuth,
            AuthConfig::BearerToken { token } => AuthConfig::BearerToken { token: token.clone() },
            AuthConfig::BasicAuth { username, password } => AuthConfig::BasicAuth {
                username: username.clone(),
                password: password.clone(),
            },
            AuthConfig::ApiKey { header, value } => AuthConfig::ApiKey {
                header: header.clone(),
                value: value.clone(),
            },
        }
    }
}

impl Default for AuthConfig {
    fn default() -> (r: Self)
        ensures
            r@ == AuthView::NoAuth,
    {
        AuthConfig::NoAuth
    }
}

/// Everything that defines a saved request.
#[derive(Debug)]
pub struct RequestConfig {
    pub url: String,
    pub method: HttpMethod,
    pub headers: Vec<KeyValuePair>,
    pub query_params: Vec<KeyValuePair>,
    pub body: String,
    pub auth: AuthConfig,
}

/// The content of a [`RequestConfig`].
pub struct RequestConfigView {
    pub url: Seq<char>,
    pub method: HttpMethod,
    pub headers: Seq<PairView>,
    pub query_params: Seq<PairView>,
    pub body: Seq<char>,
    pub auth: AuthView,
}

impl View for RequestConfig {
    type V = RequestConfigView;

    open spec fn view(&self) -> RequestConfigView {
        RequestConfigView {
            url: self.url@,
            method: self.method,
            headers: pairs_view(self.headers@),
            query_params: pairs_view(self.query_params@),
            body: self.body@,
            auth: self.auth@,
        }
    }
}

/// The configuration of a fresh request: a GET to an empty URL with no rows,
/// no body and no authentication.
pub open spec fn blank_config() -> RequestConfigView {
    RequestConfigView {
        url: Seq::empty(),
        method: HttpMethod::GET,
        headers: Seq::empty(),
        query_params: Seq::empty(),
        body: Seq::empty(),
        auth: AuthView::NoAuth,
    }
}

impl Clone for RequestConfig {
    fn clone(&self) -> (r: Self)
        ensures
            r@ == self@,
    {
        RequestConfig {
            url: self.url.clone(),
            method: self.method.clone(),
            headers: copy_pair_vec(&self.headers),
            query_params: copy_pair_vec(&self.query_params),
            body: self.body.clone(),
            auth: self.auth.clone(),
        }
    }
}

impl Default for RequestConfig {
    fn default() -> (r: Self)
        ensures
            r@ == blank_config(),
    {
        let r = RequestConfig {
            url: String::new(),
            method: HttpMethod::GET,
            headers: Vec::new(),
            query_params: Vec::new(),
            body: String::new(),
            auth: AuthConfig::NoAuth,
        };
        assert(pairs_view(r.headers@) =~= Seq::<PairView>::empty());
        assert(pairs_view(r.query_params@) =~= Seq::<PairView>::empty());
        r
    }
}

} // verus!

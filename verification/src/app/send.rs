//! Turning the request editor's content into a task for the HTTP worker.
use vstd::prelude::*;
use vstd::utf8::encode_utf8;

use crate::app::encoding::{base64, base64_encode, percent_bytes, percent_encode};
use crate::app::state::{App, AppView};
use crate::app::types::{effects_view, Effect, EffectView};
use crate::event::{header_list_view, HttpTask, TaskView};
use crate::ids::{is_uuid_v4_text, new_id};
use crate::models::environment::{Environment, EnvironmentView};
use crate::models::request::{pairs_view, AuthConfig, AuthView, KeyValuePair, PairView};
use crate::text::{contains_char, occurs_at, owned};
use crate::utils::env_interpolation::{
    env_view, interpolate, interpolated, lemma_no_placeholder_unchanged,
};

verus! {

/// The environment whose variables fill placeholders: the active one, if it
/// exists.
pub open spec fn active_env(s: AppView) -> Option<EnvironmentView> {
    match s.active_env_idx {
        Some(i) => if i < s.environments.len() {
            Some(s.environments[i as int])
        } else {
            None
        },
        None => None,
    }
}

/// The rows that are sent, in order: the enabled rows with a non-empty key,
/// with placeholders filled in in key and value.
pub open spec fn sent_rows(rows: Seq<PairView>, env: Option<EnvironmentView>) -> Seq<
    (Seq<char>, Seq<char>),
>
    decreases rows.len(),
{
    if rows.len() == 0 {
        Seq::empty()
    } else {
        let prev = sent_rows(rows.drop_last(), env);
        let p = rows.last();
        if p.enabled && p.key.len() > 0 {
            prev.push((interpolated(p.key, env), interpolated(p.value, env)))
        } else {
            prev
        }
    }
}

/// The header that authentication adds, if any.
pub open spec fn auth_header(auth: AuthView, env: Option<EnvironmentView>) -> Option<
    (Seq<char>, Seq<char>),
> {
    match auth {
        AuthView::NoAuth => None,
        AuthView::BearerToken { token } => Some(
            ("Authorization"@, "Bearer "@ + interpolated(token, env)),
        ),
        AuthView::BasicAuth { username, password } => Some(
            (
                "Authorization"@,
                "Basic "@ + base64(
                    encode_utf8(interpolated(username, env) + seq![':'] + interpolated(password, env)),
                ),
            ),
        ),
        AuthView::ApiKey { header, value } => Some((header, interpolated(value, env))),
    }
}

/// The headers of the request: the sent header rows, then the
/// authentication header.
pub open spec fn request_headers(s: AppView, env: Option<EnvironmentView>) -> Seq<
    (Seq<char>, Seq<char>),
> {
    match auth_header(s.edit_auth, env) {
        Some(h) => sent_rows(s.edit_headers, env).push(h),
        None => sent_rows(s.edit_headers, env),
    }
}

/// The percent-encoding of the UTF-8 bytes of a text.
pub open spec fn percent_text(t: Seq<char>) -> Seq<char> {
    percent_bytes(encode_utf8(t))
}

/// `k1=v1&k2=v2&…` with every key and value percent-encoded.
pub open spec fn query_text(ps: Seq<(Seq<char>, Seq<char>)>) -> Seq<char>
    decreases ps.len(),
{
    if ps.len() == 0 {
        Seq::empty()
    } else {
        let p = ps.last();
        let item = percent_text(p.0) + seq!['='] + percent_text(p.1);
        if ps.len() == 1 {
            item
        } else {
            query_text(ps.drop_last()) + seq!['&'] + item
        }
    }
}

/// The URL the request goes to: the URL with placeholders filled in, and the
/// sent parameters appended after `?`, or after `&` when the URL already has
/// a query.
pub open spec fn request_url(s: AppView, env: Option<EnvironmentView>) -> Seq<char> {
    let url = interpolated(s.edit_url, env);
    let ps = sent_rows(s.edit_params, env);
    if ps.len() == 0 {
        url
    } else if url.contains('?') {
        url + seq!['&'] + query_text(ps)
    } else {
        url + seq!['?'] + query_text(ps)
    }
}

/// The body of the request: none when the editor's body is empty.
pub open spec fn request_body(s: AppView, env: Option<EnvironmentView>) -> Option<Seq<char>> {
    if s.edit_body.len() == 0 {
        None
    } else {
        Some(interpolated(s.edit_body, env))
    }
}

/// The task built from the editor, under the identifier `id`.
pub open spec fn task_for(s: AppView, id: Seq<char>) -> TaskView {
    TaskView {
        request_id: id,
        method: s.edit_method.name(),
        url: request_url(s, active_env(s)),
        headers: request_headers(s, active_env(s)),
        body: request_body(s, active_env(s)),
    }
}

/// The state after the editor's request is handed to the worker under `id`.
pub open spec fn dispatched(s: AppView, id: Seq<char>) -> AppView {
    AppView {
        effects: s.effects.push(EffectView::SendRequest(task_for(s, id))),
        loading: true,
        response: None,
        status_msg: Some("Sending..."@),
        ..s
    }
}

/// How sending changes the state: with an empty URL only a message is shown;
/// otherwise the task goes out under a fresh random identifier.
pub open spec fn send_step(s: AppView, t: AppView) -> bool {
    if s.edit_url.len() == 0 {
        t == AppView { status_msg: Some("URL is empty"@), ..s }
    } else {
        exists|id: Seq<char>| is_uuid_v4_text(id) && t == dispatched(s, id)
    }
}

/// The sent rows of a table.
pub fn rows_for(rows: &Vec<KeyValuePair>, env: Option<&Environment>) -> (r: Vec<(String, String)>)
    ensures
        header_list_view(r@) == sent_rows(pairs_view(rows@), env_view(env)),
{
    let ghost pv = pairs_view(rows@);
    let mut out: Vec<(String, String)> = Vec::new();
    let mut i: usize = 0;
    while i < rows.len()
        invariant
            i <= rows.len(),
            pv == pairs_view(rows@),
            header_list_view(out@) == sent_rows(pv.take(i as int), env_view(env)),
        decreases rows.len() - i,
    {
        let row = &rows[i];
        let ghost prev = out@;
        proof {
            assert(pv.take(i + 1).drop_last() =~= pv.take(i as int));
            assert(pv.take(i + 1).last() == row@);
        }
        if row.enabled && !row.key.is_empty() {
            let k = interpolate(row.key.as_str(), env);
            let v = interpolate(row.value.as_str(), env);
            out.push((k, v));
            assert(header_list_view(out@) =~= header_list_view(prev).push((k@, v@)));
        }
        i += 1;
    }
    assert(pv.take(rows.len() as int) =~= pv);
    out
}

/// The query string of the sent parameters.
pub fn query_string(ps: &Vec<(String, String)>) -> (r: String)
    ensures
        r@ == query_text(header_list_view(ps@)),
{
    let ghost hv = header_list_view(ps@);
    let mut out = String::new();
    let mut i: usize = 0;
    while i < ps.len()
        invariant
            i <= ps.len(),
            hv == header_list_view(ps@),
            out@ == query_text(hv.take(i as int)),
        decreases ps.len() - i,
    {
        proof {
            assert(hv.take(i + 1).drop_last() =~= hv.take(i as int));
            assert(hv.take(i + 1).last() == hv[i as int]);
        }
        if i > 0 {
            out.push('&');
        }
        let k = percent_encode(ps[i].0.as_str());
        out.push_str(k.as_str());
        out.push('=');
        let v = percent_encode(ps[i].1.as_str());
        out.push_str(v.as_str());
        i += 1;
        assert(out@ =~= query_text(hv.take(i as int)));
    }
    assert(hv.take(ps.len() as int) =~= hv);
    out
}

fn bearer_value(token: &String, env: Option<&Environment>) -> (r: String)
    ensures
        r@ == "Bearer "@ + interpolated(token@, env_view(env)),
{
    let mut v = owned("Bearer ");
    let t = interpolate(token.as_str(), env);
    v.push_str(t.as_str());
    v
}

fn basic_value(username: &String, password: &String, env: Option<&Environment>) -> (r: String)
    ensures
        r@ == "Basic "@ + base64(
            encode_utf8(
                interpolated(username@, env_view(env)) + seq![':'] + interpolated(password@, env_view(env)),
            ),
        ),
{
    let mut creds = interpolate(username.as_str(), env);
    creds.push(':');
    let p = interpolate(password.as_str(), env);
    creds.push_str(p.as_str());
    assert(creds@ =~= interpolated(username@, env_view(env)) + seq![':'] + interpolated(
        password@,
        env_view(env),
    ));
    let cs = creds.as_str();
    let bytes = cs.as_bytes();
    assert(bytes@ == encode_utf8(creds@));
    let encoded = base64_encode(bytes);
    let mut v = owned("Basic ");
    v.push_str(encoded.as_str());
    v
}

fn auth_row(auth: &AuthConfig, env: Option<&Environment>) -> (r: Option<(String, String)>)
    ensures
        match r {
            Some(h) => auth_header(auth@, env_view(env)) == Some((h.0@, h.1@)),
            None => auth_header(auth@, env_view(env)) is None,
        },
{
    match auth {
        AuthConfig::BearerToken { token } => Some((owned("Authorization"), bearer_value(token, env))),
        AuthConfig::BasicAuth { username, password } => Some(
            (owned("Authorization"), basic_value(username, password, env)),
        ),
        AuthConfig::ApiKey { header, value } => {
            Some((header.clone(), interpolate(value.as_str(), env)))
        },
        AuthConfig::NoAuth => None,
    }
}

impl App {
    pub fn send_request(&mut self)
        ensures
            send_step(old(self)@, final(self)@),
    {
        if self.edit_url.is_empty() {
            self.status_msg = Some(owned("URL is empty"));
            return ;
        }
        let env: Option<&Environment> = match self.active_env_idx {
            Some(i) => if i < self.environments.len() {
                Some(&self.environments[i])
            } else {
                None
            },
            None => None,
        };
        assert(env_view(env) == active_env(self@));
        let url = interpolate(self.edit_url.as_str(), env);
        let mut headers = rows_for(&self.edit_headers, env);
        let ghost hv = header_list_view(headers@);
        match auth_row(&self.edit_auth, env) {
            Some(h) => {
                headers.push(h);
                assert(header_list_view(headers@) =~= hv.push((h.0@, h.1@)));
            },
            None => {},
        }
        let params = rows_for(&self.edit_params, env);
        assert(header_list_view(params@).len() == params@.len());
        let final_url = if params.len() == 0 {
            url
        } else {
            let qs = query_string(&params);
            let mut u = url;
            if contains_char(u.as_str(), '?') {
                u.push('&');
            } else {
                u.push('?');
            }
            u.push_str(qs.as_str());
            u
        };
        let body = if self.edit_body.is_empty() {
            None
        } else {
            Some(interpolate(self.edit_body.as_str(), env))
        };
        let request_id = new_id();
        let task = HttpTask {
            request_id,
            method: owned(self.edit_method.as_str()),
            url: final_url,
            headers,
            body,
        };
        let ghost id = task.request_id@;
        let ghost tv = task@;
        let ghost s0 = old(self)@;
        assert(tv.method == s0.edit_method.name());
        assert(tv.headers == request_headers(s0, active_env(s0)));
        assert(tv.body == request_body(s0, active_env(s0)));
        assert(tv.url == request_url(s0, active_env(s0)));
        assert(tv == task_for(old(self)@, id));
        let ghost old_effects = self.effects@;
        self.effects.push(Effect::SendRequest(task));
        assert(effects_view(self.effects@) =~= effects_view(old_effects).push(
            EffectView::SendRequest(tv),
        ));
        self.loading = true;
        self.response = None;
        self.status_msg = Some(owned("Sending..."));
        assert(self@ == dispatched(old(self)@, id));
    }
}


// ── Laws ─────────────────────────────────────────────────────────────────────

/// A bearer token gets its placeholders filled exactly as the URL does: when
/// the token is the same text as the URL (and no parameter is added), the
/// task's last header is `Authorization: Bearer ` followed by the URL the task
/// goes to.
pub proof fn lemma_bearer_token_filled_like_url(s: AppView, id: Seq<char>)
    requires
        s.edit_auth == (AuthView::BearerToken { token: s.edit_url }),
        s.edit_params.len() == 0,
    ensures
        task_for(s, id).headers.last() == ("Authorization"@, "Bearer "@ + task_for(s, id).url),
{
}

/// An API key's value gets its placeholders filled exactly as the URL does:
/// when the value is the same text as the URL, the task's last header is the
/// key's header name with the URL the task goes to.
pub proof fn lemma_api_key_filled_like_url(s: AppView, id: Seq<char>, header: Seq<char>)
    requires
        s.edit_auth == (AuthView::ApiKey { header, value: s.edit_url }),
        s.edit_params.len() == 0,
    ensures
        task_for(s, id).headers.last() == (header, task_for(s, id).url),
{
}

/// Basic credentials get their placeholders filled exactly as the URL does:
/// when the user name is the same text as the URL and the password is empty,
/// the task's last header carries the Base64 of the UTF-8 of the URL the
/// task goes to, followed by `:`.
pub proof fn lemma_basic_user_filled_like_url(s: AppView, id: Seq<char>)
    requires
        s.edit_auth == (AuthView::BasicAuth { username: s.edit_url, password: Seq::empty() }),
        s.edit_params.len() == 0,
    ensures
        task_for(s, id).headers.last() == (
            "Authorization"@,
            "Basic "@ + base64(encode_utf8(task_for(s, id).url + seq![':'])),
        ),
{
    let env = active_env(s);
    assert(interpolated(Seq::<char>::empty(), env) == Seq::<char>::empty()) by {
        assert forall|i: int| !occurs_at(Seq::<char>::empty(), seq!['{', '{'], i) by {}
        lemma_no_placeholder_unchanged(Seq::<char>::empty(), env);
    }
    assert(task_for(s, id).url + seq![':'] + Seq::<char>::empty() =~= task_for(s, id).url + seq![':']);
}

} // verus!

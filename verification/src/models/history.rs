//! The log of sent requests, which never holds credentials or bodies.
use vstd::prelude::*;

use crate::ids::{is_uuid_v4_text, new_id, now};
use crate::models::request::{copy_pair_vec, copy_pairs, pairs_view, HttpMethod, KeyValuePair, PairView};
use crate::models::response::ResponseData;
use crate::text::owned;

verus! {

/// A point in time: whole seconds since the Unix epoch and nanoseconds past
/// that second.
#[derive(Debug, Clone, Copy)]
pub struct Timestamp {
    pub secs: i64,
    pub nanos: u32,
}

/// What a history entry keeps of a request: no body and no authentication.
#[derive(Debug)]
pub struct HistoryRequest {
    pub url: String,
    pub method: HttpMethod,
    pub headers: Vec<KeyValuePair>,
    pub query_params: Vec<KeyValuePair>,
}

/// The content of a [`HistoryRequest`].
pub struct HistoryRequestView {
    pub url: Seq<char>,
    pub method: HttpMethod,
    pub headers: Seq<PairView>,
    pub query_params: Seq<PairView>,
}

impl View for HistoryRequest {
    type V = HistoryRequestView;

    open spec fn view(&self) -> HistoryRequestView {
        HistoryRequestView {
            url: self.url@,
            method: self.method,
            headers: pairs_view(self.headers@),
            query_params: pairs_view(self.query_params@),
        }
    }
}

impl Clone for HistoryRequest {
    fn clone(&self) -> (r: Self)
        ensures
            r@ == self@,
    {
        HistoryRequest {
            url: self.url.clone(),
            method: self.method.clone(),
            headers: copy_pair_vec(&self.headers),
            query_params: copy_pair_vec(&self.query_params),
        }
    }
}

/// One logged request and its outcome: a status and duration, or an error.
#[derive(Debug)]
pub struct HistoryEntry {
    pub id: String,
    pub timestamp: Timestamp,
    pub request: HistoryRequest,
    pub status_code: Option<u16>,
    pub elapsed_ms: Option<u128>,
    pub error: Option<String>,
}

/// The content of a [`HistoryEntry`].
pub struct HistoryEntryView {
    pub id: Seq<char>,
    pub timestamp: Timestamp,
    pub request: HistoryRequestView,
    pub status_code: Option<u16>,
    pub elapsed_ms: Option<u128>,
    pub error: Option<Seq<char>>,
}

/// The content of an optional string.
pub open spec fn opt_str_view(s: Option<String>) -> Option<Seq<char>> {
    match s {
        Some(t) => Some(t@),
        None => None,
    }
}

impl View for HistoryEntry {
    type V = HistoryEntryView;

    open spec fn view(&self) -> HistoryEntryView {
        HistoryEntryView {
            id: self.id@,
            timestamp: self.timestamp,
            request: self.request@,
            status_code: self.status_code,
            elapsed_ms: self.elapsed_ms,
            error: opt_str_view(self.error),
        }
    }
}

impl Clone for HistoryEntry {
    fn clone(&self) -> (r: Self)
        ensures
            r@ == self@,
    {
        let error = match &self.error {
            Some(e) => Some(e.clone()),
            None => None,
        };
        HistoryEntry {
            id: self.id.clone(),
            timestamp: self.timestamp,
            request: self.request.clone(),
            status_code: self.status_code,
            elapsed_ms: self.elapsed_ms,
            error,
        }
    }
}

/// The contents of a history log.
pub open spec fn history_view(entries: Seq<HistoryEntry>) -> Seq<HistoryEntryView> {
    entries.map_values(|e: HistoryEntry| e@)
}

/// The largest number of entries the history file keeps.
pub const MAX_HISTORY: usize = 500;

impl HistoryEntry {
    /// A fresh entry, with no outcome yet, for a request with the given URL,
    /// method and rows.
    pub fn from_request(
        url: &str,
        method: &HttpMethod,
        headers: &[KeyValuePair],
        params: &[KeyValuePair],
    ) -> (r: Self)
        ensures
            r@.request == (HistoryRequestView {
                url: url@,
                method: *method,
                headers: pairs_view(headers@),
                query_params: pairs_view(params@),
            }),
            r@.status_code is None,
            r@.elapsed_ms is None,
            r@.error is None,
            is_uuid_v4_text(r@.id),
    {
        HistoryEntry {
            id: new_id(),
            timestamp: now(),
            request: HistoryRequest {
                url: owned(url),
                method: method.clone(),
                headers: copy_pairs(headers),
                query_params: copy_pairs(params),
            },
            status_code: None,
            elapsed_ms: None,
            error: None,
        }
    }

    /// The entry with the response's status code and duration recorded.
    pub fn with_response(self, response: &ResponseData) -> (r: Self)
        ensures
            r@ == (HistoryEntryView {
                status_code: Some(response.status_code),
                elapsed_ms: Some(response.elapsed_ms),
                ..self@
            }),
    {
        let mut e = self;
        e.status_code = Some(response.status_code);
        e.elapsed_ms = Some(response.elapsed_ms);
        e
    }

    /// The entry with the error recorded.
    pub fn with_error(self, error: String) -> (r: Self)
        ensures
            r@ == (HistoryEntryView { error: Some(error@), ..self@ }),
    {
        let mut e = self;
        e.error = Some(error);
        e
    }
}

} // verus!

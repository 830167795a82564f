use ferrum::app::types::{KvTableState, RequestTab, ResponseTab};
use ferrum::models::collection::{Collection, RequestItem};
use ferrum::models::environment::Environment;
use ferrum::models::history::HistoryEntry;
use ferrum::models::request::{AuthConfig, HttpMethod, KeyValuePair};
use ferrum::models::response::ResponseData;

fn is_uuid_v4(s: &str) -> bool {
    let cs: Vec<char> = s.chars().collect();
    if cs.len() != 36 {
        return false;
    }
    for (i, c) in cs.iter().enumerate() {
        let ok = if i == 8 || i == 13 || i == 18 || i == 23 {
            *c == '-'
        } else {
            c.is_ascii_digit() || ('a'..='f').contains(c)
        };
        if !ok {
            return false;
        }
    }
    cs[14] == '4' && matches!(cs[19], '8' | '9' | 'a' | 'b')
}

fn response(size: usize) -> ResponseData {
    ResponseData {
        status_code: 200,
        status_text: "OK".to_string(),
        headers: Vec::new(),
        body: String::new(),
        elapsed_ms: 12,
        size_bytes: size,
    }
}

#[test]
fn test_method_as_str() {
    assert_eq!(HttpMethod::GET.as_str(), "GET");
    assert_eq!(HttpMethod::POST.as_str(), "POST");
    assert_eq!(HttpMethod::DELETE.as_str(), "DELETE");
}

#[test]
fn test_method_cycle() {
    assert_eq!(HttpMethod::GET.cycle_next(), HttpMethod::POST);
    assert_eq!(HttpMethod::OPTIONS.cycle_next(), HttpMethod::GET);
    assert_eq!(HttpMethod::GET.cycle_prev(), HttpMethod::OPTIONS);
}

#[test]
fn method_names_cover_every_method() {
    assert_eq!(HttpMethod::PUT.as_str(), "PUT");
    assert_eq!(HttpMethod::PATCH.as_str(), "PATCH");
    assert_eq!(HttpMethod::HEAD.as_str(), "HEAD");
    assert_eq!(HttpMethod::OPTIONS.as_str(), "OPTIONS");
}

#[test]
fn method_cycle_prev_undoes_next() {
    let all = [
        HttpMethod::GET,
        HttpMethod::POST,
        HttpMethod::PUT,
        HttpMethod::PATCH,
        HttpMethod::DELETE,
        HttpMethod::HEAD,
        HttpMethod::OPTIONS,
    ];
    for m in all.iter() {
        assert_eq!(&m.cycle_next().cycle_prev(), m);
        assert_eq!(&m.cycle_prev().cycle_next(), m);
        let mut x = m.clone();
        for _ in 0..7 {
            x = x.cycle_next();
        }
        assert_eq!(&x, m);
    }
}

#[test]
fn request_tab_index_roundtrip() {
    for t in [RequestTab::Headers, RequestTab::Body, RequestTab::Params, RequestTab::Auth] {
        assert_eq!(RequestTab::from_index(t.index()), t);
    }
    assert_eq!(RequestTab::from_index(6), RequestTab::Params);
    assert_eq!(RequestTab::Auth.label(), "Auth");
    assert_eq!(RequestTab::Params.index(), 2);
}

#[test]
fn response_tab_index_roundtrip() {
    for t in [ResponseTab::Body, ResponseTab::Headers, ResponseTab::Raw] {
        assert_eq!(ResponseTab::from_index(t.index()), t);
    }
    assert_eq!(ResponseTab::from_index(4), ResponseTab::Headers);
    assert_eq!(ResponseTab::Raw.label(), "Raw");
}

#[test]
fn kv_clamp_keeps_selection_in_range() {
    let mut kv = KvTableState { selected: 7, editing_col: None, edit_buf: String::new(), pending_dd: false };
    kv.clamp(3);
    assert_eq!(kv.selected, 2);
    kv.clamp(0);
    assert_eq!(kv.selected, 0);
    kv.selected = 1;
    kv.clamp(5);
    assert_eq!(kv.selected, 1);
}

#[test]
fn key_value_pair_new_is_enabled() {
    let kv = KeyValuePair::new("Accept", "text/plain");
    assert_eq!(kv.key, "Accept");
    assert_eq!(kv.value, "text/plain");
    assert!(kv.enabled);
}

#[test]
fn new_records_get_uuid_identifiers() {
    let c = Collection::new("API");
    assert_eq!(c.name, "API");
    assert!(c.expanded);
    assert!(c.requests.is_empty());
    assert!(is_uuid_v4(&c.id));
    let r = RequestItem::new("ping");
    assert_eq!(r.name, "ping");
    assert!(is_uuid_v4(&r.id));
    assert_eq!(r.config.method, HttpMethod::GET);
    assert!(r.config.url.is_empty());
    assert!(matches!(r.config.auth, AuthConfig::NoAuth));
    let e = Environment::new("dev");
    assert!(is_uuid_v4(&e.id));
    assert!(e.vars.is_empty());
    assert_ne!(Collection::new("x").id, Collection::new("x").id);
}

#[test]
fn status_display_joins_code_and_text() {
    let mut r = response(0);
    assert_eq!(r.status_display(), "200 OK");
    r.status_code = 404;
    r.status_text = "Not Found".to_string();
    assert_eq!(r.status_display(), "404 Not Found");
}

#[test]
fn size_display_units() {
    assert_eq!(response(0).size_display(), "0 B");
    assert_eq!(response(500).size_display(), "500 B");
    assert_eq!(response(1023).size_display(), "1023 B");
    assert_eq!(response(1024).size_display(), "1.0 KB");
    assert_eq!(response(1536).size_display(), "1.5 KB");
    assert_eq!(response(1048575).size_display(), "1024.0 KB");
    assert_eq!(response(1048576).size_display(), "1.0 MB");
    assert_eq!(response(5 * 1048576 / 2).size_display(), "2.5 MB");
}

#[test]
fn size_display_matches_float_formatting() {
    let sizes = [1100usize, 1126, 1177, 2047, 3840, 10239, 104857, 1153433, 1205862, 7340032, 123456789];
    for s in sizes {
        let expected = if s < 1024 {
            format!("{} B", s)
        } else if s < 1024 * 1024 {
            format!("{:.1} KB", s as f64 / 1024.0)
        } else {
            format!("{:.1} MB", s as f64 / (1024.0 * 1024.0))
        };
        assert_eq!(response(s).size_display(), expected, "size {}", s);
    }
}

#[test]
fn history_entry_records_request_and_outcome() {
    let headers = vec![KeyValuePair::new("A", "1")];
    let params = vec![KeyValuePair::new("q", "x")];
    let e = HistoryEntry::from_request("http://h", &HttpMethod::PUT, &headers, &params);
    assert_eq!(e.request.url, "http://h");
    assert_eq!(e.request.method, HttpMethod::PUT);
    assert_eq!(e.request.headers.len(), 1);
    assert_eq!(e.request.query_params[0].key, "q");
    assert!(e.status_code.is_none() && e.error.is_none() && e.elapsed_ms.is_none());
    assert!(is_uuid_v4(&e.id));
    let ok = e.with_response(&response(3));
    assert_eq!(ok.status_code, Some(200));
    assert_eq!(ok.elapsed_ms, Some(12));
    let e2 = HistoryEntry::from_request("u", &HttpMethod::GET, &[], &[]).with_error("boom".to_string());
    assert_eq!(e2.error.as_deref(), Some("boom"));
}

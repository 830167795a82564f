use ferrum::app::types::{DeleteTarget, FocusPanel};
use ferrum::models::collection::{Collection, RequestItem};
use ferrum::models::environment::Environment;
use ferrum::models::request::{HttpMethod, KeyValuePair};
use ferrum::models::response::ResponseData;
use ferrum::view::{
    delete_label, env_label, focus_label, is_json_response, mask_secret, method_tint, mode_label, status_tint, Tint,
    MASK_LIMIT,
};

fn resp(headers: Vec<KeyValuePair>, body: &str) -> ResponseData {
    ResponseData {
        status_code: 200,
        status_text: "OK".to_string(),
        headers,
        body: body.to_string(),
        elapsed_ms: 1,
        size_bytes: body.len(),
    }
}

#[test]
fn method_and_status_colours() {
    assert_eq!(method_tint(&HttpMethod::GET), Tint::Green);
    assert_eq!(method_tint(&HttpMethod::POST), Tint::Blue);
    assert_eq!(method_tint(&HttpMethod::PUT), Tint::Yellow);
    assert_eq!(method_tint(&HttpMethod::PATCH), Tint::Magenta);
    assert_eq!(method_tint(&HttpMethod::DELETE), Tint::Red);
    assert_eq!(method_tint(&HttpMethod::HEAD), Tint::Cyan);
    assert_eq!(method_tint(&HttpMethod::OPTIONS), Tint::Cyan);
    assert_eq!(status_tint(200), Tint::Green);
    assert_eq!(status_tint(299), Tint::Green);
    assert_eq!(status_tint(300), Tint::Yellow);
    assert_eq!(status_tint(399), Tint::Yellow);
    assert_eq!(status_tint(400), Tint::Red);
    assert_eq!(status_tint(503), Tint::Red);
}

#[test]
fn status_bar_labels() {
    assert_eq!(focus_label(&FocusPanel::Sidebar), "SIDEBAR");
    assert_eq!(focus_label(&FocusPanel::RequestUrl), "URL");
    assert_eq!(focus_label(&FocusPanel::RequestMethod), "METHOD");
    assert_eq!(focus_label(&FocusPanel::RequestTabs), "REQUEST");
    assert_eq!(focus_label(&FocusPanel::RequestBody), "BODY");
    assert_eq!(focus_label(&FocusPanel::ResponsePanel), "RESPONSE");
    assert_eq!(mode_label(true), " INSERT ");
    assert_eq!(mode_label(false), " NORMAL ");
    let envs = vec![Environment::new("dev")];
    assert_eq!(env_label(&envs, Some(0)), " env:dev ");
    assert_eq!(env_label(&envs, Some(1)), " no-env ");
    assert_eq!(env_label(&envs, None), " no-env ");
}

#[test]
fn delete_confirmation_names_the_target() {
    let mut c = Collection::new("API");
    c.requests.push(RequestItem::new("ping"));
    let cols = vec![c];
    assert_eq!(delete_label(&cols, &DeleteTarget::Collection(0)), "collection \"API\"");
    assert_eq!(delete_label(&cols, &DeleteTarget::Collection(3)), "item");
    assert_eq!(
        delete_label(&cols, &DeleteTarget::Request { collection_idx: 0, request_idx: 0 }),
        "request \"ping\""
    );
    assert_eq!(delete_label(&cols, &DeleteTarget::Request { collection_idx: 0, request_idx: 1 }), "request");
}

#[test]
fn secrets_are_masked_per_byte() {
    assert_eq!(mask_secret("abc", true), "***");
    assert_eq!(mask_secret("é", false), "**");
    assert_eq!(mask_secret("", true), "");
    let long = "x".repeat(100);
    assert_eq!(mask_secret(&long, true), "*".repeat(MASK_LIMIT));
    assert_eq!(mask_secret(&long, false), "*".repeat(100));
}

#[test]
fn json_detection_by_header_or_body() {
    let ct = vec![KeyValuePair::new("Content-Type", "Application/JSON; charset=utf-8")];
    assert!(is_json_response(&resp(ct, "not json at all")));
    let other = vec![KeyValuePair::new("content-type", "text/html")];
    assert!(!is_json_response(&resp(other, "<html>")));
    assert!(is_json_response(&resp(Vec::new(), " \n\t{\"a\":1}")));
    assert!(is_json_response(&resp(Vec::new(), "\u{a0}[1]")));
    assert!(!is_json_response(&resp(Vec::new(), "  x{")));
    assert!(!is_json_response(&resp(Vec::new(), "")));
    let wrong_name = vec![KeyValuePair::new("X-Content-Type", "json")];
    assert!(!is_json_response(&resp(wrong_name, "plain")));
}

use ferrum::app::state::App;
use ferrum::app::types::{ActiveModal, Effect, FocusPanel, RequestTab, ResponseTab, SidebarItem};
use ferrum::event::{AppEvent, KeyCode, KeyEvent};
use ferrum::models::collection::{Collection, RequestItem};
use ferrum::models::environment::{EnvVar, Environment};
use ferrum::models::request::{AuthConfig, HttpMethod, KeyValuePair};
use ferrum::models::response::ResponseData;

fn press(app: &mut App, code: KeyCode) -> bool {
    app.handle_event(AppEvent::Key(KeyEvent { code, ctrl: false }))
}

fn typ(app: &mut App, text: &str) {
    for c in text.chars() {
        press(app, KeyCode::Char(c));
    }
}

fn empty_app() -> App {
    App::new(Vec::new(), Vec::new(), Vec::new())
}

fn app_with_request(req: RequestItem, envs: Vec<Environment>) -> App {
    let mut col = Collection::new("col");
    col.requests.push(req);
    let mut app = App::new(vec![col], envs, Vec::new());
    press(&mut app, KeyCode::Char('j'));
    press(&mut app, KeyCode::Enter);
    app
}

fn sent_task(effects: &[Effect]) -> Option<&ferrum::event::HttpTask> {
    effects.iter().find_map(|e| match e {
        Effect::SendRequest(t) => Some(t),
        _ => None,
    })
}

#[test]
fn quit_keys() {
    let mut app = empty_app();
    assert!(!app.handle_event(AppEvent::Tick));
    assert!(app.handle_event(AppEvent::Key(KeyEvent { code: KeyCode::Char('c'), ctrl: true })));
    assert!(press(&mut app, KeyCode::Char('q')));
}

#[test]
fn creating_a_collection_and_a_request() {
    let mut app = empty_app();
    assert_eq!(app.focus, FocusPanel::Sidebar);
    press(&mut app, KeyCode::Char('n'));
    assert!(matches!(app.modal, ActiveModal::NewCollection { .. }));
    typ(&mut app, "APIx");
    press(&mut app, KeyCode::Backspace);
    press(&mut app, KeyCode::Enter);
    assert!(matches!(app.modal, ActiveModal::Closed));
    assert_eq!(app.collections.len(), 1);
    assert_eq!(app.collections[0].name, "API");
    assert_eq!(app.sidebar_items, vec![SidebarItem::Collection(0)]);
    let effects = app.take_effects();
    assert!(matches!(effects.as_slice(), [Effect::SaveCollection(0)]));
    assert!(app.take_effects().is_empty());

    press(&mut app, KeyCode::Char('N'));
    assert!(matches!(app.modal, ActiveModal::NewRequest { collection_idx: 0, .. }));
    typ(&mut app, "ping");
    press(&mut app, KeyCode::Enter);
    assert_eq!(app.collections[0].requests.len(), 1);
    assert_eq!(app.collections[0].requests[0].name, "ping");
    assert_eq!(
        app.sidebar_items,
        vec![SidebarItem::Collection(0), SidebarItem::Request { col: 0, req: 0 }]
    );
    assert!(matches!(app.take_effects().as_slice(), [Effect::SaveCollection(0)]));

    press(&mut app, KeyCode::Char('j'));
    assert_eq!(app.sidebar_cursor, 1);
    press(&mut app, KeyCode::Char('j'));
    assert_eq!(app.sidebar_cursor, 1);
    press(&mut app, KeyCode::Enter);
    assert_eq!(app.selected_collection, Some(0));
    assert_eq!(app.selected_request, Some(0));
    assert_eq!(app.focus, FocusPanel::RequestUrl);
}

#[test]
fn empty_collection_name_is_not_created() {
    let mut app = empty_app();
    press(&mut app, KeyCode::Char('n'));
    press(&mut app, KeyCode::Enter);
    assert!(app.collections.is_empty());
    assert!(matches!(app.modal, ActiveModal::Closed));
    press(&mut app, KeyCode::Char('n'));
    typ(&mut app, "x");
    press(&mut app, KeyCode::Esc);
    assert!(app.collections.is_empty());
}

#[test]
fn collapse_and_expand_collection() {
    let mut col = Collection::new("c");
    col.requests.push(RequestItem::new("r1"));
    col.requests.push(RequestItem::new("r2"));
    let mut app = App::new(vec![col], Vec::new(), Vec::new());
    assert_eq!(app.sidebar_items.len(), 3);
    press(&mut app, KeyCode::Enter);
    assert_eq!(app.sidebar_items.len(), 3);
    assert!(app.collections[0].expanded);
    press(&mut app, KeyCode::Char('h'));
    assert_eq!(app.sidebar_items, vec![SidebarItem::Collection(0)]);
    press(&mut app, KeyCode::Char('h'));
    assert!(!app.collections[0].expanded);
    press(&mut app, KeyCode::Char('l'));
    assert_eq!(app.sidebar_items.len(), 3);
    press(&mut app, KeyCode::Char('l'));
    assert!(app.collections[0].expanded);
    press(&mut app, KeyCode::Char('k'));
    assert_eq!(app.sidebar_cursor, 0);
}

#[test]
fn deleting_a_collection_with_dd() {
    let c = Collection::new("gone");
    let id = c.id.clone();
    let mut app = App::new(vec![c], Vec::new(), Vec::new());
    press(&mut app, KeyCode::Char('d'));
    assert_eq!(app.status_msg.as_deref(), Some("d again to delete"));
    press(&mut app, KeyCode::Char('d'));
    assert!(matches!(app.modal, ActiveModal::ConfirmDelete { .. }));
    press(&mut app, KeyCode::Char('x'));
    assert!(matches!(app.modal, ActiveModal::ConfirmDelete { .. }));
    press(&mut app, KeyCode::Char('y'));
    assert!(app.collections.is_empty());
    assert!(app.sidebar_items.is_empty());
    let effects = app.take_effects();
    assert!(matches!(effects.as_slice(), [Effect::DeleteCollection(d)] if *d == id));
}

#[test]
fn sending_from_the_url_bar() {
    let mut app = app_with_request(RequestItem::new("r"), Vec::new());
    app.take_effects();
    press(&mut app, KeyCode::Char('i'));
    assert!(app.insert_mode);
    typ(&mut app, "http://example.com/a");
    press(&mut app, KeyCode::Enter);
    assert!(!app.insert_mode);
    assert!(app.loading);
    assert_eq!(app.status_msg.as_deref(), Some("Sending..."));
    assert_eq!(app.collections[0].requests[0].config.url, "http://example.com/a");
    let effects = app.take_effects();
    assert!(matches!(effects[0], Effect::SaveCollection(0)));
    let task = sent_task(&effects).expect("a task is sent");
    assert_eq!(task.url, "http://example.com/a");
    assert_eq!(task.method, "GET");
    assert!(task.headers.is_empty());
    assert!(task.body.is_none());
    assert_eq!(task.request_id.len(), 36);
}

#[test]
fn empty_url_is_not_sent() {
    let mut app = app_with_request(RequestItem::new("r"), Vec::new());
    app.take_effects();
    press(&mut app, KeyCode::Enter);
    assert_eq!(app.status_msg.as_deref(), Some("URL is empty"));
    assert!(!app.loading);
    assert!(sent_task(&app.take_effects()).is_none());
}

#[test]
fn query_auth_and_environment_reach_the_task() {
    let mut req = RequestItem::new("r");
    req.config.url = "{{HOST}}/p".to_string();
    req.config.method = HttpMethod::POST;
    req.config.query_params.push(KeyValuePair::new("q", "a b"));
    req.config.query_params.push(KeyValuePair::new("t", "{{TOKEN}}"));
    req.config.headers.push(KeyValuePair::new("Accept", "application/json"));
    let mut off = KeyValuePair::new("X-Off", "1");
    off.enabled = false;
    req.config.headers.push(off);
    req.config.body = "{\"k\":\"{{TOKEN}}\"}".to_string();
    req.config.auth = AuthConfig::BasicAuth { username: "user".to_string(), password: "pass".to_string() };
    let mut env = Environment::new("dev");
    env.vars.push(EnvVar::new("HOST", "http://h.io"));
    env.vars.push(EnvVar::new("TOKEN", "t0k"));
    let mut app = app_with_request(req, vec![env]);

    press(&mut app, KeyCode::Char('e'));
    assert!(matches!(app.modal, ActiveModal::Environment));
    press(&mut app, KeyCode::Char('a'));
    assert_eq!(app.active_env_idx, Some(0));
    assert_eq!(app.status_msg.as_deref(), Some("Active env: dev"));
    press(&mut app, KeyCode::Esc);
    assert!(matches!(app.modal, ActiveModal::Closed));
    app.take_effects();

    press(&mut app, KeyCode::Enter);
    let effects = app.take_effects();
    let task = sent_task(&effects).expect("a task is sent");
    assert_eq!(task.url, "http://h.io/p?q=a%20b&t=t0k");
    assert_eq!(task.method, "POST");
    assert_eq!(
        task.headers,
        vec![
            ("Accept".to_string(), "application/json".to_string()),
            ("Authorization".to_string(), "Basic dXNlcjpwYXNz".to_string()),
        ]
    );
    assert_eq!(task.body.as_deref(), Some("{\"k\":\"t0k\"}"));
}

#[test]
fn bearer_and_api_key_headers() {
    let mut req = RequestItem::new("r");
    req.config.url = "http://h/x?a=1".to_string();
    req.config.query_params.push(KeyValuePair::new("b", "2"));
    req.config.auth = AuthConfig::BearerToken { token: "tok".to_string() };
    let mut app = app_with_request(req, Vec::new());
    press(&mut app, KeyCode::Enter);
    let effects = app.take_effects();
    let task = sent_task(&effects).unwrap();
    assert_eq!(task.url, "http://h/x?a=1&b=2");
    assert_eq!(task.headers, vec![("Authorization".to_string(), "Bearer tok".to_string())]);

    let mut req2 = RequestItem::new("r2");
    req2.config.url = "http://h".to_string();
    req2.config.auth = AuthConfig::ApiKey { header: "X-Key".to_string(), value: "secret".to_string() };
    let mut app2 = app_with_request(req2, Vec::new());
    press(&mut app2, KeyCode::Enter);
    let effects2 = app2.take_effects();
    assert_eq!(sent_task(&effects2).unwrap().headers, vec![("X-Key".to_string(), "secret".to_string())]);
}

#[test]
fn response_and_error_are_recorded() {
    let mut req = RequestItem::new("r");
    req.config.url = "http://h".to_string();
    let mut app = app_with_request(req, Vec::new());
    press(&mut app, KeyCode::Enter);
    app.take_effects();
    let response = ResponseData {
        status_code: 201,
        status_text: "Created".to_string(),
        headers: Vec::new(),
        body: "{\"a\":1}".to_string(),
        elapsed_ms: 5,
        size_bytes: 7,
    };
    let quit = app.handle_event(AppEvent::HttpResponse { response, _request_id: "id".to_string() });
    assert!(!quit);
    assert!(!app.loading);
    assert!(app.status_msg.is_none());
    let shown = app.response.as_ref().unwrap();
    assert_eq!(shown.body, "{\n  \"a\": 1\n}");
    assert_eq!(shown.status_code, 201);
    assert_eq!(app.history.len(), 1);
    assert_eq!(app.history[0].status_code, Some(201));
    assert_eq!(app.history[0].elapsed_ms, Some(5));
    assert_eq!(app.history[0].request.url, "http://h");
    let effects = app.take_effects();
    assert!(matches!(effects.as_slice(), [Effect::SaveHistory, Effect::HighlightResponse]));

    app.handle_event(AppEvent::HttpError { error: "boom".to_string(), _request_id: "id".to_string() });
    assert_eq!(app.status_msg.as_deref(), Some("Error: boom"));
    assert_eq!(app.history.len(), 2);
    assert_eq!(app.history[1].error.as_deref(), Some("boom"));
    assert!(matches!(app.take_effects().as_slice(), [Effect::SaveHistory]));
}

#[test]
fn focus_cycles_through_four_panels() {
    let mut app = empty_app();
    press(&mut app, KeyCode::Tab);
    assert_eq!(app.focus, FocusPanel::RequestUrl);
    press(&mut app, KeyCode::Tab);
    assert_eq!(app.focus, FocusPanel::RequestTabs);
    press(&mut app, KeyCode::Tab);
    assert_eq!(app.focus, FocusPanel::ResponsePanel);
    press(&mut app, KeyCode::Tab);
    assert_eq!(app.focus, FocusPanel::Sidebar);
    press(&mut app, KeyCode::BackTab);
    assert_eq!(app.focus, FocusPanel::ResponsePanel);
    press(&mut app, KeyCode::Char(']'));
    assert_eq!(app.response_tab, ResponseTab::Headers);
    press(&mut app, KeyCode::Char('['));
    press(&mut app, KeyCode::Char('['));
    assert_eq!(app.response_tab, ResponseTab::Raw);
    press(&mut app, KeyCode::Char('k'));
    assert_eq!(app.response_scroll, 0);
    press(&mut app, KeyCode::Char('j'));
    assert_eq!(app.response_scroll, 1);
}

#[test]
fn editing_a_header_row() {
    let mut app = app_with_request(RequestItem::new("r"), Vec::new());
    press(&mut app, KeyCode::Tab);
    assert_eq!(app.focus, FocusPanel::RequestTabs);
    assert_eq!(app.request_tab, RequestTab::Headers);
    press(&mut app, KeyCode::Char('o'));
    assert_eq!(app.edit_headers.len(), 1);
    assert_eq!(app.headers_kv.editing_col, Some(0));
    typ(&mut app, "Xq");
    press(&mut app, KeyCode::Tab);
    assert_eq!(app.headers_kv.editing_col, Some(1));
    typ(&mut app, "v");
    press(&mut app, KeyCode::Enter);
    assert_eq!(app.headers_kv.editing_col, None);
    assert_eq!(app.edit_headers[0].key, "Xq");
    assert_eq!(app.edit_headers[0].value, "v");
    assert_eq!(app.collections[0].requests[0].config.headers[0].key, "Xq");
    press(&mut app, KeyCode::Char(' '));
    assert!(!app.edit_headers[0].enabled);
    press(&mut app, KeyCode::Char('d'));
    press(&mut app, KeyCode::Char('d'));
    assert!(app.edit_headers.is_empty());
    assert_eq!(app.headers_kv.selected, 0);
    press(&mut app, KeyCode::Char('4'));
    assert_eq!(app.request_tab, RequestTab::Auth);
    // On the Auth tab the digits pick the kind of authentication.
    press(&mut app, KeyCode::Char('2'));
    assert_eq!(app.request_tab, RequestTab::Auth);
    assert!(matches!(app.edit_auth, AuthConfig::BearerToken { ref token } if token.is_empty()));
    assert!(matches!(app.collections[0].requests[0].config.auth, AuthConfig::BearerToken { .. }));
    press(&mut app, KeyCode::Char('3'));
    assert!(matches!(app.edit_auth, AuthConfig::BasicAuth { .. }));
    press(&mut app, KeyCode::Char('4'));
    assert!(matches!(app.edit_auth, AuthConfig::ApiKey { .. }));
    press(&mut app, KeyCode::Char('1'));
    assert!(matches!(app.edit_auth, AuthConfig::NoAuth));
    assert_eq!(app.request_tab, RequestTab::Auth);
    press(&mut app, KeyCode::Char(']'));
    assert_eq!(app.request_tab, RequestTab::Headers);
    press(&mut app, KeyCode::Char('3'));
    assert_eq!(app.request_tab, RequestTab::Params);
}

#[test]
fn method_selector_cycles_and_saves() {
    let mut app = app_with_request(RequestItem::new("r"), Vec::new());
    press(&mut app, KeyCode::Char('m'));
    assert_eq!(app.focus, FocusPanel::RequestMethod);
    press(&mut app, KeyCode::Char('j'));
    assert_eq!(app.edit_method, HttpMethod::POST);
    assert_eq!(app.collections[0].requests[0].config.method, HttpMethod::POST);
    press(&mut app, KeyCode::Char('k'));
    press(&mut app, KeyCode::Char('k'));
    assert_eq!(app.edit_method, HttpMethod::OPTIONS);
    press(&mut app, KeyCode::Esc);
    assert_eq!(app.focus, FocusPanel::RequestUrl);
}

#[test]
fn environment_editor_adds_and_edits_variables() {
    let mut app = empty_app();
    press(&mut app, KeyCode::Char('e'));
    press(&mut app, KeyCode::Char('n'));
    assert_eq!(app.environments.len(), 1);
    assert_eq!(app.environments[0].name, "env-1");
    let effects = app.take_effects();
    assert!(matches!(effects.as_slice(), [Effect::SaveEnvironment(0)]));
    press(&mut app, KeyCode::Char('o'));
    assert_eq!(app.environments[0].vars.len(), 1);
    assert_eq!(app.env_editing, Some((0, 0)));
    typ(&mut app, "K");
    press(&mut app, KeyCode::Enter);
    assert_eq!(app.environments[0].vars[0].key, "K");
    assert_eq!(app.env_editing, Some((0, 1)));
    typ(&mut app, "V");
    press(&mut app, KeyCode::Tab);
    assert_eq!(app.environments[0].vars[0].value, "V");
    assert_eq!(app.env_editing, None);
    assert!(app.env_edit_buf.is_empty());
    press(&mut app, KeyCode::Char('q'));
    assert!(matches!(app.modal, ActiveModal::Closed));
}

#[test]
fn help_modal_opens_and_closes() {
    let mut app = empty_app();
    press(&mut app, KeyCode::Char('?'));
    assert!(matches!(app.modal, ActiveModal::Help));
    assert!(!press(&mut app, KeyCode::Char('x')));
    assert!(matches!(app.modal, ActiveModal::Help));
    assert!(!press(&mut app, KeyCode::Char('q')));
    assert!(matches!(app.modal, ActiveModal::Closed));
}

#[test]
fn enter_on_a_table_edits_the_selected_row() {
    let mut req = RequestItem::new("r");
    req.config.headers.push(KeyValuePair::new("Accept", "*/*"));
    let mut app = app_with_request(req, Vec::new());
    press(&mut app, KeyCode::Tab);
    assert_eq!(app.focus, FocusPanel::RequestTabs);
    press(&mut app, KeyCode::Enter);
    assert_eq!(app.focus, FocusPanel::RequestTabs);
    assert_eq!(app.headers_kv.editing_col, Some(0));
    assert_eq!(app.headers_kv.edit_buf, "Accept");
    assert_eq!(app.edit_headers[0].key, "Accept");
    press(&mut app, KeyCode::Char('3'));
    assert_eq!(app.request_tab, RequestTab::Params);
    press(&mut app, KeyCode::Enter);
    assert_eq!(app.focus, FocusPanel::RequestTabs);
    assert_eq!(app.params_kv.editing_col, None);
    press(&mut app, KeyCode::Char('2'));
    press(&mut app, KeyCode::Enter);
    assert_eq!(app.focus, FocusPanel::RequestBody);
}

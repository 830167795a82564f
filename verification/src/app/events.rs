//! The entry points: building the state, and reacting to one event.
use vstd::prelude::*;

use crate::app::keys::{
    focus_cycled, insert_step, method_after, response_after, sidebar_after, tabs_after, url_step,
};
use crate::app::modal::modal_step;
use crate::app::state::{
    lemma_counts_fit, lemma_rebuilt_wf, rebuilt, var_capacity, App, AppView,
};
use crate::app::types::{
    effects_view, idle_table, ActiveModal, Effect, EffectView, FocusPanel, KvTableState, ModalView,
    RequestTab, ResponseTab, SidebarItem,
};
use crate::event::{AppEvent, KeyCode, KeyEvent};
use crate::ids::is_uuid_v4_text;
use crate::models::collection::{collections_view, Collection};
use crate::models::environment::{environments_view, Environment};
use crate::models::history::{history_view, HistoryEntry, HistoryEntryView, HistoryRequestView};
use crate::models::request::{pairs_view, AuthConfig, AuthView, HttpMethod};
use crate::models::response::ResponseView;
use crate::text::owned;
use crate::utils::json_format::{pretty_print, pretty_printed};

verus! {

/// The state of a freshly started client holding the given data: nothing
/// selected, an empty GET request in the editor, focus on the sidebar, no
/// dialog, no response.
pub open spec fn started(
    collections: Seq<Collection>,
    environments: Seq<Environment>,
    history: Seq<HistoryEntry>,
) -> AppView {
    rebuilt(
        AppView {
            collections: collections_view(collections),
            environments: environments_view(environments),
            active_env_idx: None,
            history: history_view(history),
            sidebar_cursor: 0,
            sidebar_items: Seq::empty(),
            selected_collection: None,
            selected_request: None,
            edit_url: Seq::empty(),
            edit_method: HttpMethod::GET,
            edit_headers: Seq::empty(),
            edit_params: Seq::empty(),
            edit_body: Seq::empty(),
            edit_auth: AuthView::NoAuth,
            focus: FocusPanel::Sidebar,
            request_tab: RequestTab::Headers,
            response_tab: ResponseTab::Body,
            headers_kv: idle_table(),
            params_kv: idle_table(),
            response: None,
            response_scroll: 0,
            loading: false,
            status_msg: None,
            modal: ModalView::Closed,
            env_list_cursor: 0,
            env_var_cursor: 0,
            env_editing: None,
            env_edit_buf: Seq::empty(),
            dd_count: 0,
            insert_mode: false,
            effects: Seq::empty(),
        },
    )
}

/// What a key does on the main screen, by focused panel.
pub open spec fn panel_step(s: AppView, k: KeyEvent, t: AppView) -> bool {
    match s.focus {
        FocusPanel::Sidebar => t == sidebar_after(s, k),
        FocusPanel::RequestUrl => url_step(s, k, t),
        FocusPanel::RequestMethod => t == method_after(s, k),
        FocusPanel::RequestTabs => t == tabs_after(s, k),
        FocusPanel::RequestBody => t == s,
        FocusPanel::ResponsePanel => t == response_after(s, k),
    }
}

/// What a key does, and whether it quits: Ctrl-C always quits; an open
/// dialog takes every other key, then insert mode; outside cell editing
/// `q` quits, Tab/Shift-Tab move focus, `?` opens the help and `e` the
/// environment editor; everything else goes to the focused panel.
pub open spec fn key_step(s: AppView, k: KeyEvent, t: AppView, quit: bool) -> bool {
    if k.code == KeyCode::Char('c') && k.ctrl {
        quit && t == s
    } else if !(s.modal is Closed) {
        !quit && modal_step(s, k, t)
    } else if s.insert_mode {
        !quit && insert_step(s, k, t)
    } else if !App::kv_editing(s) && k.code == KeyCode::Char('q') {
        quit && t == s
    } else if !App::kv_editing(s) && k.code == KeyCode::Tab {
        !quit && t == focus_cycled(s, true)
    } else if !App::kv_editing(s) && k.code == KeyCode::BackTab {
        !quit && t == focus_cycled(s, false)
    } else if !App::kv_editing(s) && k.code == KeyCode::Char('?') {
        !quit && t == AppView { modal: ModalView::Help, ..s }
    } else if !App::kv_editing(s) && k.code == KeyCode::Char('e') {
        !quit && t == AppView { modal: ModalView::Environment, ..s }
    } else {
        !quit && panel_step(s, k, t)
    }
}

/// A history entry for the request in the editor of `s`, with the given
/// outcome.
pub open spec fn logs_request(
    e: HistoryEntryView,
    s: AppView,
    status_code: Option<u16>,
    elapsed_ms: Option<u128>,
    error: Option<Seq<char>>,
) -> bool {
    &&& e.request == (HistoryRequestView {
        url: s.edit_url,
        method: s.edit_method,
        headers: s.edit_headers,
        query_params: s.edit_params,
    })
    &&& e.status_code == status_code
    &&& e.elapsed_ms == elapsed_ms
    &&& e.error == error
    &&& is_uuid_v4_text(e.id)
}

/// `t` is `s` after a response arrives: it is shown (body pretty-printed,
/// scrolled to the top, highlighted), logged to history, and loading ends.
pub open spec fn response_received(s: AppView, r: ResponseView, t: AppView) -> bool {
    exists|e: HistoryEntryView|
        #![trigger s.history.push(e)]
        logs_request(e, s, Some(r.status_code), Some(r.elapsed_ms), None) && t == AppView {
            loading: false,
            status_msg: None,
            history: s.history.push(e),
            effects: s.effects.push(EffectView::SaveHistory).push(EffectView::HighlightResponse),
            response: Some(ResponseView { body: pretty_printed(r.body), ..r }),
            response_scroll: 0,
            ..s
        }
}

/// `t` is `s` after a request fails: the error is shown and logged, and
/// loading ends.
pub open spec fn error_received(s: AppView, err: Seq<char>, t: AppView) -> bool {
    exists|e: HistoryEntryView|
        #![trigger s.history.push(e)]
        logs_request(e, s, None, None, Some(err)) && t == AppView {
            loading: false,
            status_msg: Some("Error: "@ + err),
            history: s.history.push(e),
            effects: s.effects.push(EffectView::SaveHistory),
            ..s
        }
}

impl App {
    /// A client holding the given saved data.
    pub fn new(
        collections: Vec<Collection>,
        environments: Vec<Environment>,
        history: Vec<HistoryEntry>,
    ) -> (r: App)
        requires
            forall|i: int|
                0 <= i < environments@.len() ==> #[trigger] environments@[i].vars@.len()
                    < var_capacity(),
        ensures
            r@ == started(collections@, environments@, history@),
            r.wf(),
    {
        let mut app = App {
            collections,
            environments,
            active_env_idx: None,
            history,
            sidebar_cursor: 0,
            sidebar_items: Vec::new(),
            selected_collection: None,
            selected_request: None,
            edit_url: String::new(),
            edit_method: HttpMethod::GET,
            edit_headers: Vec::new(),
            edit_params: Vec::new(),
            edit_body: String::new(),
            edit_auth: AuthConfig::NoAuth,
            focus: FocusPanel::Sidebar,
            request_tab: RequestTab::Headers,
            response_tab: ResponseTab::Body,
            headers_kv: KvTableState::default(),
            params_kv: KvTableState::default(),
            response: None,
            response_scroll: 0,
            loading: false,
            status_msg: None,
            modal: ActiveModal::Closed,
            env_list_cursor: 0,
            env_var_cursor: 0,
            env_editing: None,
            env_edit_buf: String::new(),
            dd_count: 0,
            insert_mode: false,
            effects: Vec::new(),
        };
        proof {
            assert(pairs_view(app.edit_headers@) =~= Seq::empty());
            assert(pairs_view(app.edit_params@) =~= Seq::empty());
            assert(effects_view(app.effects@) =~= Seq::empty());
            assert(app.sidebar_items@ =~= Seq::<SidebarItem>::empty());
            let ev = app@.environments;
            assert forall|i: int| 0 <= i < ev.len() implies #[trigger] ev[i].vars.len() < var_capacity() by {
                assert(ev[i].vars.len() == app.environments@[i].vars@.len());
            }
        }
        let ghost s0 = app@;
        app.rebuild_sidebar();
        proof {
            lemma_rebuilt_wf(s0);
        }
        app
    }

    pub fn handle_key(&mut self, key: KeyEvent) -> (quit: bool)
        requires
            old(self).wf(),
        ensures
            key_step(old(self)@, key, final(self)@, quit),
            final(self).wf(),
    {
        // Global quit
        if key.code == KeyCode::Char('c') && key.ctrl {
            return true;
        }
        // Modal handling takes priority
        if !matches!(self.modal, ActiveModal::Closed) {
            return self.handle_modal_key(key);
        }
        // Insert mode for URL / body
        if self.insert_mode {
            return self.handle_insert_key(key);
        }
        let editing = self.is_kv_editing();
        if !editing && key.code == KeyCode::Char('q') {
            return true;
        } else if !editing && key.code == KeyCode::Tab {
            self.cycle_focus(1);
        } else if !editing && key.code == KeyCode::BackTab {
            self.cycle_focus(-1);
        } else if !editing && key.code == KeyCode::Char('?') {
            self.modal = ActiveModal::Help;
        } else if !editing && key.code == KeyCode::Char('e') {
            self.modal = ActiveModal::Environment;
        } else {
            match self.focus {
                FocusPanel::Sidebar => self.handle_sidebar_key(key),
                FocusPanel::RequestUrl => self.handle_url_key(key),
                FocusPanel::RequestMethod => self.handle_method_key(key),
                FocusPanel::RequestTabs => self.handle_request_tabs_key(key),
                FocusPanel::RequestBody => self.handle_request_body_key(key),
                FocusPanel::ResponsePanel => self.handle_response_key(key),
            }
        }
        false
    }

    fn log_entry(&self) -> (e: HistoryEntry)
        ensures
            logs_request(e@, self@, None, None, None),
    {
        HistoryEntry::from_request(
            self.edit_url.as_str(),
            &self.edit_method,
            self.edit_headers.as_slice(),
            self.edit_params.as_slice(),
        )
    }

    fn push_history(&mut self, entry: HistoryEntry)
        ensures
            final(self)@ == (AppView {
                history: old(self)@.history.push(entry@),
                effects: old(self)@.effects.push(EffectView::SaveHistory),
                ..old(self)@
            }),
    {
        let ghost old_history = self.history@;
        let ghost old_effects = self.effects@;
        let ghost ev = entry@;
        self.history.push(entry);
        self.effects.push(Effect::SaveHistory);
        assert(history_view(self.history@) =~= history_view(old_history).push(ev));
        assert(effects_view(self.effects@) =~= effects_view(old_effects).push(EffectView::SaveHistory));
    }

    pub fn handle_event(&mut self, event: AppEvent) -> (quit: bool)
        requires
            old(self).wf(),
        ensures
            final(self).wf(),
            match event {
                AppEvent::Tick => !quit && final(self)@ == old(self)@,
                AppEvent::Key(k) => key_step(old(self)@, k, final(self)@, quit),
                AppEvent::HttpResponse { response, .. } => !quit && response_received(
                    old(self)@,
                    response@,
                    final(self)@,
                ),
                AppEvent::HttpError { error, .. } => !quit && error_received(
                    old(self)@,
                    error@,
                    final(self)@,
                ),
            },
    {
        match event {
            AppEvent::Tick => {
                // nothing to update on tick currently
                false
            },
            AppEvent::Key(key) => self.handle_key(key),
            AppEvent::HttpResponse { mut response, .. } => {
                let ghost s0 = self@;
                let ghost r0 = response@;
                self.loading = false;
                self.status_msg = None;
                // Pretty-print JSON body in place
                response.body = pretty_print(response.body.as_str());
                // Log sanitized entry to history (no auth credentials)
                let entry = self.log_entry().with_response(&response);
                let ghost e = entry@;
                self.push_history(entry);
                let ghost old_effects = self.effects@;
                self.effects.push(Effect::HighlightResponse);
                assert(effects_view(self.effects@) =~= effects_view(old_effects).push(
                    EffectView::HighlightResponse,
                ));
                self.response = Some(response);
                self.response_scroll = 0;
                assert(logs_request(e, s0, Some(r0.status_code), Some(r0.elapsed_ms), None));
                assert(self@.environments == s0.environments);
                assert(self@.collections == s0.collections);
                assert(self@.wf());
                false
            },
            AppEvent::HttpError { error, .. } => {
                let ghost s0 = self@;
                self.loading = false;
                let mut msg = owned("Error: ");
                msg.push_str(error.as_str());
                self.status_msg = Some(msg);
                let ghost err = error@;
                let entry = self.log_entry().with_error(error);
                let ghost e = entry@;
                self.push_history(entry);
                assert(logs_request(e, s0, None, None, Some(err)));
                assert(self@.environments == s0.environments);
                assert(self@.collections == s0.collections);
                assert(self@.wf());
                false
            },
        }
    }
}

} // verus!

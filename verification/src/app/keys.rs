//! What a key does in each panel of the main screen.
use vstd::prelude::*;

use crate::app::send::send_step;
use crate::app::state::{
    lemma_counts_fit, lemma_loaded_wf, lemma_rebuilt_wf, lemma_saved_wf, lemma_sidebar_valid, loaded,
    rebuilt, saved, sidebar_layout, App, AppView,
};
use crate::app::types::{
    clamped, request_tab_at, response_tab_at, ActiveModal, DeleteTarget, FocusPanel, KvTableState,
    KvView, ModalView, RequestTab, ResponseTab, SidebarItem,
};
use crate::event::{KeyCode, KeyEvent};
use crate::models::collection::{collections_view, CollectionView};
use crate::models::request::{pairs_view, AuthConfig, AuthView, KeyValuePair, PairView};
use crate::text::owned;

verus! {

// ── Focus ring ───────────────────────────────────────────────────────────────

/// The place of a panel in the Tab ring (panels outside the ring count as
/// the sidebar's place).
pub open spec fn ring_position(f: FocusPanel) -> int {
    match f {
        FocusPanel::RequestUrl => 1,
        FocusPanel::RequestTabs => 2,
        FocusPanel::ResponsePanel => 3,
        _ => 0,
    }
}

/// The panel at a place of the Tab ring.
pub open spec fn ring_panel(i: int) -> FocusPanel {
    if i == 0 {
        FocusPanel::Sidebar
    } else if i == 1 {
        FocusPanel::RequestUrl
    } else if i == 2 {
        FocusPanel::RequestTabs
    } else {
        FocusPanel::ResponsePanel
    }
}

/// The state after focus moves one place forward (or back) around the ring
/// sidebar, URL, request tabs, response; insert mode ends.
pub open spec fn focus_cycled(s: AppView, forward: bool) -> AppView {
    AppView {
        focus: ring_panel(
            if forward {
                (ring_position(s.focus) + 1) % 4
            } else {
                (ring_position(s.focus) + 3) % 4
            },
        ),
        insert_mode: false,
        ..s
    }
}

/// Four steps around the focus ring come back to the start.
pub proof fn lemma_focus_ring_period(s: AppView)
    requires
        s.focus == FocusPanel::Sidebar || s.focus == FocusPanel::RequestUrl || s.focus
            == FocusPanel::RequestTabs || s.focus == FocusPanel::ResponsePanel,
    ensures
        focus_cycled(focus_cycled(focus_cycled(focus_cycled(s, true), true), true), true).focus
            == s.focus,
        focus_cycled(focus_cycled(s, true), false).focus == s.focus,
        focus_cycled(focus_cycled(s, false), true).focus == s.focus,
{
}

// ── Sidebar ──────────────────────────────────────────────────────────────────

/// The sidebar row under the cursor, if the cursor is on a row.
pub open spec fn item_at_cursor(s: AppView) -> Option<SidebarItem> {
    if s.sidebar_cursor < s.sidebar_items.len() {
        Some(s.sidebar_items[s.sidebar_cursor as int])
    } else {
        None
    }
}

/// The state with collection `ci` expanded or collapsed.
pub open spec fn with_expanded(s: AppView, ci: usize, expanded: bool) -> AppView {
    AppView {
        collections: s.collections.update(
            ci as int,
            CollectionView { expanded, ..s.collections[ci as int] },
        ),
        ..s
    }
}

/// What deleting a sidebar row would delete.
pub open spec fn delete_target(item: SidebarItem) -> DeleteTarget {
    match item {
        SidebarItem::Collection(ci) => DeleteTarget::Collection(ci),
        SidebarItem::Request { col, req } => DeleteTarget::Request {
            collection_idx: col,
            request_idx: req,
        },
    }
}

/// What a key does in the sidebar: `j`/`k` move the cursor, `l`/Enter
/// expand a collection or open a request, `h` collapses, `n`/`N` start a new
/// collection or request, `dd` asks to delete the row; any other key cancels
/// a pending `d`.
pub open spec fn sidebar_after(s: AppView, k: KeyEvent) -> AppView {
    let len = s.sidebar_items.len();
    let cur = s.sidebar_cursor;
    match k.code {
        KeyCode::Char('j') | KeyCode::Down => if len > 0 && cur < len - 1 {
            AppView { sidebar_cursor: (cur + 1) as usize, ..s }
        } else {
            s
        },
        KeyCode::Char('k') | KeyCode::Up => if cur > 0 {
            AppView { sidebar_cursor: (cur - 1) as usize, ..s }
        } else {
            s
        },
        KeyCode::Char('l') | KeyCode::Enter => match item_at_cursor(s) {
            Some(SidebarItem::Collection(ci)) => rebuilt(with_expanded(s, ci, true)),
            Some(SidebarItem::Request { col, req }) => AppView {
                focus: FocusPanel::RequestUrl,
                ..loaded(AppView { selected_collection: Some(col), selected_request: Some(req), ..s })
            },
            None => s,
        },
        KeyCode::Char('h') => match item_at_cursor(s) {
            Some(SidebarItem::Collection(ci)) => rebuilt(with_expanded(s, ci, false)),
            _ => s,
        },
        KeyCode::Char('n') => AppView { modal: ModalView::NewCollection { name: Seq::empty() }, ..s },
        KeyCode::Char('N') => match item_at_cursor(s) {
            Some(SidebarItem::Collection(ci)) => AppView {
                modal: ModalView::NewRequest { name: Seq::empty(), collection_idx: ci },
                ..s
            },
            Some(SidebarItem::Request { col, req }) => AppView {
                modal: ModalView::NewRequest { name: Seq::empty(), collection_idx: col },
                ..s
            },
            None => if s.collections.len() > 0 {
                AppView { modal: ModalView::NewRequest { name: Seq::empty(), collection_idx: 0 }, ..s }
            } else {
                s
            },
        },
        KeyCode::Char('d') => if s.dd_count + 1 >= 2 {
            match item_at_cursor(s) {
                Some(item) => AppView {
                    dd_count: 0,
                    status_msg: None,
                    modal: ModalView::ConfirmDelete { target: delete_target(item) },
                    ..s
                },
                None => AppView { dd_count: 0, status_msg: None, ..s },
            }
        } else {
            AppView { dd_count: (s.dd_count + 1) as u8, status_msg: Some("d again to delete"@), ..s }
        },
        _ => AppView { dd_count: 0, status_msg: None, ..s },
    }
}

// ── URL bar and method selector ──────────────────────────────────────────────

/// What a key does on the URL bar: `i` enters insert mode, Enter saves and
/// sends, `m` moves to the method selector.
pub open spec fn url_step(s: AppView, k: KeyEvent, t: AppView) -> bool {
    match k.code {
        KeyCode::Char('i') => t == AppView { insert_mode: true, ..s },
        KeyCode::Enter => send_step(saved(s), t),
        KeyCode::Char('m') => t == AppView { focus: FocusPanel::RequestMethod, ..s },
        _ => t == s,
    }
}

/// What a key does on the method selector: `j`/`k` step through the methods
/// (and save), Enter/Esc go back to the URL bar.
pub open spec fn method_after(s: AppView, k: KeyEvent) -> AppView {
    match k.code {
        KeyCode::Char('j') | KeyCode::Down => saved(AppView { edit_method: s.edit_method.next(), ..s }),
        KeyCode::Char('k') | KeyCode::Up => saved(AppView { edit_method: s.edit_method.prev(), ..s }),
        KeyCode::Enter | KeyCode::Esc => AppView { focus: FocusPanel::RequestUrl, ..s },
        _ => s,
    }
}

// ── Header / parameter tables ────────────────────────────────────────────────

/// What a key does to a header or parameter table and its rows, and whether
/// the request is then saved. While a cell is edited, keys type into it and
/// Tab/Enter commit it (key, then value); otherwise `j`/`k` move, `o` adds a
/// row, `dd` deletes one, Space toggles it and Enter starts editing its key.
pub open spec fn table_after(kv: KvView, rows: Seq<PairView>, k: KeyEvent) -> (KvView, Seq<PairView>, bool) {
    let idx = kv.selected;
    match kv.editing_col {
        Some(col) => match k.code {
            KeyCode::Char(c) => (KvView { edit_buf: kv.edit_buf.push(c), ..kv }, rows, false),
            KeyCode::Backspace => (
                KvView {
                    edit_buf: if kv.edit_buf.len() > 0 {
                        kv.edit_buf.drop_last()
                    } else {
                        kv.edit_buf
                    },
                    ..kv
                },
                rows,
                false,
            ),
            KeyCode::Tab | KeyCode::Enter => (
                KvView {
                    edit_buf: Seq::empty(),
                    editing_col: if col == 0 {
                        Some(1)
                    } else {
                        None
                    },
                    ..kv
                },
                if idx < rows.len() {
                    rows.update(
                        idx as int,
                        if col == 0 {
                            PairView { key: kv.edit_buf, ..rows[idx as int] }
                        } else {
                            PairView { value: kv.edit_buf, ..rows[idx as int] }
                        },
                    )
                } else {
                    rows
                },
                true,
            ),
            KeyCode::Esc => (KvView { editing_col: None, edit_buf: Seq::empty(), ..kv }, rows, false),
            _ => (kv, rows, false),
        },
        None => match k.code {
            KeyCode::Char('j') | KeyCode::Down => if idx + 1 < rows.len() {
                (KvView { selected: (idx + 1) as usize, ..kv }, rows, false)
            } else {
                (kv, rows, false)
            },
            KeyCode::Char('k') | KeyCode::Up => if idx > 0 {
                (KvView { selected: (idx - 1) as usize, ..kv }, rows, false)
            } else {
                (kv, rows, false)
            },
            KeyCode::Char('o') => (
                KvView {
                    selected: rows.len() as usize,
                    editing_col: Some(0),
                    edit_buf: Seq::empty(),
                    ..kv
                },
                rows.push(PairView { key: Seq::empty(), value: Seq::empty(), enabled: true }),
                false,
            ),
            KeyCode::Char('d') => if kv.pending_dd {
                if idx < rows.len() {
                    (
                        KvView {
                            pending_dd: false,
                            selected: clamped(idx, (rows.len() - 1) as usize),
                            ..kv
                        },
                        rows.remove(idx as int),
                        true,
                    )
                } else {
                    (KvView { pending_dd: false, ..kv }, rows, true)
                }
            } else {
                (KvView { pending_dd: true, ..kv }, rows, false)
            },
            KeyCode::Char(' ') => (
                kv,
                if idx < rows.len() {
                    rows.update(idx as int, PairView { enabled: !rows[idx as int].enabled, ..rows[idx as int] })
                } else {
                    rows
                },
                true,
            ),
            KeyCode::Enter => if idx < rows.len() {
                (KvView { editing_col: Some(0), edit_buf: rows[idx as int].key, ..kv }, rows, false)
            } else {
                (kv, rows, false)
            },
            _ => (kv, rows, false),
        },
    }
}

/// The state after a key in the headers table (`headers`) or the
/// parameters table.
pub open spec fn kv_after(s: AppView, k: KeyEvent, headers: bool) -> AppView {
    if headers {
        let (kv, rows, save) = table_after(s.headers_kv, s.edit_headers, k);
        let t = AppView { headers_kv: kv, edit_headers: rows, ..s };
        if save {
            saved(t)
        } else {
            t
        }
    } else {
        let (kv, rows, save) = table_after(s.params_kv, s.edit_params, k);
        let t = AppView { params_kv: kv, edit_params: rows, ..s };
        if save {
            saved(t)
        } else {
            t
        }
    }
}

/// What a key does on the Auth tab: `1` to `4` pick no authentication, a
/// bearer token, basic credentials or an API key (keeping the current
/// fields when the kind does not change); the request is then saved.
pub open spec fn auth_after(s: AppView, k: KeyEvent) -> AppView {
    let a = match k.code {
        KeyCode::Char('1') => AuthView::NoAuth,
        KeyCode::Char('2') => if s.edit_auth is BearerToken {
            s.edit_auth
        } else {
            AuthView::BearerToken { token: Seq::empty() }
        },
        KeyCode::Char('3') => if s.edit_auth is BasicAuth {
            s.edit_auth
        } else {
            AuthView::BasicAuth { username: Seq::empty(), password: Seq::empty() }
        },
        KeyCode::Char('4') => if s.edit_auth is ApiKey {
            s.edit_auth
        } else {
            AuthView::ApiKey { header: Seq::empty(), value: Seq::empty() }
        },
        _ => s.edit_auth,
    };
    saved(AppView { edit_auth: a, ..s })
}

/// The tab a digit key jumps to: `1` to `4` name Headers, Body, Params and
/// Auth.
pub open spec fn tab_for_digit(c: KeyCode) -> Option<RequestTab> {
    match c {
        KeyCode::Char('1') => Some(RequestTab::Headers),
        KeyCode::Char('2') => Some(RequestTab::Body),
        KeyCode::Char('3') => Some(RequestTab::Params),
        KeyCode::Char('4') => Some(RequestTab::Auth),
        _ => None,
    }
}

/// What a key does on the request tabs: `[`/`]` switch tabs, and so do `1`
/// to `4` except on the Auth tab, where they pick the kind of
/// authentication. Enter on the Body or Auth tab moves to the body; on a
/// table it edits the selected row. Other keys go to the current tab.
pub open spec fn tabs_after(s: AppView, k: KeyEvent) -> AppView {
    let pos = s.request_tab.position();
    match k.code {
        KeyCode::Char('[') => AppView { request_tab: request_tab_at((pos + 3) % 4), ..s },
        KeyCode::Char(']') => AppView { request_tab: request_tab_at((pos + 1) % 4), ..s },
        _ => if s.request_tab != RequestTab::Auth && tab_for_digit(k.code) is Some {
            AppView { request_tab: tab_for_digit(k.code)->0, ..s }
        } else if k.code == KeyCode::Enter && (s.request_tab == RequestTab::Body
            || s.request_tab == RequestTab::Auth) {
            AppView { focus: FocusPanel::RequestBody, ..s }
        } else {
            match s.request_tab {
                RequestTab::Headers => kv_after(s, k, true),
                RequestTab::Params => kv_after(s, k, false),
                RequestTab::Body => if k.code == KeyCode::Char('i') {
                    AppView { focus: FocusPanel::RequestBody, insert_mode: true, ..s }
                } else {
                    s
                },
                RequestTab::Auth => auth_after(s, k),
            }
        },
    }
}

// ── Response panel ───────────────────────────────────────────────────────────

/// What a key does on the response panel: `j`/`k` scroll (stopping at the
/// ends of the `u16` range), `[`/`]` switch tabs.
pub open spec fn response_after(s: AppView, k: KeyEvent) -> AppView {
    let pos = s.response_tab.position();
    match k.code {
        KeyCode::Char('j') | KeyCode::Down => AppView {
            response_scroll: if s.response_scroll < u16::MAX {
                (s.response_scroll + 1) as u16
            } else {
                s.response_scroll
            },
            ..s
        },
        KeyCode::Char('k') | KeyCode::Up => AppView {
            response_scroll: if s.response_scroll > 0 {
                (s.response_scroll - 1) as u16
            } else {
                0
            },
            ..s
        },
        KeyCode::Char('[') => AppView { response_tab: response_tab_at((pos + 2) % 3), ..s },
        KeyCode::Char(']') => AppView { response_tab: response_tab_at((pos + 1) % 3), ..s },
        _ => s,
    }
}

// ── Insert mode ──────────────────────────────────────────────────────────────

/// `t` with its last character removed, if it has one.
pub open spec fn backspaced(t: Seq<char>) -> Seq<char> {
    if t.len() > 0 {
        t.drop_last()
    } else {
        t
    }
}

/// What a key does in insert mode: characters and Backspace edit the URL or
/// the body, Enter sends from the URL bar (or breaks a body line), Esc
/// leaves insert mode and saves.
pub open spec fn insert_step(s: AppView, k: KeyEvent, t: AppView) -> bool {
    match k.code {
        KeyCode::Esc => t == saved(AppView { insert_mode: false, ..s }),
        KeyCode::Enter => match s.focus {
            FocusPanel::RequestUrl => send_step(saved(AppView { insert_mode: false, ..s }), t),
            FocusPanel::RequestBody => t == AppView { edit_body: s.edit_body.push('\n'), ..s },
            _ => t == s,
        },
        KeyCode::Backspace => match s.focus {
            FocusPanel::RequestUrl => t == AppView { edit_url: backspaced(s.edit_url), ..s },
            FocusPanel::RequestBody => t == AppView { edit_body: backspaced(s.edit_body), ..s },
            _ => t == s,
        },
        KeyCode::Char(c) => match s.focus {
            FocusPanel::RequestUrl => t == AppView { edit_url: s.edit_url.push(c), ..s },
            FocusPanel::RequestBody => t == AppView { edit_body: s.edit_body.push(c), ..s },
            _ => t == s,
        },
        _ => t == s,
    }
}

/// Sending keeps the state well-formed.
pub proof fn lemma_send_wf(s: AppView, t: AppView)
    requires
        s.wf(),
        send_step(s, t),
    ensures
        t.wf(),
{
    if s.edit_url.len() > 0 {
        let id = choose|id: Seq<char>| crate::ids::is_uuid_v4_text(id) && t == crate::app::send::dispatched(s, id);
    }
}

// ── Key table helper ─────────────────────────────────────────────────────────

/// Applies a key to one table and its rows; returns whether to save.
fn table_key(kv: &mut KvTableState, rows: &mut Vec<KeyValuePair>, key: KeyEvent) -> (save: bool)
    requires
        old(kv).selected < usize::MAX,
    ensures
        (final(kv)@, pairs_view(final(rows)@), save) == table_after(old(kv)@, pairs_view(old(rows)@), key),
        final(kv).selected < usize::MAX,
{
    let ghost rv = pairs_view(rows@);
    if let Some(col) = kv.editing_col {
        match key.code {
            KeyCode::Char(c) => {
                kv.edit_buf.push(c);
                false
            },
            KeyCode::Backspace => {
                kv.edit_buf.pop();
                false
            },
            KeyCode::Tab | KeyCode::Enter => {
                let idx = kv.selected;
                let buf = kv.edit_buf.clone();
                if idx < rows.len() {
                    if col == 0 {
                        rows[idx].key = buf;
                    } else {
                        rows[idx].value = buf;
                    }
                    assert(pairs_view(rows@) =~= rv.update(
                        idx as int,
                        if col == 0 {
                            PairView { key: old(kv)@.edit_buf, ..rv[idx as int] }
                        } else {
                            PairView { value: old(kv)@.edit_buf, ..rv[idx as int] }
                        },
                    ));
                }
                kv.edit_buf.clear();
                kv.editing_col = if col == 0 {
                    Some(1)
                } else {
                    None
                };
                true
            },
            KeyCode::Esc => {
                kv.editing_col = None;
                kv.edit_buf.clear();
                false
            },
            _ => false,
        }
    } else {
        match key.code {
            KeyCode::Char('j') | KeyCode::Down => {
                if kv.selected + 1 < rows.len() {
                    kv.selected += 1;
                }
                false
            },
            KeyCode::Char('k') | KeyCode::Up => {
                if kv.selected > 0 {
                    kv.selected -= 1;
                }
                false
            },
            KeyCode::Char('o') => {
                proof {
                    reveal_strlit("");
                    assert(""@ =~= Seq::<char>::empty());
                }
                rows.push(KeyValuePair::new("", ""));
                assert(pairs_view(rows@) =~= rv.push(
                    PairView { key: Seq::empty(), value: Seq::empty(), enabled: true },
                ));
                kv.selected = rows.len() - 1;
                kv.editing_col = Some(0);
                kv.edit_buf.clear();
                false
            },
            KeyCode::Char('d') => {
                if kv.pending_dd {
                    kv.pending_dd = false;
                    let idx = kv.selected;
                    if idx < rows.len() {
                        rows.remove(idx);
                        assert(pairs_view(rows@) =~= rv.remove(idx as int));
                        let len = rows.len();
                        kv.clamp(len);
                    }
                    true
                } else {
                    kv.pending_dd = true;
                    false
                }
            },
            KeyCode::Char(' ') => {
                let idx = kv.selected;
                if idx < rows.len() {
                    rows[idx].enabled = !rows[idx].enabled;
                    assert(pairs_view(rows@) =~= rv.update(
                        idx as int,
                        PairView { enabled: !rv[idx as int].enabled, ..rv[idx as int] },
                    ));
                }
                true
            },
            KeyCode::Enter => {
                let idx = kv.selected;
                if idx < rows.len() {
                    kv.editing_col = Some(0);
                    kv.edit_buf = rows[idx].key.clone();
                }
                false
            },
            _ => false,
        }
    }
}

fn digit_tab(c: KeyCode) -> (r: Option<RequestTab>)
    ensures
        r == tab_for_digit(c),
{
    match c {
        KeyCode::Char('1') => Some(RequestTab::Headers),
        KeyCode::Char('2') => Some(RequestTab::Body),
        KeyCode::Char('3') => Some(RequestTab::Params),
        KeyCode::Char('4') => Some(RequestTab::Auth),
        _ => None,
    }
}

impl App {
    pub fn cycle_focus(&mut self, dir: i8)
        ensures
            final(self)@ == focus_cycled(old(self)@, dir > 0),
    {
        let current: usize = match self.focus {
            FocusPanel::RequestUrl => 1,
            FocusPanel::RequestTabs => 2,
            FocusPanel::ResponsePanel => 3,
            _ => 0,
        };
        let next = if dir > 0 {
            (current + 1) % 4
        } else {
            (current + 4 - 1) % 4
        };
        self.focus = if next == 0 {
            FocusPanel::Sidebar
        } else if next == 1 {
            FocusPanel::RequestUrl
        } else if next == 2 {
            FocusPanel::RequestTabs
        } else {
            FocusPanel::ResponsePanel
        };
        self.insert_mode = false;
    }

    fn set_expanded(&mut self, ci: usize, expanded: bool)
        requires
            ci < old(self).collections.len(),
        ensures
            final(self)@ == with_expanded(old(self)@, ci, expanded),
    {
        let ghost before = collections_view(self.collections@);
        self.collections[ci].expanded = expanded;
        assert(collections_view(self.collections@) =~= before.update(
            ci as int,
            CollectionView { expanded, ..before[ci as int] },
        ));
    }

    fn sidebar_open(&mut self)
        requires
            old(self).wf(),
        ensures
            final(self)@ == sidebar_after(old(self)@, KeyEvent { code: KeyCode::Enter, ctrl: false }),
            final(self).wf(),
    {
        proof {
            lemma_counts_fit(&self.collections);
            lemma_sidebar_valid(self@.collections);
        }
        let ghost s0 = self@;
        if let Some(item) = self.sidebar_item_at_cursor() {
            match item {
                SidebarItem::Collection(ci) => {
                    assert(self.sidebar_items@[self.sidebar_cursor as int] == item);
                    self.set_expanded(ci, true);
                    self.rebuild_sidebar();
                    proof {
                        lemma_rebuilt_wf(with_expanded(s0, ci, true));
                    }
                },
                SidebarItem::Request { col, req } => {
                    self.selected_collection = Some(col);
                    self.selected_request = Some(req);
                    self.load_selected_request();
                    self.focus = FocusPanel::RequestUrl;
                },
            }
        }
    }

    fn sidebar_collapse(&mut self)
        requires
            old(self).wf(),
        ensures
            final(self)@ == sidebar_after(old(self)@, KeyEvent { code: KeyCode::Char('h'), ctrl: false }),
            final(self).wf(),
    {
        proof {
            lemma_counts_fit(&self.collections);
            lemma_sidebar_valid(self@.collections);
        }
        let ghost s0 = self@;
        if let Some(SidebarItem::Collection(ci)) = self.sidebar_item_at_cursor() {
            assert(self.sidebar_items@[self.sidebar_cursor as int] == SidebarItem::Collection(ci));
            self.set_expanded(ci, false);
            self.rebuild_sidebar();
            proof {
                lemma_rebuilt_wf(with_expanded(s0, ci, false));
            }
        }
    }

    fn sidebar_new_request(&mut self)
        requires
            old(self).wf(),
        ensures
            final(self)@ == sidebar_after(old(self)@, KeyEvent { code: KeyCode::Char('N'), ctrl: false }),
            final(self).wf(),
    {
        if let Some(SidebarItem::Collection(ci)) = self.sidebar_item_at_cursor() {
            self.modal = ActiveModal::NewRequest { name: String::new(), collection_idx: ci };
        } else if let Some(SidebarItem::Request { col, .. }) = self.sidebar_item_at_cursor() {
            self.modal = ActiveModal::NewRequest { name: String::new(), collection_idx: col };
        } else if self.collections.len() > 0 {
            self.modal = ActiveModal::NewRequest { name: String::new(), collection_idx: 0 };
        }
    }

    fn sidebar_delete_key(&mut self)
        requires
            old(self).wf(),
        ensures
            final(self)@ == sidebar_after(old(self)@, KeyEvent { code: KeyCode::Char('d'), ctrl: false }),
            final(self).wf(),
    {
        proof {
            lemma_counts_fit(&self.collections);
            lemma_sidebar_valid(self@.collections);
        }
        self.dd_count += 1;
        if self.dd_count >= 2 {
            self.dd_count = 0;
            self.status_msg = None;
            if let Some(item) = self.sidebar_item_at_cursor() {
                let target = match item {
                    SidebarItem::Collection(ci) => DeleteTarget::Collection(ci),
                    SidebarItem::Request { col, req } => DeleteTarget::Request {
                        collection_idx: col,
                        request_idx: req,
                    },
                };
                assert(self.sidebar_items@[self.sidebar_cursor as int] == item);
                self.modal = ActiveModal::ConfirmDelete { target };
            }
        } else {
            self.status_msg = Some(owned("d again to delete"));
        }
    }

    pub fn handle_sidebar_key(&mut self, key: KeyEvent)
        requires
            old(self).wf(),
        ensures
            final(self)@ == sidebar_after(old(self)@, key),
            final(self).wf(),
    {
        match key.code {
            KeyCode::Char('j') | KeyCode::Down => {
                let len = self.sidebar_items.len();
                if len > 0 && self.sidebar_cursor < len - 1 {
                    self.sidebar_cursor += 1;
                }
            },
            KeyCode::Char('k') | KeyCode::Up => {
                if self.sidebar_cursor > 0 {
                    self.sidebar_cursor -= 1;
                }
            },
            KeyCode::Char('l') | KeyCode::Enter => {
                self.sidebar_open();
            },
            KeyCode::Char('h') => {
                self.sidebar_collapse();
            },
            KeyCode::Char('n') => {
                self.modal = ActiveModal::NewCollection { name: String::new() };
            },
            KeyCode::Char('N') => {
                self.sidebar_new_request();
            },
            KeyCode::Char('d') => {
                self.sidebar_delete_key();
            },
            _ => {
                self.dd_count = 0;
                self.status_msg = None;
            },
        }
    }

    pub fn handle_url_key(&mut self, key: KeyEvent)
        requires
            old(self).wf(),
        ensures
            url_step(old(self)@, key, final(self)@),
            final(self).wf(),
    {
        match key.code {
            KeyCode::Char('i') => {
                self.insert_mode = true;
            },
            KeyCode::Enter => {
                self.save_to_selected_request();
                proof {
                    lemma_saved_wf(old(self)@);
                }
                let ghost mid = self@;
                self.send_request();
                proof {
                    lemma_send_wf(mid, self@);
                }
            },
            KeyCode::Char('m') => {
                self.focus = FocusPanel::RequestMethod;
            },
            _ => {},
        }
    }

    pub fn handle_method_key(&mut self, key: KeyEvent)
        requires
            old(self).wf(),
        ensures
            final(self)@ == method_after(old(self)@, key),
            final(self).wf(),
    {
        match key.code {
            KeyCode::Char('j') | KeyCode::Down => {
                self.edit_method = self.edit_method.cycle_next();
                proof {
                    lemma_saved_wf(self@);
                }
                self.save_to_selected_request();
            },
            KeyCode::Char('k') | KeyCode::Up => {
                self.edit_method = self.edit_method.cycle_prev();
                proof {
                    lemma_saved_wf(self@);
                }
                self.save_to_selected_request();
            },
            KeyCode::Enter | KeyCode::Esc => {
                self.focus = FocusPanel::RequestUrl;
            },
            _ => {},
        }
    }

    pub fn handle_kv_key(&mut self, key: KeyEvent, is_headers: bool)
        requires
            old(self).wf(),
        ensures
            final(self)@ == kv_after(old(self)@, key, is_headers),
            final(self).wf(),
    {
        let save = if is_headers {
            table_key(&mut self.headers_kv, &mut self.edit_headers, key)
        } else {
            table_key(&mut self.params_kv, &mut self.edit_params, key)
        };
        if save {
            proof {
                lemma_saved_wf(self@);
            }
            self.save_to_selected_request();
        }
    }

    pub fn handle_auth_key(&mut self, key: KeyEvent)
        requires
            old(self).wf(),
        ensures
            final(self)@ == auth_after(old(self)@, key),
            final(self).wf(),
    {
        match key.code {
            KeyCode::Char('1') => self.edit_auth = AuthConfig::NoAuth,
            KeyCode::Char('2') => {
                if !matches!(self.edit_auth, AuthConfig::BearerToken { .. }) {
                    self.edit_auth = AuthConfig::BearerToken { token: String::new() };
                }
            },
            KeyCode::Char('3') => {
                if !matches!(self.edit_auth, AuthConfig::BasicAuth { .. }) {
                    self.edit_auth = AuthConfig::BasicAuth {
                        username: String::new(),
                        password: String::new(),
                    };
                }
            },
            KeyCode::Char('4') => {
                if !matches!(self.edit_auth, AuthConfig::ApiKey { .. }) {
                    self.edit_auth = AuthConfig::ApiKey { header: String::new(), value: String::new() };
                }
            },
            _ => {},
        }
        proof {
            lemma_saved_wf(self@);
        }
        self.save_to_selected_request();
    }

    pub fn handle_request_tabs_key(&mut self, key: KeyEvent)
        requires
            old(self).wf(),
        ensures
            final(self)@ == tabs_after(old(self)@, key),
            final(self).wf(),
    {
        match key.code {
            KeyCode::Char('[') => {
                let idx = self.request_tab.index();
                self.request_tab = RequestTab::from_index((idx + 3) % 4);
            },
            KeyCode::Char(']') => {
                let idx = self.request_tab.index();
                self.request_tab = RequestTab::from_index((idx + 1) % 4);
            },
            _ => {
                let jump = if self.request_tab == RequestTab::Auth {
                    None
                } else {
                    digit_tab(key.code)
                };
                if let Some(t) = jump {
                    self.request_tab = t;
                } else if key.code == KeyCode::Enter && (self.request_tab == RequestTab::Body
                    || self.request_tab == RequestTab::Auth) {
                    self.focus = FocusPanel::RequestBody;
                } else {
                    match self.request_tab {
                        RequestTab::Headers => self.handle_kv_key(key, true),
                        RequestTab::Params => self.handle_kv_key(key, false),
                        RequestTab::Body => {
                            if key.code == KeyCode::Char('i') {
                                self.focus = FocusPanel::RequestBody;
                                self.insert_mode = true;
                            }
                        },
                        RequestTab::Auth => self.handle_auth_key(key),
                    }
                }
            },
        }
    }

    /// Body is handled via insert mode.
    pub fn handle_request_body_key(&mut self, _key: KeyEvent)
        ensures
            final(self)@ == old(self)@,
    {
    }

    pub fn handle_response_key(&mut self, key: KeyEvent)
        ensures
            final(self)@ == response_after(old(self)@, key),
    {
        match key.code {
            KeyCode::Char('j') | KeyCode::Down => {
                self.response_scroll = self.response_scroll.saturating_add(1);
            },
            KeyCode::Char('k') | KeyCode::Up => {
                self.response_scroll = self.response_scroll.saturating_sub(1);
            },
            KeyCode::Char('[') => {
                let idx = self.response_tab.index();
                self.response_tab = ResponseTab::from_index((idx + 2) % 3);
            },
            KeyCode::Char(']') => {
                let idx = self.response_tab.index();
                self.response_tab = ResponseTab::from_index((idx + 1) % 3);
            },
            _ => {},
        }
    }

    pub fn handle_insert_key(&mut self, key: KeyEvent) -> (quit: bool)
        requires
            old(self).wf(),
        ensures
            !quit,
            insert_step(old(self)@, key, final(self)@),
            final(self).wf(),
    {
        match key.code {
            KeyCode::Esc => {
                self.insert_mode = false;
                proof {
                    lemma_saved_wf(self@);
                }
                self.save_to_selected_request();
            },
            KeyCode::Enter => {
                match self.focus {
                    FocusPanel::RequestUrl => {
                        self.insert_mode = false;
                        proof {
                            lemma_saved_wf(self@);
                        }
                        self.save_to_selected_request();
                        let ghost mid = self@;
                        self.send_request();
                        proof {
                            lemma_send_wf(mid, self@);
                        }
                    },
                    FocusPanel::RequestBody => {
                        self.edit_body.push('\n');
                    },
                    _ => {},
                }
            },
            KeyCode::Backspace => {
                match self.focus {
                    FocusPanel::RequestUrl => {
                        self.edit_url.pop();
                    },
                    FocusPanel::RequestBody => {
                        self.edit_body.pop();
                    },
                    _ => {},
                }
            },
            KeyCode::Char(c) => {
                match self.focus {
                    FocusPanel::RequestUrl => self.edit_url.push(c),
                    FocusPanel::RequestBody => self.edit_body.push(c),
                    _ => {},
                }
            },
            _ => {},
        }
        false
    }
}


// ── Laws of the tables ───────────────────────────────────────────────────────

/// While a cell is edited, typing a character and then Backspace gives back
/// the table and its rows as they were, and nothing is saved.
pub proof fn lemma_table_backspace_undoes_typing(
    kv: KvView,
    rows: Seq<PairView>,
    c: char,
    typed: KeyEvent,
    back: KeyEvent,
)
    requires
        kv.editing_col is Some,
        typed.code == KeyCode::Char(c),
        back.code == KeyCode::Backspace,
    ensures
        ({
            let (kv1, rows1, _) = table_after(kv, rows, typed);
            table_after(kv1, rows1, back) == (kv, rows, false)
        }),
{
    let (kv1, rows1, _) = table_after(kv, rows, typed);
    assert(kv1.edit_buf.drop_last() =~= kv.edit_buf);
}

/// While a cell is edited, Backspace removes exactly the last character of
/// the buffer (nothing when it is empty) and changes nothing else.
pub proof fn lemma_table_backspace_removes_last(kv: KvView, rows: Seq<PairView>, back: KeyEvent)
    requires
        kv.editing_col is Some,
        back.code == KeyCode::Backspace,
    ensures
        ({
            let (kv1, rows1, save) = table_after(kv, rows, back);
            &&& rows1 == rows
            &&& !save
            &&& kv1.selected == kv.selected
            &&& kv1.editing_col == kv.editing_col
            &&& kv1.pending_dd == kv.pending_dd
            &&& (kv.edit_buf.len() > 0 ==> kv1.edit_buf.len() + 1 == kv.edit_buf.len()
                && kv1.edit_buf.push(kv.edit_buf.last()) == kv.edit_buf)
            &&& (kv.edit_buf.len() == 0 ==> kv1.edit_buf == kv.edit_buf)
        }),
{
    let (kv1, rows1, save) = table_after(kv, rows, back);
    if kv.edit_buf.len() > 0 {
        assert(kv1.edit_buf.push(kv.edit_buf.last()) =~= kv.edit_buf);
    }
}


/// In insert mode on the URL bar or the body, typing a character and then
/// Backspace gives back the state as it was.
pub proof fn lemma_insert_backspace_undoes_typing(
    s: AppView,
    typed: KeyEvent,
    back: KeyEvent,
    x: char,
    t1: AppView,
    t2: AppView,
)
    requires
        s.focus == FocusPanel::RequestUrl || s.focus == FocusPanel::RequestBody,
        typed.code == KeyCode::Char(x),
        back.code == KeyCode::Backspace,
        insert_step(s, typed, t1),
        insert_step(t1, back, t2),
    ensures
        t2 == s,
{
    assert(s.edit_url.push(x).drop_last() =~= s.edit_url);
    assert(s.edit_body.push(x).drop_last() =~= s.edit_body);
}

} // verus!

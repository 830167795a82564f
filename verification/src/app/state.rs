//! The application state, its well-formedness, and the helpers that keep the
//! sidebar and the request editor in step with the saved collections.
use vstd::prelude::*;

use crate::app::types::{
    effects_view, ActiveModal, DeleteTarget, Effect, EffectView, FocusPanel, KvTableState, KvView,
    ModalView, RequestTab, ResponseTab, SidebarItem,
};
use crate::models::collection::{collections_view, Collection, CollectionView, RequestItemView};
use crate::models::environment::{environments_view, Environment, EnvironmentView};
use crate::models::history::{history_view, HistoryEntry, HistoryEntryView};
use crate::models::request::{
    copy_pair_vec, pairs_view, AuthConfig, AuthView, HttpMethod, KeyValuePair, PairView,
    RequestConfig, RequestConfigView,
};
use crate::models::response::{ResponseData, ResponseView};

verus! {

/// The whole state of the client.
pub struct App {
    // Data
    pub collections: Vec<Collection>,
    pub environments: Vec<Environment>,
    pub active_env_idx: Option<usize>,
    pub history: Vec<HistoryEntry>,
    // Sidebar
    pub sidebar_cursor: usize,  // index into flat list
    pub sidebar_items: Vec<SidebarItem>,  // rebuilt on change
    // Selected request (collection, request within)
    pub selected_collection: Option<usize>,
    pub selected_request: Option<usize>,
    // Active request editor state (mirrors selected RequestItem or scratch)
    pub edit_url: String,
    pub edit_method: HttpMethod,
    pub edit_headers: Vec<KeyValuePair>,
    pub edit_params: Vec<KeyValuePair>,
    pub edit_body: String,
    pub edit_auth: AuthConfig,
    // Focus / tabs
    pub focus: FocusPanel,
    pub request_tab: RequestTab,
    pub response_tab: ResponseTab,
    // KV table states
    pub headers_kv: KvTableState,
    pub params_kv: KvTableState,
    // Response
    pub response: Option<ResponseData>,
    pub response_scroll: u16,
    pub loading: bool,
    pub status_msg: Option<String>,
    // Modal
    pub modal: ActiveModal,
    // Env editor state
    pub env_list_cursor: usize,
    pub env_var_cursor: usize,
    pub env_editing: Option<(usize, usize)>,  // (env_idx, var_idx * 2 + col)
    pub env_edit_buf: String,
    // Pending delete key sequence
    pub dd_count: u8,
    // Insert mode for text fields
    pub insert_mode: bool,
    // Outside work requested and not yet taken by the caller
    pub effects: Vec<Effect>,
}

/// The content of an [`App`].
pub struct AppView {
    pub collections: Seq<CollectionView>,
    pub environments: Seq<EnvironmentView>,
    pub active_env_idx: Option<usize>,
    pub history: Seq<HistoryEntryView>,
    pub sidebar_cursor: usize,
    pub sidebar_items: Seq<SidebarItem>,
    pub selected_collection: Option<usize>,
    pub selected_request: Option<usize>,
    pub edit_url: Seq<char>,
    pub edit_method: HttpMethod,
    pub edit_headers: Seq<PairView>,
    pub edit_params: Seq<PairView>,
    pub edit_body: Seq<char>,
    pub edit_auth: AuthView,
    pub focus: FocusPanel,
    pub request_tab: RequestTab,
    pub response_tab: ResponseTab,
    pub headers_kv: KvView,
    pub params_kv: KvView,
    pub response: Option<ResponseView>,
    pub response_scroll: u16,
    pub loading: bool,
    pub status_msg: Option<Seq<char>>,
    pub modal: ModalView,
    pub env_list_cursor: usize,
    pub env_var_cursor: usize,
    pub env_editing: Option<(usize, usize)>,
    pub env_edit_buf: Seq<char>,
    pub dd_count: u8,
    pub insert_mode: bool,
    pub effects: Seq<EffectView>,
}

/// The content of an optional response.
pub open spec fn response_view(r: Option<ResponseData>) -> Option<ResponseView> {
    match r {
        Some(d) => Some(d@),
        None => None,
    }
}

/// The content of an optional message.
pub open spec fn message_view(m: Option<String>) -> Option<Seq<char>> {
    match m {
        Some(s) => Some(s@),
        None => None,
    }
}

impl View for App {
    type V = AppView;

    open spec fn view(&self) -> AppView {
        AppView {
            collections: collections_view(self.collections@),
            environments: environments_view(self.environments@),
            active_env_idx: self.active_env_idx,
            history: history_view(self.history@),
            sidebar_cursor: self.sidebar_cursor,
            sidebar_items: self.sidebar_items@,
            selected_collection: self.selected_collection,
            selected_request: self.selected_request,
            edit_url: self.edit_url@,
            edit_method: self.edit_method,
            edit_headers: pairs_view(self.edit_headers@),
            edit_params: pairs_view(self.edit_params@),
            edit_body: self.edit_body@,
            edit_auth: self.edit_auth@,
            focus: self.focus,
            request_tab: self.request_tab,
            response_tab: self.response_tab,
            headers_kv: self.headers_kv@,
            params_kv: self.params_kv@,
            response: response_view(self.response),
            response_scroll: self.response_scroll,
            loading: self.loading,
            status_msg: message_view(self.status_msg),
            modal: self.modal@,
            env_list_cursor: self.env_list_cursor,
            env_var_cursor: self.env_var_cursor,
            env_editing: self.env_editing,
            env_edit_buf: self.env_edit_buf@,
            dd_count: self.dd_count,
            insert_mode: self.insert_mode,
            effects: effects_view(self.effects@),
        }
    }
}

// ── Sidebar layout ───────────────────────────────────────────────────────────

/// The sidebar rows of the `n` requests of collection `col`.
pub open spec fn request_rows(col: int, n: nat) -> Seq<SidebarItem> {
    Seq::new(n, |r: int| SidebarItem::Request { col: col as usize, req: r as usize })
}

/// The sidebar rows of the first `n` collections: each collection's header,
/// followed by its requests when it is expanded.
pub open spec fn layout_upto(cols: Seq<CollectionView>, n: nat) -> Seq<SidebarItem>
    decreases n,
{
    if n == 0 {
        Seq::empty()
    } else {
        let i = n - 1;
        layout_upto(cols, (n - 1) as nat) + seq![SidebarItem::Collection(i as usize)] + (if cols[i].expanded {
            request_rows(i, cols[i].requests.len())
        } else {
            Seq::empty()
        })
    }
}

/// The sidebar rows of all collections.
pub open spec fn sidebar_layout(cols: Seq<CollectionView>) -> Seq<SidebarItem> {
    layout_upto(cols, cols.len())
}

/// Whether a sidebar row names a collection, or a request, that exists.
pub open spec fn item_valid(cols: Seq<CollectionView>, item: SidebarItem) -> bool {
    match item {
        SidebarItem::Collection(ci) => ci < cols.len(),
        SidebarItem::Request { col, req } => col < cols.len() && req < cols[col as int].requests.len(),
    }
}

/// The numbers of collections and of requests in each are machine-sized.
pub open spec fn counts_fit(cols: Seq<CollectionView>) -> bool {
    &&& cols.len() <= usize::MAX
    &&& forall|i: int| 0 <= i < cols.len() ==> #[trigger] cols[i].requests.len() <= usize::MAX
}

/// Two lists of collections with the same number of collections, each with
/// the same number of requests and the same expansion.
pub open spec fn same_shape(a: Seq<CollectionView>, b: Seq<CollectionView>) -> bool {
    &&& a.len() == b.len()
    &&& forall|i: int|
        0 <= i < a.len() ==> (#[trigger] a[i]).expanded == b[i].expanded && a[i].requests.len()
            == b[i].requests.len()
}

pub proof fn lemma_layout_shape(a: Seq<CollectionView>, b: Seq<CollectionView>, n: nat)
    requires
        same_shape(a, b),
        n <= a.len(),
    ensures
        layout_upto(a, n) == layout_upto(b, n),
    decreases n,
{
    if n > 0 {
        lemma_layout_shape(a, b, (n - 1) as nat);
        let i = n - 1;
        assert(a[i as int].expanded == b[i as int].expanded);
    }
}

pub proof fn lemma_layout_valid(cols: Seq<CollectionView>, n: nat)
    requires
        counts_fit(cols),
        n <= cols.len(),
    ensures
        forall|k: int|
            0 <= k < layout_upto(cols, n).len() ==> item_valid(cols, #[trigger] layout_upto(cols, n)[k]),
    decreases n,
{
    if n > 0 {
        lemma_layout_valid(cols, (n - 1) as nat);
        let i = n - 1;
        let prev = layout_upto(cols, (n - 1) as nat);
        let rows = if cols[i as int].expanded {
            request_rows(i as int, cols[i as int].requests.len())
        } else {
            Seq::empty()
        };
        let all = layout_upto(cols, n);
        assert(all == prev + seq![SidebarItem::Collection(i as usize)] + rows);
        assert forall|k: int| 0 <= k < all.len() implies item_valid(cols, #[trigger] all[k]) by {
            if k < prev.len() {
                assert(all[k] == prev[k]);
            } else if k == prev.len() {
                assert(all[k] == SidebarItem::Collection(i as usize));
            } else {
                assert(all[k] == rows[k - prev.len() - 1]);
                assert(cols[i as int].requests.len() <= usize::MAX);
            }
        }
    }
}

/// Every sidebar row names something that exists.
pub proof fn lemma_sidebar_valid(cols: Seq<CollectionView>)
    requires
        counts_fit(cols),
    ensures
        forall|k: int|
            0 <= k < sidebar_layout(cols).len() ==> item_valid(cols, #[trigger] sidebar_layout(cols)[k]),
{
    lemma_layout_valid(cols, cols.len());
}

/// The collection counts of a real list of collections are machine-sized.
pub proof fn lemma_counts_fit(cols: &Vec<Collection>)
    ensures
        counts_fit(collections_view(cols@)),
{
    let v = collections_view(cols@);
    assert(v.len() == cols.len());
    assert forall|i: int| 0 <= i < v.len() implies #[trigger] v[i].requests.len() <= usize::MAX by {
        assert(v[i].requests.len() == cols@[i].requests@.len());
        assert(cols@[i].requests.len() == cols@[i].requests@.len());
    }
}

// ── Well-formedness ──────────────────────────────────────────────────────────

/// The most variables one environment may hold: the encoding
/// `var_idx * 2 + col` of the variable being edited has to fit in a `usize`.
/// A vector of variables (two strings each) can never come near this length.
pub open spec fn var_capacity() -> usize {
    (usize::MAX / 2) as usize
}

impl AppView {
    /// The state invariant: the sidebar lists exactly the collections'
    /// headers and expanded requests, pending deletions name existing
    /// collections, and counters stay clear of overflow.
    pub open spec fn wf(self) -> bool {
        &&& self.sidebar_items == sidebar_layout(self.collections)
        &&& self.dd_count <= 1
        &&& self.env_list_cursor < usize::MAX
        &&& self.env_var_cursor < usize::MAX
        &&& self.headers_kv.selected < usize::MAX
        &&& self.params_kv.selected < usize::MAX
        &&& forall|i: int|
            0 <= i < self.environments.len() ==> #[trigger] self.environments[i].vars.len()
                < var_capacity()
        &&& match self.modal {
            ModalView::ConfirmDelete { target: DeleteTarget::Collection(ci) } => ci
                < self.collections.len(),
            _ => true,
        }
    }

    /// The configuration the request editor currently shows.
    pub open spec fn editor_config(self) -> RequestConfigView {
        RequestConfigView {
            url: self.edit_url,
            method: self.edit_method,
            headers: self.edit_headers,
            query_params: self.edit_params,
            body: self.edit_body,
            auth: self.edit_auth,
        }
    }
}

/// The cursor kept after the sidebar is rebuilt to `len` rows: moved onto the
/// last row if it was past it (an empty sidebar leaves it where it was).
pub open spec fn cursor_after_rebuild(cursor: usize, len: nat) -> usize {
    if cursor >= len && len > 0 {
        (len - 1) as usize
    } else {
        cursor
    }
}

/// The state after the sidebar is rebuilt from the collections.
pub open spec fn rebuilt(s: AppView) -> AppView {
    AppView {
        sidebar_items: sidebar_layout(s.collections),
        sidebar_cursor: cursor_after_rebuild(s.sidebar_cursor, sidebar_layout(s.collections).len()),
        ..s
    }
}

/// The state after the selected request, if it exists, is loaded into the
/// editor (which also clears the response).
pub open spec fn loaded(s: AppView) -> AppView {
    match (s.selected_collection, s.selected_request) {
        (Some(ci), Some(ri)) => if ci < s.collections.len() && ri < s.collections[ci as int].requests.len() {
            let c = s.collections[ci as int].requests[ri as int].config;
            AppView {
                edit_url: c.url,
                edit_method: c.method,
                edit_headers: c.headers,
                edit_params: c.query_params,
                edit_body: c.body,
                edit_auth: c.auth,
                response: None,
                response_scroll: 0,
                ..s
            }
        } else {
            s
        },
        _ => s,
    }
}

/// The state after the editor is written back into the selected request:
/// when the selected collection exists, its selected request (if that
/// exists) takes the editor's configuration and the collection is saved.
pub open spec fn saved(s: AppView) -> AppView {
    match (s.selected_collection, s.selected_request) {
        (Some(ci), Some(ri)) => if ci < s.collections.len() {
            let col = s.collections[ci as int];
            let col2 = if ri < col.requests.len() {
                CollectionView {
                    requests: col.requests.update(
                        ri as int,
                        RequestItemView { config: s.editor_config(), ..col.requests[ri as int] },
                    ),
                    ..col
                }
            } else {
                col
            };
            AppView {
                collections: s.collections.update(ci as int, col2),
                effects: s.effects.push(EffectView::SaveCollection(ci)),
                ..s
            }
        } else {
            s
        },
        _ => s,
    }
}

impl App {
    /// The state's invariant (see [`AppView::wf`]).
    pub open spec fn wf(&self) -> bool {
        self@.wf()
    }

    pub fn rebuild_sidebar(&mut self)
        ensures
            final(self)@ == rebuilt(old(self)@),
    {
        let ghost cols = collections_view(self.collections@);
        proof {
            lemma_counts_fit(&self.collections);
        }
        let mut items: Vec<SidebarItem> = Vec::new();
        let mut ci: usize = 0;
        while ci < self.collections.len()
            invariant
                ci <= self.collections.len(),
                cols == collections_view(self.collections@),
                counts_fit(cols),
                items@ == layout_upto(cols, ci as nat),
            decreases self.collections.len() - ci,
        {
            items.push(SidebarItem::Collection(ci));
            if self.collections[ci].expanded {
                let n = self.collections[ci].requests.len();
                let mut ri: usize = 0;
                while ri < n
                    invariant
                        ci < self.collections.len(),
                        cols == collections_view(self.collections@),
                        n == cols[ci as int].requests.len(),
                        ri <= n,
                        items@ == layout_upto(cols, ci as nat) + seq![SidebarItem::Collection(ci)]
                            + request_rows(ci as int, ri as nat),
                    decreases n - ri,
                {
                    items.push(SidebarItem::Request { col: ci, req: ri });
                    ri += 1;
                    assert(items@ =~= layout_upto(cols, ci as nat) + seq![SidebarItem::Collection(ci)]
                        + request_rows(ci as int, ri as nat));
                }
                assert(items@ =~= layout_upto(cols, (ci + 1) as nat));
            } else {
                assert(items@ =~= layout_upto(cols, (ci + 1) as nat));
            }
            ci += 1;
        }
        let len = items.len();
        self.sidebar_items = items;
        if self.sidebar_cursor >= len && len > 0 {
            self.sidebar_cursor = len - 1;
        }
    }

    pub fn sidebar_item_at_cursor(&self) -> (r: Option<SidebarItem>)
        ensures
            r == (if self.sidebar_cursor < self.sidebar_items@.len() {
                Some(self.sidebar_items@[self.sidebar_cursor as int])
            } else {
                None::<SidebarItem>
            }),
    {
        if self.sidebar_cursor < self.sidebar_items.len() {
            Some(self.sidebar_items[self.sidebar_cursor])
        } else {
            None
        }
    }

    pub fn load_selected_request(&mut self)
        ensures
            final(self)@ == loaded(old(self)@),
    {
        if let (Some(ci), Some(ri)) = (self.selected_collection, self.selected_request) {
            if ci < self.collections.len() && ri < self.collections[ci].requests.len() {
                let req = &self.collections[ci].requests[ri];
                let url = req.config.url.clone();
                let method = req.config.method.clone();
                let headers = copy_pair_vec(&req.config.headers);
                let params = copy_pair_vec(&req.config.query_params);
                let body = req.config.body.clone();
                let auth = req.config.auth.clone();
                self.edit_url = url;
                self.edit_method = method;
                self.edit_headers = headers;
                self.edit_params = params;
                self.edit_body = body;
                self.edit_auth = auth;
                self.response = None;
                self.response_scroll = 0;
            }
        }
    }

    pub fn save_to_selected_request(&mut self)
        ensures
            final(self)@ == saved(old(self)@),
    {
        if let (Some(ci), Some(ri)) = (self.selected_collection, self.selected_request) {
            if ci < self.collections.len() {
                let ghost old_cols = self.collections@;
                if ri < self.collections[ci].requests.len() {
                    let cfg = RequestConfig {
                        url: self.edit_url.clone(),
                        method: self.edit_method.clone(),
                        headers: copy_pair_vec(&self.edit_headers),
                        query_params: copy_pair_vec(&self.edit_params),
                        body: self.edit_body.clone(),
                        auth: self.edit_auth.clone(),
                    };
                    self.collections[ci].requests[ri].config = cfg;
                    proof {
                        let v = collections_view(old_cols);
                        let col = v[ci as int];
                        let col2 = CollectionView {
                            requests: col.requests.update(
                                ri as int,
                                RequestItemView { config: old(self)@.editor_config(), ..col.requests[ri as int] },
                            ),
                            ..col
                        };
                        assert(self.collections@[ci as int]@.requests =~= col2.requests);
                        assert(collections_view(self.collections@) =~= v.update(ci as int, col2));
                    }
                } else {
                    assert(collections_view(self.collections@) =~= collections_view(old_cols).update(
                        ci as int,
                        collections_view(old_cols)[ci as int],
                    ));
                }
                let ghost old_effects = self.effects@;
                self.effects.push(Effect::SaveCollection(ci));
                assert(effects_view(self.effects@) =~= effects_view(old_effects).push(
                    EffectView::SaveCollection(ci),
                ));
            }
        }
    }

    /// Whether a header or parameter cell is being edited in the focused
    /// table.
    pub open spec fn kv_editing(s: AppView) -> bool {
        s.focus == FocusPanel::RequestTabs && match s.request_tab {
            RequestTab::Headers => s.headers_kv.editing_col is Some,
            RequestTab::Params => s.params_kv.editing_col is Some,
            _ => false,
        }
    }

    pub fn is_kv_editing(&self) -> (r: bool)
        ensures
            r == App::kv_editing(self@),
    {
        self.focus == FocusPanel::RequestTabs && match self.request_tab {
            RequestTab::Headers => self.headers_kv.editing_col.is_some(),
            RequestTab::Params => self.params_kv.editing_col.is_some(),
            _ => false,
        }
    }

    /// Hands over the outside work requested so far, leaving none pending.
    pub fn take_effects(&mut self) -> (r: Vec<Effect>)
        ensures
            effects_view(r@) == old(self)@.effects,
            final(self)@ == (AppView { effects: Seq::empty(), ..old(self)@ }),
    {
        let mut r: Vec<Effect> = Vec::new();
        std::mem::swap(&mut r, &mut self.effects);
        assert(effects_view(self.effects@) =~= Seq::<EffectView>::empty());
        r
    }
}

} // verus!

verus! {

/// Saving the editor into the selected request keeps the state well-formed:
/// it changes a request's configuration, never which rows the sidebar shows.
pub proof fn lemma_saved_wf(s: AppView)
    requires
        s.wf(),
    ensures
        saved(s).wf(),
{
    match (s.selected_collection, s.selected_request) {
        (Some(ci), Some(ri)) => {
            if ci < s.collections.len() {
                let t = saved(s);
                assert(same_shape(s.collections, t.collections));
                lemma_layout_shape(s.collections, t.collections, s.collections.len());
            }
        },
        _ => {},
    }
}

/// Loading the selected request keeps the state well-formed.
pub proof fn lemma_loaded_wf(s: AppView)
    requires
        s.wf(),
    ensures
        loaded(s).wf(),
{
}

/// Rebuilding the sidebar restores the sidebar part of the invariant.
pub proof fn lemma_rebuilt_wf(s: AppView)
    requires
        s.dd_count <= 1,
        s.env_list_cursor < usize::MAX,
        s.env_var_cursor < usize::MAX,
        s.headers_kv.selected < usize::MAX,
        s.params_kv.selected < usize::MAX,
        forall|i: int|
            0 <= i < s.environments.len() ==> #[trigger] s.environments[i].vars.len() < var_capacity(),
        match s.modal {
            ModalView::ConfirmDelete { target: DeleteTarget::Collection(ci) } => ci < s.collections.len(),
            _ => true,
        },
    ensures
        rebuilt(s).wf(),
{
}

} // verus!

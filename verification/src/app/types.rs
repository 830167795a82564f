//! The small state types of the application: focus, tabs, modals, tables.
use vstd::prelude::*;

use crate::event::{HttpTask, TaskView};

verus! {

/// Which part of the screen receives keys.
#[derive(Debug, PartialEq, Eq, Structural)]
pub enum FocusPanel {
    Sidebar,
    RequestUrl,
    RequestMethod,
    RequestTabs,
    RequestBody,
    ResponsePanel,
}

impl Clone for FocusPanel {
    fn clone(&self) -> (r: Self)
        ensures
            r == *self,
    {
        match self {
            FocusPanel::Sidebar => FocusPanel::Sidebar,
            FocusPanel::RequestUrl => FocusPanel::RequestUrl,
            FocusPanel::RequestMethod => FocusPanel::RequestMethod,
            FocusPanel::RequestTabs => FocusPanel::RequestTabs,
            FocusPanel::RequestBody => FocusPanel::RequestBody,
            FocusPanel::ResponsePanel => FocusPanel::ResponsePanel,
        }
    }
}

impl Default for FocusPanel {
    fn default() -> (r: Self)
        ensures
            r == FocusPanel::Sidebar,
    {
        FocusPanel::Sidebar
    }
}

/// The tabs of the request editor, in display order.
#[derive(Debug, PartialEq, Eq, Structural)]
pub enum RequestTab {
    Headers,
    Body,
    Params,
    Auth,
}

impl Clone for RequestTab {
    fn clone(&self) -> (r: Self)
        ensures
            r == *self,
    {
        match self {
            RequestTab::Headers => RequestTab::Headers,
            RequestTab::Body => RequestTab::Body,
            RequestTab::Params => RequestTab::Params,
            RequestTab::Auth => RequestTab::Auth,
        }
    }
}

/// The request tab at position `i` (0 to 3).
pub open spec fn request_tab_at(i: nat) -> RequestTab {
    if i == 0 {
        RequestTab::Headers
    } else if i == 1 {
        RequestTab::Body
    } else if i == 2 {
        RequestTab::Params
    } else {
        RequestTab::Auth
    }
}

impl RequestTab {
    /// The tab's position in the tab bar.
    pub open spec fn position(self) -> nat {
        match self {
            RequestTab::Headers => 0,
            RequestTab::Body => 1,
            RequestTab::Params => 2,
            RequestTab::Auth => 3,
        }
    }

    /// The tab's title.
    pub open spec fn title(self) -> Seq<char> {
        match self {
            RequestTab::Headers => "Headers"@,
            RequestTab::Body => "Body"@,
            RequestTab::Params => "Params"@,
            RequestTab::Auth => "Auth"@,
        }
    }

    pub fn index(&self) -> (r: usize)
        ensures
            r == self.position(),
    {
        match self {
            RequestTab::Headers => 0,
            RequestTab::Body => 1,
            RequestTab::Params => 2,
            RequestTab::Auth => 3,
        }
    }

    /// The tab at position `i`, counted around the bar (`i` modulo 4).
    pub fn from_index(i: usize) -> (r: Self)
        ensures
            r == request_tab_at((i % 4) as nat),
    {
        match i % 4 {
            0 => RequestTab::Headers,
            1 => RequestTab::Body,
            2 => RequestTab::Params,
            _ => RequestTab::Auth,
        }
    }

    pub fn label(&self) -> (r: &str)
        ensures
            r@ == self.title(),
    {
        match self {
            RequestTab::Headers => "Headers",
            RequestTab::Body => "Body",
            RequestTab::Params => "Params",
            RequestTab::Auth => "Auth",
        }
    }
}

/// A request tab's position names it: `from_index` undoes `index`, and
/// `index` undoes `from_index` on the positions 0 to 3.
pub proof fn lemma_request_tab_index_roundtrip(t: RequestTab, i: nat)
    ensures
        request_tab_at(t.position() % 4) == t,
        i < 4 ==> request_tab_at(i).position() == i,
{
}

/// The tabs of the response viewer, in display order.
#[derive(Debug, PartialEq, Eq, Structural)]
pub enum ResponseTab {
    Body,
    Headers,
    Raw,
}

impl Clone for ResponseTab {
    fn clone(&self) -> (r: Self)
        ensures
            r == *self,
    {
        match self {
            ResponseTab::Body => ResponseTab::Body,
            ResponseTab::Headers => ResponseTab::Headers,
            ResponseTab::Raw => ResponseTab::Raw,
        }
    }
}

/// The response tab at position `i` (0 to 2).
pub open spec fn response_tab_at(i: nat) -> ResponseTab {
    if i == 0 {
        ResponseTab::Body
    } else if i == 1 {
        ResponseTab::Headers
    } else {
        ResponseTab::Raw
    }
}

impl ResponseTab {
    /// The tab's position in the tab bar.
    pub open spec fn position(self) -> nat {
        match self {
            ResponseTab::Body => 0,
            ResponseTab::Headers => 1,
            ResponseTab::Raw => 2,
        }
    }

    /// The tab's title.
    pub open spec fn title(self) -> Seq<char> {
        match self {
            ResponseTab::Body => "Body"@,
            ResponseTab::Headers => "Headers"@,
            ResponseTab::Raw => "Raw"@,
        }
    }

    pub fn index(&self) -> (r: usize)
        ensures
            r == self.position(),
    {
        match self {
            ResponseTab::Body => 0,
            ResponseTab::Headers => 1,
            ResponseTab::Raw => 2,
        }
    }

    /// The tab at position `i`, counted around the bar (`i` modulo 3).
    pub fn from_index(i: usize) -> (r: Self)
        ensures
            r == response_tab_at((i % 3) as nat),
    {
        match i % 3 {
            0 => ResponseTab::Body,
            1 => ResponseTab::Headers,
            _ => ResponseTab::Raw,
        }
    }

    pub fn label(&self) -> (r: &str)
        ensures
            r@ == self.title(),
    {
        match self {
            ResponseTab::Body => "Body",
            ResponseTab::Headers => "Headers",
            ResponseTab::Raw => "Raw",
        }
    }
}

/// A response tab's position names it: `from_index` undoes `index`, and
/// `index` undoes `from_index` on the positions 0 to 2.
pub proof fn lemma_response_tab_index_roundtrip(t: ResponseTab, i: nat)
    ensures
        response_tab_at(t.position() % 3) == t,
        i < 3 ==> response_tab_at(i).position() == i,
{
}

/// What a deletion prompt would delete.
#[derive(Debug, PartialEq, Eq, Structural, Clone, Copy)]
pub enum DeleteTarget {
    Collection(usize),
    Request { collection_idx: usize, request_idx: usize },
}

/// The dialog in front of the panels, if any.
#[derive(Debug)]
pub enum ActiveModal {
    Closed,
    NewCollection { name: String },
    NewRequest { name: String, collection_idx: usize },
    Environment,
    ConfirmDelete { target: DeleteTarget },
    Help,
}

/// The content of an [`ActiveModal`].
pub enum ModalView {
    Closed,
    NewCollection { name: Seq<char> },
    NewRequest { name: Seq<char>, collection_idx: usize },
    Environment,
    ConfirmDelete { target: DeleteTarget },
    Help,
}

impl View for ActiveModal {
    type V = ModalView;

    open spec fn view(&self) -> ModalView {
        match self {
            ActiveModal::Closed => ModalView::Closed,
            ActiveModal::NewCollection { name } => ModalView::NewCollection { name: name@ },
            ActiveModal::NewRequest { name, collection_idx } => ModalView::NewRequest {
                name: name@,
                collection_idx: *collection_idx,
            },
            ActiveModal::Environment => ModalView::Environment,
            ActiveModal::ConfirmDelete { target } => ModalView::ConfirmDelete { target: *target },
            ActiveModal::Help => ModalView::Help,
        }
    }
}

/// The editing state of a header or parameter table.
#[derive(Debug)]
pub struct KvTableState {
    pub selected: usize,
    pub editing_col: Option<usize>,  // 0=key, 1=value
    pub edit_buf: String,
    pub pending_dd: bool,
}

/// The content of a [`KvTableState`].
pub struct KvView {
    pub selected: usize,
    pub editing_col: Option<usize>,
    pub edit_buf: Seq<char>,
    pub pending_dd: bool,
}

impl View for KvTableState {
    type V = KvView;

    open spec fn view(&self) -> KvView {
        KvView {
            selected: self.selected,
            editing_col: self.editing_col,
            edit_buf: self.edit_buf@,
            pending_dd: self.pending_dd,
        }
    }
}

/// A table with the first row selected and nothing being edited.
pub open spec fn idle_table() -> KvView {
    KvView { selected: 0, editing_col: None, edit_buf: Seq::empty(), pending_dd: false }
}

impl Default for KvTableState {
    fn default() -> (r: Self)
        ensures
            r@ == idle_table(),
    {
        KvTableState { selected: 0, editing_col: None, edit_buf: String::new(), pending_dd: false }
    }
}

/// The selection kept on a row of a table of `len` rows: unchanged when it
/// is on a row, otherwise the last row (or 0 for an empty table).
pub open spec fn clamped(selected: usize, len: usize) -> usize {
    if len == 0 {
        0
    } else if selected >= len {
        (len - 1) as usize
    } else {
        selected
    }
}

impl KvTableState {
    pub fn clamp(&mut self, len: usize)
        ensures
            final(self)@ == (KvView { selected: clamped(old(self).selected, len), ..old(self)@ }),
    {
        if len == 0 {
            self.selected = 0;
        } else if self.selected >= len {
            self.selected = len - 1;
        }
    }
}

/// After clamping, the selection is on a row of a non-empty table.
pub proof fn lemma_clamp_in_range(selected: usize, len: usize)
    ensures
        len > 0 ==> clamped(selected, len) < len,
        selected < len ==> clamped(selected, len) == selected,
{
}

/// Flat list item representing either a Collection header or a nested Request
#[derive(Debug, PartialEq, Eq, Structural, Clone, Copy)]
pub enum SidebarItem {
    Collection(usize),
    Request { col: usize, req: usize },
}

/// Outside work the application asks for; the caller performs it after each
/// event, in order.
#[derive(Debug)]
pub enum Effect {
    /// Hand the task to the HTTP worker.
    SendRequest(HttpTask),
    /// Write the collection at this index to its file.
    SaveCollection(usize),
    /// Remove the file of the collection with this identifier.
    DeleteCollection(String),
    /// Write the environment at this index to its file.
    SaveEnvironment(usize),
    /// Write the history log to its file.
    SaveHistory,
    /// Rebuild the syntax-highlighted lines of the current response body.
    HighlightResponse,
}

/// The content of an [`Effect`].
pub enum EffectView {
    SendRequest(TaskView),
    SaveCollection(usize),
    DeleteCollection(Seq<char>),
    SaveEnvironment(usize),
    SaveHistory,
    HighlightResponse,
}

impl View for Effect {
    type V = EffectView;

    open spec fn view(&self) -> EffectView {
        match self {
            Effect::SendRequest(t) => EffectView::SendRequest(t@),
            Effect::SaveCollection(i) => EffectView::SaveCollection(*i),
            Effect::DeleteCollection(id) => EffectView::DeleteCollection(id@),
            Effect::SaveEnvironment(i) => EffectView::SaveEnvironment(*i),
            Effect::SaveHistory => EffectView::SaveHistory,
            Effect::HighlightResponse => EffectView::HighlightResponse,
        }
    }
}

/// The contents of a list of effects.
pub open spec fn effects_view(es: Seq<Effect>) -> Seq<EffectView> {
    es.map_values(|e: Effect| e@)
}

} // verus!

//! Saved requests, grouped into collections.
use vstd::prelude::*;

use crate::ids::{is_uuid_v4_text, new_id};
use crate::models::request::{blank_config, RequestConfig, RequestConfigView};
use crate::text::owned;

verus! {

/// A named, saved request.
#[derive(Debug)]
pub struct RequestItem {
    pub id: String,
    pub name: String,
    pub config: RequestConfig,
}

/// The content of a [`RequestItem`].
pub struct RequestItemView {
    pub id: Seq<char>,
    pub name: Seq<char>,
    pub config: RequestConfigView,
}

impl View for RequestItem {
    type V = RequestItemView;

    open spec fn view(&self) -> RequestItemView {
        RequestItemView { id: self.id@, name: self.name@, config: self.config@ }
    }
}

impl Clone for RequestItem {
    fn clone(&self) -> (r: Self)
        ensures
            r@ == self@,
    {
        RequestItem { id: self.id.clone(), name: self.name.clone(), config: self.config.clone() }
    }
}

impl RequestItem {
    /// A blank request with a fresh random identifier.
    pub fn new(name: &str) -> (r: Self)
        ensures
            r@.name == name@,
            r@.config == blank_config(),
            is_uuid_v4_text(r@.id),
    {
        RequestItem { id: new_id(), name: owned(name), config: RequestConfig::default() }
    }
}

/// The contents of a list of requests.
pub open spec fn items_view(items: Seq<RequestItem>) -> Seq<RequestItemView> {
    items.map_values(|r: RequestItem| r@)
}

/// A named group of requests; `expanded` says whether the sidebar lists them.
#[derive(Debug)]
pub struct Collection {
    pub id: String,
    pub name: String,
    pub requests: Vec<RequestItem>,
    pub expanded: bool,
}

/// The content of a [`Collection`].
pub struct CollectionView {
    pub id: Seq<char>,
    pub name: Seq<char>,
    pub requests: Seq<RequestItemView>,
    pub expanded: bool,
}

impl View for Collection {
    type V = CollectionView;

    open spec fn view(&self) -> CollectionView {
        CollectionView {
            id: self.id@,
            name: self.name@,
            requests: items_view(self.requests@),
            expanded: self.expanded,
        }
    }
}

/// The contents of a list of collections.
pub open spec fn collections_view(cols: Seq<Collection>) -> Seq<CollectionView> {
    cols.map_values(|c: Collection| c@)
}

fn copy_items(items: &Vec<RequestItem>) -> (r: Vec<RequestItem>)
    ensures
        items_view(r@) == items_view(items@),
{
    let mut out: Vec<RequestItem> = Vec::new();
    let mut i: usize = 0;
    while i < items.len()
        invariant
            i <= items.len(),
            out@.len() == i,
            forall|k: int| 0 <= k < i ==> #[trigger] out@[k]@ == items@[k]@,
        decreases items.len() - i,
    {
        out.push(items[i].clone());
        i += 1;
    }
    assert(items_view(out@) =~= items_view(items@));
    out
}

impl Clone for Collection {
    fn clone(&self) -> (r: Self)
        ensures
            r@ == self@,
    {
        Collection {
            id: self.id.clone(),
            name: self.name.clone(),
            requests: copy_items(&self.requests),
            expanded: self.expanded,
        }
    }
}

impl Collection {
    /// A new, empty, expanded collection with a fresh random identifier.
    pub fn new(name: &str) -> (r: Self)
        ensures
            r@.name == name@,
            r@.requests == Seq::<RequestItemView>::empty(),
            r@.expanded,
            is_uuid_v4_text(r@.id),
    {
        let r = Collection { id: new_id(), name: owned(name), requests: Vec::new(), expanded: true };
        assert(items_view(r.requests@) =~= Seq::<RequestItemView>::empty());
        r
    }
}

} // verus!

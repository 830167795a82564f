//! The decisions behind the files: in what order saved items are listed and
//! how much history is kept. Reading and writing the files is the caller's.
use vstd::prelude::*;

use crate::models::collection::Collection;
use crate::models::environment::Environment;
use crate::models::history::{HistoryEntry, MAX_HISTORY};
use crate::ids::is_uuid_v4_text;
use crate::text::{chars_of, owned};

verus! {

/// Whether `a` comes no later than `b` in lexicographic order of characters
/// (which is the byte order of their UTF-8 encodings, the order of `str`).
pub open spec fn text_le(a: Seq<char>, b: Seq<char>) -> bool
    decreases a.len(),
{
    if a.len() == 0 {
        true
    } else if b.len() == 0 {
        false
    } else if a[0] != b[0] {
        (a[0] as int) < (b[0] as int)
    } else {
        text_le(a.drop_first(), b.drop_first())
    }
}

/// Something listed by its name.
pub trait Named: Sized {
    spec fn name_view(&self) -> Seq<char>;

    fn name_str(&self) -> (r: &str)
        ensures
            r@ == self.name_view(),
    ;
}

impl Named for Collection {
    open spec fn name_view(&self) -> Seq<char> {
        self.name@
    }

    fn name_str(&self) -> (r: &str) {
        self.name.as_str()
    }
}

impl Named for Environment {
    open spec fn name_view(&self) -> Seq<char> {
        self.name@
    }

    fn name_str(&self) -> (r: &str) {
        self.name.as_str()
    }
}

/// Where `x` goes in the sorted list `s` so that it follows every item whose
/// name is not greater than its own.
pub open spec fn insert_pos<T: Named>(s: Seq<T>, x: T) -> int
    decreases s.len(),
{
    if s.len() == 0 {
        0
    } else if !text_le(s[0].name_view(), x.name_view()) {
        0
    } else {
        1 + insert_pos(s.drop_first(), x)
    }
}

/// The items sorted by name, items with equal names keeping their order (the
/// result of a stable sort, such as `sort_by` on the names).
pub open spec fn sorted_by_name<T: Named>(s: Seq<T>) -> Seq<T>
    decreases s.len(),
{
    if s.len() == 0 {
        s
    } else {
        let r = sorted_by_name(s.drop_last());
        r.insert(insert_pos(r, s.last()), s.last())
    }
}

fn text_le_exec(a: &str, b: &str) -> (r: bool)
    ensures
        r == text_le(a@, b@),
{
    let av = chars_of(a);
    let bv = chars_of(b);
    let mut i: usize = 0;
    assert(a@.skip(0) =~= a@);
    assert(b@.skip(0) =~= b@);
    while i < av.len()
        invariant
            i <= av.len(),
            av@ == a@,
            bv@ == b@,
            i <= bv.len(),
            text_le(a@, b@) == text_le(a@.skip(i as int), b@.skip(i as int)),
        decreases av.len() - i,
    {
        if i >= bv.len() {
            return false;
        }
        assert(a@.skip(i as int)[0] == av@[i as int]);
        assert(b@.skip(i as int)[0] == bv@[i as int]);
        if av[i] != bv[i] {
            return av[i] < bv[i];
        }
        assert(a@.skip(i as int).drop_first() =~= a@.skip(i + 1));
        assert(b@.skip(i as int).drop_first() =~= b@.skip(i + 1));
        i += 1;
    }
    true
}

fn find_insert_pos<T: Named>(out: &Vec<T>, x: &T) -> (r: usize)
    ensures
        r == insert_pos(out@, *x),
        r <= out.len(),
{
    let mut j: usize = 0;
    assert(out@.skip(0) =~= out@);
    while j < out.len()
        invariant
            j <= out.len(),
            insert_pos(out@, *x) == j + insert_pos(out@.skip(j as int), *x),
        decreases out.len() - j,
    {
        assert(out@.skip(j as int)[0] == out@[j as int]);
        if !text_le_exec(out[j].name_str(), x.name_str()) {
            return j;
        }
        assert(out@.skip(j as int).drop_first() =~= out@.skip(j + 1));
        j += 1;
    }
    j
}

/// The items in name order (a stable sort), as the files are listed.
pub fn sort_by_name<T: Named>(items: Vec<T>) -> (r: Vec<T>)
    ensures
        r@ == sorted_by_name(items@),
{
    let ghost all = items@;
    assert(all.len() == items.len());
    let mut rest = items;
    let mut out: Vec<T> = Vec::new();
    let mut i: usize = 0;
    assert(all.skip(0) =~= all);
    assert(all.take(0) =~= Seq::<T>::empty());
    while rest.len() > 0
        invariant
            i <= all.len(),
            i + rest.len() == all.len(),
            all.len() <= usize::MAX,
            rest@ == all.skip(i as int),
            out@ == sorted_by_name(all.take(i as int)),
        decreases rest.len(),
    {
        let x = rest.remove(0);
        assert(x == all[i as int]);
        let j = find_insert_pos(&out, &x);
        out.insert(j, x);
        proof {
            assert(all.take(i + 1).drop_last() =~= all.take(i as int));
            assert(all.take(i + 1).last() == all[i as int]);
            assert(all.skip(i as int).remove(0) =~= all.skip(i + 1));
        }
        i += 1;
    }
    assert(all.take(i as int) =~= all);
    out
}

/// Collections in name order.
pub fn sort_collections(cols: Vec<Collection>) -> (r: Vec<Collection>)
    ensures
        r@ == sorted_by_name(cols@),
{
    sort_by_name(cols)
}

/// Environments in name order.
pub fn sort_environments(envs: Vec<Environment>) -> (r: Vec<Environment>)
    ensures
        r@ == sorted_by_name(envs@),
{
    sort_by_name(envs)
}

/// The entries the history file keeps: the last [`MAX_HISTORY`] of them.
pub fn retained_history(entries: &[HistoryEntry]) -> (r: &[HistoryEntry])
    ensures
        r@ == (if entries@.len() > MAX_HISTORY {
            entries@.subrange(entries@.len() - MAX_HISTORY, entries@.len() as int)
        } else {
            entries@
        }),
{
    if entries.len() > MAX_HISTORY {
        let (_, tail) = entries.split_at(entries.len() - MAX_HISTORY);
        tail
    } else {
        entries
    }
}

/// The file name under which a collection or environment with identifier
/// `id` is stored: the identifier followed by `.json`.
pub fn record_file_name(id: &str) -> (r: String)
    ensures
        r@ == id@ + ".json"@,
{
    let mut name = owned(id);
    name.push_str(".json");
    name
}

// ── Laws ─────────────────────────────────────────────────────────────────────

proof fn lemma_text_le_total(a: Seq<char>, b: Seq<char>)
    ensures
        text_le(a, b) || text_le(b, a),
    decreases a.len(),
{
    if a.len() > 0 && b.len() > 0 && a[0] == b[0] {
        lemma_text_le_total(a.drop_first(), b.drop_first());
    }
}

proof fn lemma_text_le_trans(a: Seq<char>, b: Seq<char>, c: Seq<char>)
    requires
        text_le(a, b),
        text_le(b, c),
    ensures
        text_le(a, c),
    decreases a.len(),
{
    if a.len() > 0 && b.len() > 0 && c.len() > 0 && a[0] == b[0] && b[0] == c[0] {
        lemma_text_le_trans(a.drop_first(), b.drop_first(), c.drop_first());
    }
}

/// Whether names never decrease along the list.
pub open spec fn names_sorted<T: Named>(s: Seq<T>) -> bool {
    forall|i: int, j: int| 0 <= i < j < s.len() ==> text_le(#[trigger] s[i].name_view(), #[trigger] s[j].name_view())
}

proof fn lemma_insert_pos_bounds<T: Named>(s: Seq<T>, x: T)
    requires
        names_sorted(s),
    ensures
        0 <= insert_pos(s, x) <= s.len(),
        forall|i: int| 0 <= i < insert_pos(s, x) ==> text_le(#[trigger] s[i].name_view(), x.name_view()),
        forall|i: int| insert_pos(s, x) <= i < s.len() ==> !text_le(#[trigger] s[i].name_view(), x.name_view()),
    decreases s.len(),
{
    if s.len() > 0 {
        let t = s.drop_first();
        assert(names_sorted(t)) by {
            assert forall|i: int, j: int| 0 <= i < j < t.len() implies text_le(#[trigger] t[i].name_view(), #[trigger] t[j].name_view()) by {
                assert(t[i] == s[i + 1] && t[j] == s[j + 1]);
            }
        }
        lemma_insert_pos_bounds(t, x);
        if !text_le(s[0].name_view(), x.name_view()) {
            assert forall|i: int| 0 <= i < s.len() implies !text_le(#[trigger] s[i].name_view(), x.name_view()) by {
                if i > 0 && text_le(s[i].name_view(), x.name_view()) {
                    lemma_text_le_trans(s[0].name_view(), s[i].name_view(), x.name_view());
                }
            }
        } else {
            assert forall|i: int| 0 <= i < insert_pos(s, x) implies text_le(#[trigger] s[i].name_view(), x.name_view()) by {
                if i > 0 {
                    assert(s[i] == t[i - 1]);
                }
            }
            assert forall|i: int| insert_pos(s, x) <= i < s.len() implies !text_le(#[trigger] s[i].name_view(), x.name_view()) by {
                assert(s[i] == t[i - 1]);
            }
        }
    }
}

/// The listing order is sorted by name, and it lists exactly the items it
/// was given (the same multiset).
pub proof fn lemma_sorted_by_name<T: Named>(s: Seq<T>)
    ensures
        names_sorted(sorted_by_name(s)),
        sorted_by_name(s).to_multiset() == s.to_multiset(),
    decreases s.len(),
{
    broadcast use vstd::seq_lib::group_to_multiset_ensures;
    if s.len() > 0 {
        let r = sorted_by_name(s.drop_last());
        lemma_sorted_by_name(s.drop_last());
        let x = s.last();
        lemma_insert_pos_bounds(r, x);
        let p = insert_pos(r, x);
        let q = r.insert(p, x);
        assert forall|i: int, j: int| 0 <= i < j < q.len() implies text_le(#[trigger] q[i].name_view(), #[trigger] q[j].name_view()) by {
            if j < p {
                assert(q[i] == r[i] && q[j] == r[j]);
            } else if j == p {
                assert(q[i] == r[i]);
            } else if i < p {
                assert(q[i] == r[i] && q[j] == r[j - 1]);
                lemma_text_le_total(r[j - 1].name_view(), x.name_view());
                lemma_text_le_trans(r[i].name_view(), x.name_view(), r[j - 1].name_view());
            } else if i == p {
                assert(q[j] == r[j - 1]);
                lemma_text_le_total(r[j - 1].name_view(), x.name_view());
            } else {
                assert(q[i] == r[i - 1] && q[j] == r[j - 1]);
            }
        }
        assert(s.drop_last().push(x) =~= s);
    }
}

/// A record whose identifier is a generated UUID is stored in a file whose
/// name has no path separator, so it stays inside its directory.
pub proof fn lemma_uuid_file_name_stays_in_dir(id: Seq<char>)
    requires
        is_uuid_v4_text(id),
    ensures
        !(id + ".json"@).contains('/'),
        !(id + ".json"@).contains('\\'),
{
    reveal_strlit(".json");
    let n = id + ".json"@;
    assert forall|i: int| 0 <= i < n.len() implies n[i] != '/' && n[i] != '\\' by {
        if i < 36 {
            assert(n[i] == id[i]);
        }
    }
}

} // verus!

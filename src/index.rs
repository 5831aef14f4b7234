//! The reading-list resolver: which items need their children listed, and
//! the index of items paired with their PDF attachments.

use vstd::prelude::*;

use crate::model::{Attachment, BibItem, ChildItem};

verus! {

/// The only content type whose attachments are fetched.
pub open spec fn is_pdf_type(t: Seq<char>) -> bool {
    t == "application/pdf"@
}

/// The PDF attachments among `children`, in their order.
pub open spec fn pdf_filter(children: Seq<ChildItem>) -> Seq<Attachment>
    decreases children.len(),
{
    if children.len() == 0 {
        Seq::empty()
    } else {
        let rest = pdf_filter(children.drop_last());
        match children.last() {
            ChildItem::Attachment(a) => if is_pdf_type(a.content_type@) {
                rest.push(a)
            } else {
                rest
            },
            ChildItem::Other => rest,
        }
    }
}

/// The items flagged as having children, in their order.
pub open spec fn flagged(items: Seq<BibItem>) -> Seq<BibItem>
    decreases items.len(),
{
    if items.len() == 0 {
        Seq::empty()
    } else if items.last().has_children {
        flagged(items.drop_last()).push(items.last())
    } else {
        flagged(items.drop_last())
    }
}

/// The entry that the `k`-th flagged item contributes: the item and the PDF
/// attachments of its listing.
pub open spec fn entry_of(items: Seq<BibItem>, listings: Seq<Vec<ChildItem>>, k: int) -> (
    BibItem,
    Seq<Attachment>,
) {
    (flagged(items)[k], pdf_filter(listings[k]@))
}

/// Whether some entry is keyed by `key`.
pub open spec fn has_key(entries: Seq<(BibItem, Seq<Attachment>)>, key: Seq<char>) -> bool {
    exists|p: int| 0 <= p < entries.len() && (#[trigger] entries[p]).0.key@ == key
}

/// Where the entry keyed by `key` stands, when `has_key` holds.
pub open spec fn key_pos(entries: Seq<(BibItem, Seq<Attachment>)>, key: Seq<char>) -> int {
    choose|p: int| 0 <= p < entries.len() && (#[trigger] entries[p]).0.key@ == key
}

/// Inserts an entry by its item's key: it replaces the entry of the same
/// key where there is one, and is appended otherwise.
pub open spec fn upsert(
    entries: Seq<(BibItem, Seq<Attachment>)>,
    e: (BibItem, Seq<Attachment>),
) -> Seq<(BibItem, Seq<Attachment>)> {
    if has_key(entries, e.0.key@) {
        entries.update(key_pos(entries, e.0.key@), e)
    } else {
        entries.push(e)
    }
}

/// The index after inserting the entries of the first `n` flagged items.
pub open spec fn index_upto(items: Seq<BibItem>, listings: Seq<Vec<ChildItem>>, n: int) -> Seq<
    (BibItem, Seq<Attachment>),
>
    decreases n,
{
    if n <= 0 {
        Seq::empty()
    } else {
        upsert(index_upto(items, listings, n - 1), entry_of(items, listings, n - 1))
    }
}

/// The index built from `items` and the child listings of its flagged
/// items: the entries of the flagged items, keyed by item key, in the order
/// in which each key first came; a later item with a key already present
/// replaces that entry.
pub open spec fn index_of(items: Seq<BibItem>, listings: Seq<Vec<ChildItem>>) -> Seq<
    (BibItem, Seq<Attachment>),
> {
    index_upto(items, listings, flagged(items).len() as int)
}

/// No two entries share a key.
pub open spec fn keys_unique(entries: Seq<(BibItem, Seq<Attachment>)>) -> bool {
    forall|p: int, q: int|
        0 <= p < entries.len() && 0 <= q < entries.len() && p != q ==> (#[trigger] entries[p]).0.key@
            != (#[trigger] entries[q]).0.key@
}

pub open spec fn entries_view(entries: Seq<IndexEntry>) -> Seq<(BibItem, Seq<Attachment>)> {
    Seq::new(entries.len(), |k: int| (entries[k].item, entries[k].attachments@))
}

/// One item of the index and the attachments to fetch for it.
#[derive(Debug)]
pub struct IndexEntry {
    pub item: BibItem,
    pub attachments: Vec<Attachment>,
}

/// Items that have children, keyed by item key, each with its PDF
/// attachments, in the order the service listed the items. Built in one
/// pass and not changed after.
#[derive(Debug)]
pub struct SyncIndex {
    entries: Vec<IndexEntry>,
}

impl View for SyncIndex {
    type V = Seq<(BibItem, Seq<Attachment>)>;

    closed spec fn view(&self) -> Self::V {
        entries_view(self.entries@)
    }
}

pub(crate) fn copy_attachment(a: &Attachment) -> (r: Attachment)
    ensures
        r == *a,
{
    Attachment { key: a.key.clone(), title: a.title.clone(), content_type: a.content_type.clone() }
}

pub(crate) fn copy_item(i: &BibItem) -> (r: BibItem)
    ensures
        r == *i,
{
    BibItem {
        key: i.key.clone(),
        title: i.title.clone(),
        author: i.author.clone(),
        year: i.year,
        has_children: i.has_children,
    }
}

/// Whether an attachment is a PDF, by the exact, case-sensitive content type.
pub fn is_pdf(a: &Attachment) -> (r: bool)
    ensures
        r == is_pdf_type(a.content_type@),
{
    let pdf = String::from_str("application/pdf");
    a.content_type == pdf
}

/// The PDF attachments among an item's children, in their order.
pub fn pdf_attachments(children: &Vec<ChildItem>) -> (r: Vec<Attachment>)
    ensures
        r@ == pdf_filter(children@),
{
    let mut r: Vec<Attachment> = Vec::new();
    let mut i: usize = 0;
    while i < children.len()
        invariant
            i <= children@.len(),
            r@ == pdf_filter(children@.subrange(0, i as int)),
        decreases children@.len() - i,
    {
        assert(children@.subrange(0, i + 1).drop_last() == children@.subrange(0, i as int));
        match &children[i] {
            ChildItem::Attachment(a) => {
                if is_pdf(a) {
                    r.push(copy_attachment(a));
                }
            },
            ChildItem::Other => {},
        }
        i = i + 1;
    }
    assert(children@.subrange(0, children@.len() as int) == children@);
    r
}

/// Where the entry keyed by `key` stands, if there is one.
fn find_key(entries: &Vec<IndexEntry>, key: &String) -> (r: Option<usize>)
    requires
        keys_unique(entries_view(entries@)),
    ensures
        r is None ==> !has_key(entries_view(entries@), key@),
        r matches Some(p) ==> has_key(entries_view(entries@), key@) && p == key_pos(
            entries_view(entries@),
            key@,
        ),
{
    let mut p: usize = 0;
    while p < entries.len()
        invariant
            p <= entries@.len(),
            keys_unique(entries_view(entries@)),
            forall|q: int| 0 <= q < p ==> entries@[q].item.key@ != key@,
        decreases entries@.len() - p,
    {
        if entries[p].item.key == *key {
            let ghost v = entries_view(entries@);
            assert(v[p as int].0.key@ == key@);
            assert(has_key(v, key@));
            let ghost c = key_pos(v, key@);
            assert(v[c].0.key@ == key@);
            proof {
                if c != p as int {
                    assert(v[c].0.key@ != v[p as int].0.key@);
                }
            }
            return Some(p);
        }
        p = p + 1;
    }
    assert forall|q: int| 0 <= q < entries_view(entries@).len() implies (#[trigger] entries_view(
        entries@,
    )[q]).0.key@ != key@ by {
        assert(entries_view(entries@)[q].0 == entries@[q].item);
    }
    None
}

proof fn lemma_flagged_prefix(items: Seq<BibItem>, i: int)
    requires
        0 <= i <= items.len(),
    ensures
        flagged(items.subrange(0, i)).len() <= flagged(items).len(),
        forall|k: int|
            0 <= k < flagged(items.subrange(0, i)).len() ==> flagged(items.subrange(0, i))[k]
                == flagged(items)[k],
    decreases items.len(),
{
    if i == items.len() {
        assert(items.subrange(0, i) == items);
    } else {
        assert(items.drop_last().subrange(0, i) == items.subrange(0, i));
        lemma_flagged_prefix(items.drop_last(), i);
    }
}

/// Every item of `flagged(items)` has children.
proof fn lemma_flagged_have_children(items: Seq<BibItem>)
    ensures
        forall|k: int| 0 <= k < flagged(items).len() ==> flagged(items)[k].has_children,
    decreases items.len(),
{
    if items.len() > 0 {
        let f = flagged(items.drop_last());
        lemma_flagged_have_children(items.drop_last());
        assert forall|k: int| 0 <= k < flagged(items).len() implies flagged(items)[k].has_children by {
            if k < f.len() {
                assert(flagged(items)[k] == f[k]);
            }
        }
    }
}

/// Every item with children stands in `flagged(items)`.
proof fn lemma_flagged_complete(items: Seq<BibItem>, item: BibItem)
    requires
        items.contains(item),
        item.has_children,
    ensures
        flagged(items).contains(item),
    decreases items.len(),
{
    if items.last() == item {
        assert(flagged(items).last() == item);
    } else {
        let k = choose|k: int| 0 <= k < items.len() && items[k] == item;
        assert(items.drop_last()[k] == item);
        lemma_flagged_complete(items.drop_last(), item);
        let j = choose|j: int| 0 <= j < flagged(items.drop_last()).len() && flagged(items.drop_last())[j] == item;
        assert(flagged(items)[j] == item);
    }
}

impl SyncIndex {
    /// The keys of the items whose children must be listed, in order: those
    /// flagged as having children.
    pub fn child_queries(items: &Vec<BibItem>) -> (r: Vec<String>)
        ensures
            r@.len() == flagged(items@).len(),
            forall|k: int| 0 <= k < r@.len() ==> r@[k]@ == flagged(items@)[k].key@,
    {
        let mut r: Vec<String> = Vec::new();
        let mut i: usize = 0;
        while i < items.len()
            invariant
                i <= items@.len(),
                r@.len() == flagged(items@.subrange(0, i as int)).len(),
                forall|k: int|
                    0 <= k < r@.len() ==> r@[k]@ == flagged(items@.subrange(0, i as int))[k].key@,
            decreases items@.len() - i,
        {
            assert(items@.subrange(0, i + 1).drop_last() == items@.subrange(0, i as int));
            if items[i].has_children {
                r.push(items[i].key.clone());
            }
            i = i + 1;
        }
        assert(items@.subrange(0, items@.len() as int) == items@);
        r
    }

    /// Builds the index from the listed items and, in the order of
    /// `child_queries`, the children listed for each flagged item.
    pub fn resolve(items: &Vec<BibItem>, listings: &Vec<Vec<ChildItem>>) -> (r: SyncIndex)
        requires
            listings@.len() == flagged(items@).len(),
        ensures
            r@ == index_of(items@, listings@),
    {
        let mut entries: Vec<IndexEntry> = Vec::new();
        let count = listings.len();
        let mut i: usize = 0;
        let mut j: usize = 0;
        while i < items.len()
            invariant
                i <= items@.len(),
                listings@.len() == flagged(items@).len(),
                count == listings@.len(),
                j == flagged(items@.subrange(0, i as int)).len(),
                j <= flagged(items@).len(),
                entries_view(entries@) == index_upto(items@, listings@, j as int),
                keys_unique(entries_view(entries@)),
            decreases items@.len() - i,
        {
            assert(items@.subrange(0, i + 1).drop_last() == items@.subrange(0, i as int));
            proof {
                lemma_flagged_prefix(items@, i + 1);
            }
            if items[i].has_children {
                assert(flagged(items@.subrange(0, i + 1))[j as int] == items@[i as int]);
                assert(flagged(items@.subrange(0, i + 1))[j as int] == flagged(items@)[j as int]);
                let ghost before = entries_view(entries@);
                proof {
                    lemma_index_upto(items@, listings@, j + 1);
                }
                let attachments = pdf_attachments(&listings[j]);
                let entry = IndexEntry { item: copy_item(&items[i]), attachments };
                assert(entry_of(items@, listings@, j as int) == (entry.item, entry.attachments@));
                match find_key(&entries, &items[i].key) {
                    Some(p) => {
                        entries[p] = entry;
                        assert(entries_view(entries@) =~= before.update(
                            p as int,
                            entry_of(items@, listings@, j as int),
                        ));
                    },
                    None => {
                        entries.push(entry);
                        assert(entries_view(entries@) =~= before.push(
                            entry_of(items@, listings@, j as int),
                        ));
                    },
                }
                j = j + 1;
            }
            i = i + 1;
        }
        assert(items@.subrange(0, items@.len() as int) == items@);
        SyncIndex { entries }
    }

    /// The entries, in order.
    pub fn entries(&self) -> (r: &Vec<IndexEntry>)
        ensures
            r@.len() == self@.len(),
            forall|k: int|
                0 <= k < r@.len() ==> (#[trigger] r@[k]).item == self@[k].0
                    && r@[k].attachments@ == self@[k].1,
    {
        &self.entries
    }
}

/// What inserting the first `n` flagged items gives: keys stay unique,
/// every entry is the entry of one of those items, and each of their keys
/// has an entry.
proof fn lemma_index_upto(items: Seq<BibItem>, listings: Seq<Vec<ChildItem>>, n: int)
    requires
        0 <= n <= flagged(items).len(),
        listings.len() == flagged(items).len(),
    ensures
        keys_unique(index_upto(items, listings, n)),
        forall|p: int|
            0 <= p < index_upto(items, listings, n).len() ==> exists|k: int|
                0 <= k < n && (#[trigger] index_upto(items, listings, n)[p]) == entry_of(
                    items,
                    listings,
                    k,
                ),
        forall|k: int|
            0 <= k < n ==> has_key(index_upto(items, listings, n), (#[trigger] flagged(items)[k]).key@),
    decreases n,
{
    if n > 0 {
        lemma_index_upto(items, listings, n - 1);
        let prev = index_upto(items, listings, n - 1);
        let e = entry_of(items, listings, n - 1);
        let t = index_upto(items, listings, n);
        assert(e.0 == flagged(items)[n - 1]);
        if has_key(prev, e.0.key@) {
            let p0 = key_pos(prev, e.0.key@);
            assert(t == prev.update(p0, e));
            assert forall|p: int| 0 <= p < t.len() implies (#[trigger] t[p]).0.key@ == prev[p].0.key@ by {}
            assert forall|p: int| 0 <= p < t.len() implies exists|k: int|
                0 <= k < n && (#[trigger] t[p]) == entry_of(items, listings, k) by {
                if p != p0 {
                    let k = choose|k: int| 0 <= k < n - 1 && prev[p] == entry_of(items, listings, k);
                    assert(t[p] == entry_of(items, listings, k));
                } else {
                    assert(t[p] == entry_of(items, listings, n - 1));
                }
            }
            assert forall|k: int| 0 <= k < n implies has_key(t, (#[trigger] flagged(items)[k]).key@) by {
                if k < n - 1 {
                    let q = choose|q: int| 0 <= q < prev.len() && (#[trigger] prev[q]).0.key@ == flagged(items)[k].key@;
                    assert(t[q].0.key@ == flagged(items)[k].key@);
                } else {
                    assert(t[p0].0.key@ == flagged(items)[k].key@);
                }
            }
        } else {
            assert(t == prev.push(e));
            assert forall|p: int| 0 <= p < t.len() implies exists|k: int|
                0 <= k < n && (#[trigger] t[p]) == entry_of(items, listings, k) by {
                if p < prev.len() {
                    let k = choose|k: int| 0 <= k < n - 1 && prev[p] == entry_of(items, listings, k);
                    assert(t[p] == entry_of(items, listings, k));
                } else {
                    assert(t[p] == entry_of(items, listings, n - 1));
                }
            }
            assert forall|k: int| 0 <= k < n implies has_key(t, (#[trigger] flagged(items)[k]).key@) by {
                if k < n - 1 {
                    let q = choose|q: int| 0 <= q < prev.len() && (#[trigger] prev[q]).0.key@ == flagged(items)[k].key@;
                    assert(t[q].0.key@ == flagged(items)[k].key@);
                } else {
                    assert(t[prev.len() as int].0.key@ == flagged(items)[k].key@);
                }
            }
            assert forall|p: int, q: int|
                0 <= p < t.len() && 0 <= q < t.len() && p != q implies (#[trigger] t[p]).0.key@
                    != (#[trigger] t[q]).0.key@ by {
                if p < prev.len() && q < prev.len() {
                    assert(t[p] == prev[p] && t[q] == prev[q]);
                } else if p < prev.len() {
                    assert(t[p] == prev[p]);
                } else {
                    assert(t[q] == prev[q]);
                }
            }
        }
    }
}

/// Every entry of the index is the entry of a flagged item, and an
/// attachment stands in it exactly when that item's listing holds it and its
/// content type is exactly `application/pdf`.
pub proof fn lemma_index_holds_exactly_pdfs(
    items: Seq<BibItem>,
    listings: Seq<Vec<ChildItem>>,
    p: int,
    a: Attachment,
)
    requires
        listings.len() == flagged(items).len(),
        0 <= p < index_of(items, listings).len(),
    ensures
        exists|k: int|
            0 <= k < listings.len() && index_of(items, listings)[p].0 == flagged(items)[k] && (
            index_of(items, listings)[p].1.contains(a) <==> (#[trigger] listings[k]@.contains(
                ChildItem::Attachment(a),
            ) && is_pdf_type(a.content_type@))),
{
    lemma_index_upto(items, listings, flagged(items).len() as int);
    let k = choose|k: int|
        0 <= k < flagged(items).len() && (#[trigger] index_of(items, listings)[p]) == entry_of(
            items,
            listings,
            k,
        );
    lemma_pdf_filter_exact(listings[k]@, a);
}

/// The index is keyed by item key: no two entries share one.
pub proof fn lemma_index_keys_unique(items: Seq<BibItem>, listings: Seq<Vec<ChildItem>>)
    requires
        listings.len() == flagged(items).len(),
    ensures
        keys_unique(index_of(items, listings)),
{
    lemma_index_upto(items, listings, flagged(items).len() as int);
}

proof fn lemma_push_contains<T>(s: Seq<T>, y: T, x: T)
    ensures
        s.push(y).contains(x) <==> (s.contains(x) || x == y),
{
    if s.contains(x) {
        let k = choose|k: int| 0 <= k < s.len() && s[k] == x;
        assert(s.push(y)[k] == x);
    }
    if x == y {
        assert(s.push(y)[s.len() as int] == x);
    }
    if s.push(y).contains(x) && x != y {
        let k = choose|k: int| 0 <= k < s.push(y).len() && s.push(y)[k] == x;
        assert(s[k] == x);
    }
}

/// An attachment is kept by the PDF filter exactly when it is among the
/// children and its content type is exactly `application/pdf`.
pub proof fn lemma_pdf_filter_exact(children: Seq<ChildItem>, a: Attachment)
    ensures
        pdf_filter(children).contains(a) <==> (children.contains(ChildItem::Attachment(a))
            && is_pdf_type(a.content_type@)),
    decreases children.len(),
{
    if children.len() > 0 {
        let rest = children.drop_last();
        lemma_pdf_filter_exact(rest, a);
        assert(children == rest.push(children.last()));
        lemma_push_contains(rest, children.last(), ChildItem::Attachment(a));
        let f = pdf_filter(rest);
        match children.last() {
            ChildItem::Attachment(x) => {
                if is_pdf_type(x.content_type@) {
                    lemma_push_contains(f, x, a);
                }
            },
            ChildItem::Other => {},
        }
    }
}

/// An item not flagged as having children has no entry in the index, and
/// the key of every listed item flagged so has one.
pub proof fn lemma_index_items_have_children(
    items: Seq<BibItem>,
    listings: Seq<Vec<ChildItem>>,
    item: BibItem,
)
    requires
        listings.len() == flagged(items).len(),
        items.contains(item),
    ensures
        !item.has_children ==> forall|p: int|
            0 <= p < index_of(items, listings).len() ==> (#[trigger] index_of(items, listings)[p]).0
                != item,
        item.has_children ==> has_key(index_of(items, listings), item.key@),
{
    let n = flagged(items).len() as int;
    lemma_flagged_have_children(items);
    lemma_index_upto(items, listings, n);
    if item.has_children {
        lemma_flagged_complete(items, item);
        let j = choose|j: int| 0 <= j < n && flagged(items)[j] == item;
        assert(has_key(index_of(items, listings), flagged(items)[j].key@));
    } else {
        assert forall|p: int| 0 <= p < index_of(items, listings).len() implies (#[trigger] index_of(
            items,
            listings,
        )[p]).0 != item by {
            let k = choose|k: int| 0 <= k < n && index_of(items, listings)[p] == entry_of(items, listings, k);
            assert(flagged(items)[k].has_children);
        }
    }
}

} // verus!

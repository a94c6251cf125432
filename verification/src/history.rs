//! The history store: a bounded sequence of clipboard entries, most recent
//! first, in which no two entries hold the same items.

use vstd::prelude::*;
use crate::clock::current_time;
use crate::models::{same_items, ClipboardEntry, ClipboardItem, EntryView, ItemView, Timestamp};

verus! {

/// The most entries a history holds.
pub const CAPACITY: usize = 20;

/// The item sequences of a history, entry by entry.
pub open spec fn keys(h: Seq<EntryView>) -> Seq<Seq<ItemView>> {
    h.map_values(|e: EntryView| e.items)
}

/// The index of the first entry of `h` that holds exactly `items`, if any.
pub open spec fn position_of(h: Seq<EntryView>, items: Seq<ItemView>) -> Option<int> {
    keys(h).index_of_first(items)
}

/// No two entries of `h` hold the same items.
pub open spec fn distinct(h: Seq<EntryView>) -> bool {
    forall|i: int, j: int| 0 <= i < j < h.len() ==> h[i].items != h[j].items
}

/// What every history is: deduplicated and within capacity.
pub open spec fn valid(h: Seq<EntryView>) -> bool {
    h.len() <= CAPACITY && distinct(h)
}

/// The history that results from merging a copy of `items`, seen at `now`,
/// into `h`: an entry that already holds `items` leaves its place, the copy
/// goes to the front with the new time, and what lies beyond the capacity is
/// dropped.
pub open spec fn merged(h: Seq<EntryView>, items: Seq<ItemView>, now: Timestamp) -> Seq<EntryView> {
    let rest = match position_of(h, items) {
        Some(i) => h.remove(i),
        None => h,
    };
    let all = seq![EntryView { timestamp: now, items }] + rest;
    if all.len() > CAPACITY {
        all.take(CAPACITY as int)
    } else {
        all
    }
}

/// What `position_of` returns: the least index at which `items` occurs, and
/// `None` exactly when it occurs nowhere.
pub proof fn lemma_position_of(h: Seq<EntryView>, items: Seq<ItemView>)
    ensures
        match position_of(h, items) {
            Some(i) => {
                &&& 0 <= i < h.len()
                &&& h[i].items == items
                &&& forall|j: int| 0 <= j < i ==> h[j].items != items
            },
            None => forall|j: int| 0 <= j < h.len() ==> h[j].items != items,
        },
{
    let k = keys(h);
    k.index_of_first_ensures(items);
    match position_of(h, items) {
        Some(i) => {
            assert forall|j: int| 0 <= j < i implies h[j].items != items by {
                assert(k[j] != items);
            }
        },
        None => {
            assert forall|j: int| 0 <= j < h.len() implies h[j].items != items by {
                if h[j].items == items {
                    assert(k[j] == items);
                    assert(k.contains(items));
                }
            }
        },
    }
}

/// An index at which `items` occurs with nothing equal before it is the one
/// that `position_of` returns.
pub proof fn lemma_position_is(h: Seq<EntryView>, items: Seq<ItemView>, i: int)
    requires
        0 <= i < h.len(),
        h[i].items == items,
        forall|j: int| 0 <= j < i ==> h[j].items != items,
    ensures
        position_of(h, items) == Some(i),
{
    lemma_position_of(h, items);
}

/// Where `items` occurs nowhere, `position_of` returns `None`.
pub proof fn lemma_position_none(h: Seq<EntryView>, items: Seq<ItemView>)
    requires
        forall|j: int| 0 <= j < h.len() ==> h[j].items != items,
    ensures
        position_of(h, items) is None,
{
    lemma_position_of(h, items);
}

/// Merging keeps a history deduplicated and within capacity.
pub proof fn lemma_merged_valid(h: Seq<EntryView>, items: Seq<ItemView>, now: Timestamp)
    requires
        valid(h),
    ensures
        valid(merged(h, items, now)),
{
    lemma_position_of(h, items);
}

/// Recency: whatever the history held, the copy that was merged last is at
/// the front, with the time at which it was seen.
pub proof fn front_is_latest(h: Seq<EntryView>, items: Seq<ItemView>, now: Timestamp)
    ensures
        merged(h, items, now).len() > 0,
        merged(h, items, now)[0] == (EntryView { timestamp: now, items }),
{
}

/// One merge: the items of a copy and the time at which it was seen.
pub struct Merge {
    pub items: Seq<ItemView>,
    pub now: Timestamp,
}

/// The history that results from `h` after the given merges, first to last.
pub open spec fn after_merges(h: Seq<EntryView>, merges: Seq<Merge>) -> Seq<EntryView>
    decreases merges.len(),
{
    if merges.len() == 0 {
        h
    } else {
        let before = after_merges(h, merges.drop_last());
        merged(before, merges.last().items, merges.last().now)
    }
}

/// Any run of merges keeps a history deduplicated and within capacity.
pub proof fn lemma_after_merges_valid(h: Seq<EntryView>, merges: Seq<Merge>)
    requires
        valid(h),
    ensures
        valid(after_merges(h, merges)),
    decreases merges.len(),
{
    if merges.len() > 0 {
        lemma_after_merges_valid(h, merges.drop_last());
        lemma_merged_valid(
            after_merges(h, merges.drop_last()),
            merges.last().items,
            merges.last().now,
        );
    }
}

/// Deduplication: whatever is merged into an empty history, and however far
/// the run has come, no two entries hold the same items.
pub proof fn dedup_invariant(merges: Seq<Merge>, done: int)
    requires
        0 <= done <= merges.len(),
    ensures
        distinct(after_merges(Seq::empty(), merges.take(done))),
{
    lemma_after_merges_valid(Seq::empty(), merges.take(done));
}

/// Capacity: whatever is merged into an empty history, and however far the
/// run has come, the history holds at most [`CAPACITY`] entries.
pub proof fn capacity_invariant(merges: Seq<Merge>, done: int)
    requires
        0 <= done <= merges.len(),
    ensures
        after_merges(Seq::empty(), merges.take(done)).len() <= CAPACITY,
{
}

/// Eviction: merging items that a full history does not hold puts them at
/// the front, moves the first nineteen entries back by one and drops the
/// oldest, whose items are then nowhere in the history.
pub proof fn eviction_at_capacity(h: Seq<EntryView>, items: Seq<ItemView>, now: Timestamp)
    requires
        valid(h),
        h.len() == CAPACITY,
        forall|j: int| 0 <= j < h.len() ==> h[j].items != items,
    ensures
        merged(h, items, now).len() == CAPACITY,
        merged(h, items, now)[0] == (EntryView { timestamp: now, items }),
        forall|j: int| 0 <= j < CAPACITY - 1 ==> merged(h, items, now)[j + 1] == h[j],
        forall|j: int| 0 <= j < CAPACITY ==> merged(h, items, now)[j].items != h[CAPACITY - 1].items,
{
    lemma_position_none(h, items);
}

/// Move to front: merging items that the entry at index `i` holds puts that
/// entry at the front with the new time, leaves the length as it was, moves
/// the entries before `i` back by one and leaves those after `i` in place.
pub proof fn move_to_front(h: Seq<EntryView>, i: int, items: Seq<ItemView>, now: Timestamp)
    requires
        valid(h),
        0 <= i < h.len(),
        h[i].items == items,
    ensures
        merged(h, items, now).len() == h.len(),
        merged(h, items, now)[0] == (EntryView { timestamp: now, items }),
        forall|j: int| 0 <= j < i ==> merged(h, items, now)[j + 1] == h[j],
        forall|j: int| i < j < h.len() ==> merged(h, items, now)[j] == h[j],
{
    lemma_position_is(h, items, i);
}

/// Order preservation: merging items that the history does not hold puts
/// them at the front and moves every other entry back by one, as far as the
/// capacity reaches.
pub proof fn order_preservation(h: Seq<EntryView>, items: Seq<ItemView>, now: Timestamp)
    requires
        valid(h),
        forall|j: int| 0 <= j < h.len() ==> h[j].items != items,
    ensures
        h.len() < CAPACITY ==> merged(h, items, now).len() == h.len() + 1,
        h.len() == CAPACITY ==> merged(h, items, now).len() == CAPACITY,
        merged(h, items, now)[0] == (EntryView { timestamp: now, items }),
        forall|j: int| 0 <= j && j + 1 < merged(h, items, now).len() ==> merged(h, items, now)[j + 1] == h[j],
{
    lemma_position_none(h, items);
}

/// The index of the first entry that holds exactly `items`.
fn find_entry(entries: &Vec<ClipboardEntry>, items: &Vec<ClipboardItem>) -> (found: Option<usize>)
    ensures
        match found {
            Some(i) => position_of(entries.deep_view(), items.deep_view()) == Some(i as int),
            None => position_of(entries.deep_view(), items.deep_view()) is None,
        },
{
    let ghost h = entries.deep_view();
    let mut i: usize = 0;
    while i < entries.len()
        invariant
            i <= entries.len(),
            h == entries.deep_view(),
            h.len() == entries.len(),
            forall|j: int| 0 <= j < i ==> h[j].items != items.deep_view(),
        decreases entries.len() - i,
    {
        if same_items(&entries[i].items, items) {
            proof {
                lemma_position_is(h, items.deep_view(), i as int);
            }
            return Some(i);
        }
        i += 1;
    }
    proof {
        lemma_position_none(h, items.deep_view());
    }
    None
}

/// Merges a copy into the entries of a history.
fn merge_entries(entries: &mut Vec<ClipboardEntry>, items: Vec<ClipboardItem>, now: Timestamp)
    requires
        old(entries).len() <= CAPACITY,
    ensures
        final(entries).deep_view() == merged(old(entries).deep_view(), items.deep_view(), now),
{
    proof {
        lemma_position_of(entries.deep_view(), items.deep_view());
    }
    match find_entry(entries, &items) {
        Some(i) => {
            let mut known = entries.remove(i);
            known.timestamp = now;
            entries.insert(0, known);
        },
        None => {
            entries.insert(0, ClipboardEntry { timestamp: now, items });
        },
    }
    if entries.len() > CAPACITY {
        entries.truncate(CAPACITY);
    }
}

/// The clipboard history: at most [`CAPACITY`] entries, most recent first,
/// no two of them with the same items.
pub struct History {
    entries: Vec<ClipboardEntry>,
}

impl DeepView for History {
    type V = Seq<EntryView>;

    closed spec fn deep_view(&self) -> Seq<EntryView> {
        self.entries.deep_view()
    }
}

impl View for History {
    type V = Seq<EntryView>;

    open spec fn view(&self) -> Seq<EntryView> {
        self.deep_view()
    }
}

impl History {
    #[verifier::type_invariant]
    spec fn well_formed(&self) -> bool {
        valid(self@)
    }

    /// An empty history.
    pub fn new() -> (history: History)
        ensures
            history@ == Seq::<EntryView>::empty(),
    {
        History { entries: Vec::new() }
    }

    /// The number of entries.
    pub fn len(&self) -> (n: usize)
        ensures
            n == self@.len(),
            n <= CAPACITY,
    {
        proof {
            use_type_invariant(self);
        }
        self.entries.len()
    }

    /// The index of the entry that holds exactly `items`, if there is one.
    pub fn position(&self, items: &Vec<ClipboardItem>) -> (found: Option<usize>)
        ensures
            match found {
                Some(i) => position_of(self@, items.deep_view()) == Some(i as int),
                None => position_of(self@, items.deep_view()) is None,
            },
    {
        find_entry(&self.entries, items)
    }

    /// Merges a copy of `items`, seen at `now`: a known copy moves to the
    /// front with its time refreshed, a new one is inserted at the front, and
    /// the oldest entry is evicted when the capacity is exceeded.
    pub fn merge_at(&mut self, items: Vec<ClipboardItem>, now: Timestamp)
        ensures
            final(self)@ == merged(old(self)@, items.deep_view(), now),
            valid(final(self)@),
    {
        proof {
            use_type_invariant(&*self);
            lemma_merged_valid(self@, items.deep_view(), now);
        }
        let mut entries: Vec<ClipboardEntry> = Vec::new();
        std::mem::swap(&mut self.entries, &mut entries);
        merge_entries(&mut entries, items, now);
        self.entries = entries;
    }

    /// Merges a copy of `items` seen now, as [`History::merge_at`] does with
    /// the time that the system clock gives.
    pub fn merge(&mut self, items: Vec<ClipboardItem>)
        ensures
            final(self)@.len() > 0,
            final(self)@ == merged(old(self)@, items.deep_view(), final(self)@[0].timestamp),
            valid(final(self)@),
    {
        let now = current_time();
        self.merge_at(items, now);
    }

    /// An independent copy of the entries, most recent first.
    pub fn snapshot(&self) -> (copy: Vec<ClipboardEntry>)
        ensures
            copy.deep_view() == self@,
            valid(copy.deep_view()),
    {
        proof {
            use_type_invariant(self);
        }
        self.entries.clone()
    }
}

} // verus!

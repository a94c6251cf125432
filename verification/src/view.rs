//! Selection and navigation: a snapshot of the history and a cursor into it.

use vstd::arithmetic::div_mod::{
    lemma_add_mod_noop, lemma_mod_add_multiples_vanish, lemma_mod_sub_multiples_vanish,
    lemma_small_mod,
};
use vstd::prelude::*;
use crate::history::{valid, History};
use crate::models::{ClipboardEntry, EntryView};

verus! {

/// Whether `cursor` is a place in a snapshot of `len` entries; with no
/// entries the cursor rests at 0.
pub open spec fn cursor_in_range(cursor: int, len: nat) -> bool {
    if len == 0 {
        cursor == 0
    } else {
        0 <= cursor < len
    }
}

/// The cursor brought into the range of a snapshot of `len` entries.
pub open spec fn clamped(cursor: int, len: nat) -> int {
    if len == 0 {
        0
    } else if cursor < len {
        cursor
    } else {
        len - 1
    }
}

/// The cursor one entry further down, wrapping from the last entry to the
/// first; with no entries it stays.
pub open spec fn moved_down(cursor: int, len: nat) -> int {
    if len == 0 {
        cursor
    } else {
        (cursor + 1) % (len as int)
    }
}

/// The cursor one entry further up, wrapping from the first entry to the
/// last; with no entries it stays.
pub open spec fn moved_up(cursor: int, len: nat) -> int {
    if len == 0 {
        cursor
    } else {
        (cursor + len - 1) % (len as int)
    }
}

/// The cursor after `steps` moves down.
pub open spec fn moved_down_by(cursor: int, len: nat, steps: nat) -> int
    decreases steps,
{
    if steps == 0 {
        cursor
    } else {
        moved_down(moved_down_by(cursor, len, (steps - 1) as nat), len)
    }
}

/// The cursor after `steps` moves up.
pub open spec fn moved_up_by(cursor: int, len: nat, steps: nat) -> int
    decreases steps,
{
    if steps == 0 {
        cursor
    } else {
        moved_up(moved_up_by(cursor, len, (steps - 1) as nat), len)
    }
}

/// The snapshot on display and the cursor into it.
pub struct View {
    snapshot: Vec<ClipboardEntry>,
    cur_idx: usize,
}

impl View {
    /// The entries of the snapshot, most recent first.
    pub closed spec fn entries(&self) -> Seq<EntryView> {
        self.snapshot.deep_view()
    }

    /// The index of the selected entry.
    pub closed spec fn cursor(&self) -> int {
        self.cur_idx as int
    }

    #[verifier::type_invariant]
    spec fn well_formed(&self) -> bool {
        &&& valid(self.entries())
        &&& cursor_in_range(self.cursor(), self.entries().len())
    }

    /// A view of nothing, with the cursor at 0.
    pub fn new() -> (view: View)
        ensures
            view.entries() == Seq::<EntryView>::empty(),
            view.cursor() == 0,
    {
        View { snapshot: Vec::new(), cur_idx: 0 }
    }

    /// Installs a fresh snapshot of `history`. The cursor stays on its index
    /// where the snapshot still has that index, and else goes to the last
    /// entry.
    pub fn update_snapshot(&mut self, history: &History)
        ensures
            final(self).entries() == history.deep_view(),
            final(self).cursor() == clamped(old(self).cursor(), history.deep_view().len()),
    {
        let snapshot = history.snapshot();
        let len = snapshot.len();
        let cur_idx = if len == 0 {
            0
        } else if self.cur_idx < len {
            self.cur_idx
        } else {
            len - 1
        };
        *self = View { snapshot, cur_idx };
    }

    /// The snapshot on display.
    pub fn snapshot(&self) -> (entries: &Vec<ClipboardEntry>)
        ensures
            entries.deep_view() == self.entries(),
            valid(self.entries()),
    {
        proof {
            use_type_invariant(self);
        }
        &self.snapshot
    }

    /// The index of the selected entry: below the number of entries, and 0
    /// where there are none.
    pub fn cursor_index(&self) -> (index: usize)
        ensures
            index == self.cursor(),
            cursor_in_range(self.cursor(), self.entries().len()),
    {
        proof {
            use_type_invariant(self);
        }
        self.cur_idx
    }

    /// The selected entry, if the snapshot has any entry.
    pub fn selected(&self) -> (entry: Option<&ClipboardEntry>)
        ensures
            match entry {
                Some(e) => self.entries().len() > 0 && e.deep_view() == self.entries()[self.cursor()],
                None => self.entries().len() == 0,
            },
    {
        proof {
            use_type_invariant(self);
        }
        if self.snapshot.len() == 0 {
            None
        } else {
            Some(&self.snapshot[self.cur_idx])
        }
    }

    /// Moves the cursor one entry down, from the last entry to the first.
    /// Does nothing where the snapshot is empty.
    pub fn move_down(&mut self)
        ensures
            final(self).entries() == old(self).entries(),
            final(self).cursor() == moved_down(old(self).cursor(), old(self).entries().len()),
    {
        proof {
            use_type_invariant(&*self);
        }
        let len = self.snapshot.len();
        if len > 0 {
            self.cur_idx = (self.cur_idx + 1) % len;
        }
    }

    /// Moves the cursor one entry up, from the first entry to the last.
    /// Does nothing where the snapshot is empty.
    pub fn move_up(&mut self)
        ensures
            final(self).entries() == old(self).entries(),
            final(self).cursor() == moved_up(old(self).cursor(), old(self).entries().len()),
    {
        proof {
            use_type_invariant(&*self);
        }
        let len = self.snapshot.len();
        if len > 0 {
            self.cur_idx = (self.cur_idx + len - 1) % len;
        }
    }
}

/// After `steps` moves down the cursor is `steps` places further on, counted
/// round the snapshot.
pub proof fn lemma_moved_down_by(cursor: int, len: nat, steps: nat)
    requires
        len > 0,
        0 <= cursor < len,
    ensures
        moved_down_by(cursor, len, steps) == (cursor + steps) % (len as int),
    decreases steps,
{
    if steps == 0 {
        lemma_small_mod(cursor as nat, len);
    } else {
        lemma_moved_down_by(cursor, len, (steps - 1) as nat);
        lemma_add_mod_noop(cursor + steps - 1, 1, len as int);
        if len > 1 {
            lemma_small_mod(1, len);
        }
    }
}

/// After `steps` moves up the cursor is `steps` places further back, counted
/// round the snapshot.
pub proof fn lemma_moved_up_by(cursor: int, len: nat, steps: nat)
    requires
        len > 0,
        0 <= cursor < len,
    ensures
        moved_up_by(cursor, len, steps) == (cursor - steps) % (len as int),
    decreases steps,
{
    if steps == 0 {
        lemma_small_mod(cursor as nat, len);
    } else {
        lemma_moved_up_by(cursor, len, (steps - 1) as nat);
        let before = cursor - (steps - 1);
        lemma_add_mod_noop(before, len - 1, len as int);
        lemma_small_mod((len - 1) as nat, len);
        lemma_mod_add_multiples_vanish(before - 1, len as int);
    }
}

/// Wraparound, downwards: as many moves down as the snapshot has entries
/// bring the cursor back to where it started.
pub proof fn down_wraps_around(cursor: int, len: nat)
    requires
        len > 0,
        0 <= cursor < len,
    ensures
        moved_down_by(cursor, len, len) == cursor,
{
    lemma_moved_down_by(cursor, len, len);
    lemma_mod_add_multiples_vanish(cursor, len as int);
    lemma_small_mod(cursor as nat, len);
}

/// Wraparound, upwards: as many moves up as the snapshot has entries bring
/// the cursor back to where it started.
pub proof fn up_wraps_around(cursor: int, len: nat)
    requires
        len > 0,
        0 <= cursor < len,
    ensures
        moved_up_by(cursor, len, len) == cursor,
{
    lemma_moved_up_by(cursor, len, len);
    lemma_mod_sub_multiples_vanish(cursor, len as int);
    lemma_small_mod(cursor as nat, len);
}

} // verus!

//! The change poller: it watches the pasteboard's change counter and merges
//! what was copied into the history.

use vstd::prelude::*;
use crate::history::{merged, History};
use crate::models::{ClipboardItem, EntryView, ItemView, Timestamp};

verus! {

/// What the poller does next.
#[derive(Clone, Copy, Debug, PartialEq, Eq, Structural)]
pub enum PollAction {
    /// Nothing changed: wait for the next tick.
    Sleep,
    /// The counter moved: read the pasteboard's contents and hand them to
    /// [`ClipboardMonitor::on_contents`].
    ReadContents,
    /// The history was brought up to date: tell the listener, then wait for
    /// the next tick.
    Notify,
}

/// The history after the poller has taken in what was read at a changed
/// counter: the items are merged if there are any, and an unreadable or empty
/// pasteboard leaves the history as it was.
pub open spec fn ingested(
    h: Seq<EntryView>,
    contents: Option<Seq<ItemView>>,
    now: Timestamp,
) -> Seq<EntryView> {
    match contents {
        Some(items) => if items.len() > 0 {
            merged(h, items, now)
        } else {
            h
        },
        None => h,
    }
}

/// The state of the change poller: the change counter as it was last seen.
#[derive(Debug)]
pub struct ClipboardMonitor {
    last_change_count: isize,
}

impl ClipboardMonitor {
    /// The counter value that the poller last acted on.
    pub closed spec fn last_seen(&self) -> int {
        self.last_change_count as int
    }

    /// A poller that starts from the counter's present value.
    pub fn new(change_count: isize) -> (monitor: ClipboardMonitor)
        ensures
            monitor.last_seen() == change_count,
    {
        ClipboardMonitor { last_change_count: change_count }
    }

    /// The counter value that the poller last acted on.
    pub fn last_change_count(&self) -> (count: isize)
        ensures
            count == self.last_seen(),
    {
        self.last_change_count
    }

    /// Decides what to do on a tick at which the counter reads
    /// `change_count`: any value other than the one last seen means that the
    /// pasteboard changed.
    pub fn on_tick(&self, change_count: isize) -> (action: PollAction)
        ensures
            action == if change_count == self.last_seen() {
                PollAction::Sleep
            } else {
                PollAction::ReadContents
            },
    {
        if change_count == self.last_change_count {
            PollAction::Sleep
        } else {
            PollAction::ReadContents
        }
    }

    /// Takes in what was read when the counter read `change_count`, as seen
    /// at `now`: merges the items if there are any, and only then records the
    /// counter. `contents` is `None` where the pasteboard could not be read.
    pub fn on_contents_at(
        &mut self,
        history: &mut History,
        change_count: isize,
        contents: Option<Vec<ClipboardItem>>,
        now: Timestamp,
    ) -> (action: PollAction)
        ensures
            final(history)@ == ingested(old(history)@, contents.deep_view(), now),
            final(self).last_seen() == change_count,
            action == PollAction::Notify,
    {
        match contents {
            Some(items) => {
                if items.len() > 0 {
                    history.merge_at(items, now);
                }
            },
            None => {},
        }
        self.last_change_count = change_count;
        PollAction::Notify
    }

    /// Takes in what was read when the counter read `change_count`, as
    /// [`ClipboardMonitor::on_contents_at`] does with the time that the
    /// system clock gives. The clock is read only where items are merged,
    /// and the merged entry, then at the front, carries its time.
    pub fn on_contents(
        &mut self,
        history: &mut History,
        change_count: isize,
        contents: Option<Vec<ClipboardItem>>,
    ) -> (action: PollAction)
        ensures
            final(history)@ == ingested(
                old(history)@,
                contents.deep_view(),
                final(history)@[0].timestamp,
            ),
            final(self).last_seen() == change_count,
            action == PollAction::Notify,
    {
        match contents {
            Some(items) => {
                if items.len() > 0 {
                    history.merge(items);
                }
            },
            None => {},
        }
        self.last_change_count = change_count;
        PollAction::Notify
    }
}

} // verus!

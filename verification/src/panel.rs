//! The panel controller: whether the panel is on screen, what it shows, and
//! what the presentation layer has to do after each request.

use vstd::prelude::*;
use crate::history::{valid, History};
use crate::models::{copy_items, ClipboardEntry, ClipboardItem, EntryView};
use crate::view::{clamped, cursor_in_range, moved_down, moved_up};

verus! {

/// Whether the panel is on screen.
#[derive(Clone, Copy, Debug, PartialEq, Eq, Structural)]
pub enum PanelState {
    Hidden,
    Visible,
}

/// The measures from which the panel's height is derived: the height of one
/// row, and the least and the greatest height of the panel.
#[derive(Clone, Copy, Debug)]
pub struct PanelLayout {
    row_height: u32,
    min_height: u32,
    max_height: u32,
}

/// The height for `entry_count` entries: one row for each entry and one row
/// where there is none, kept between the least and the greatest height.
pub open spec fn desired_height(
    entry_count: nat,
    row_height: int,
    min_height: int,
    max_height: int,
) -> int {
    let rows: int = if entry_count < 1 {
        1
    } else {
        entry_count as int
    };
    let wanted = rows * row_height;
    if wanted < min_height {
        min_height
    } else if wanted > max_height {
        max_height
    } else {
        wanted
    }
}

impl PanelLayout {
    /// The height of one row.
    pub closed spec fn row(&self) -> int {
        self.row_height as int
    }

    /// The least height of the panel.
    pub closed spec fn least(&self) -> int {
        self.min_height as int
    }

    /// The greatest height of the panel.
    pub closed spec fn greatest(&self) -> int {
        self.max_height as int
    }

    /// The height of a panel that shows `entry_count` entries.
    pub open spec fn height_of(&self, entry_count: nat) -> int {
        desired_height(entry_count, self.row(), self.least(), self.greatest())
    }

    #[verifier::type_invariant]
    spec fn well_formed(&self) -> bool {
        self.least() <= self.greatest()
    }

    /// A layout with the given measures, or `None` where the least height
    /// is above the greatest.
    pub fn new(row_height: u32, min_height: u32, max_height: u32) -> (layout: Option<PanelLayout>)
        ensures
            layout is Some <==> min_height <= max_height,
            layout matches Some(l) ==> l.row() == row_height && l.least() == min_height
                && l.greatest() == max_height,
    {
        if min_height <= max_height {
            Some(PanelLayout { row_height, min_height, max_height })
        } else {
            None
        }
    }

    /// The height of a panel that shows `entry_count` entries.
    pub fn height_for(&self, entry_count: usize) -> (height: u32)
        ensures
            height == self.height_of(entry_count as nat),
            self.least() <= height <= self.greatest(),
    {
        proof {
            use_type_invariant(self);
        }
        let rows: u128 = if entry_count < 1 {
            1
        } else {
            entry_count as u128
        };
        assert(rows * (self.row_height as u128) <= 0x1_0000_0000_0000_0000 * 0x1_0000_0000)
            by (nonlinear_arith)
            requires
                rows <= 0x1_0000_0000_0000_0000,
                (self.row_height as u128) <= 0x1_0000_0000,
        ;
        let wanted: u128 = rows * (self.row_height as u128);
        if wanted < self.min_height as u128 {
            self.min_height
        } else if wanted > self.max_height as u128 {
            self.max_height
        } else {
            wanted as u32
        }
    }
}

/// What the presentation layer has to do after a request to the panel.
#[derive(Clone, Copy, Debug, PartialEq, Eq, Structural)]
pub enum PanelAction {
    /// Nothing.
    Nothing,
    /// Put the panel on screen, `height` high.
    Present { height: u32 },
    /// The panel is on screen: resize it to `height` and draw it again.
    Refresh { height: u32 },
    /// Take the panel off screen.
    Close,
}

/// The panel as the requests see it: whether it is on screen, the snapshot
/// it shows, and the cursor into that snapshot.
pub struct PanelModel {
    pub state: PanelState,
    pub entries: Seq<EntryView>,
    pub cursor: int,
}

/// The panel after `show` with the history `h`: visible, with a fresh
/// snapshot. A panel that was hidden starts with the cursor on the first
/// entry; one that was visible keeps its cursor, brought into range.
pub open spec fn shown(m: PanelModel, h: Seq<EntryView>) -> PanelModel {
    PanelModel {
        state: PanelState::Visible,
        entries: h,
        cursor: if m.state == PanelState::Visible {
            clamped(m.cursor, h.len())
        } else {
            0
        },
    }
}

/// What `show` asks of the presentation layer: to present a panel that was
/// hidden, to refresh one that was visible.
pub open spec fn show_action(m: PanelModel, height: int) -> PanelAction {
    if m.state == PanelState::Visible {
        PanelAction::Refresh { height: height as u32 }
    } else {
        PanelAction::Present { height: height as u32 }
    }
}

/// The panel after it was hidden: hidden, with snapshot and cursor as they were.
pub open spec fn hidden(m: PanelModel) -> PanelModel {
    PanelModel { state: PanelState::Hidden, entries: m.entries, cursor: m.cursor }
}

/// What hiding asks of the presentation layer: to close a panel that was
/// visible, and nothing where it was hidden already.
pub open spec fn hide_action(m: PanelModel) -> PanelAction {
    if m.state == PanelState::Visible {
        PanelAction::Close
    } else {
        PanelAction::Nothing
    }
}

/// The panel after the history `h` changed: a visible panel takes a fresh
/// snapshot and keeps its cursor, brought into range; a hidden one is left
/// as it was.
pub open spec fn synced(m: PanelModel, h: Seq<EntryView>) -> PanelModel {
    if m.state == PanelState::Visible {
        PanelModel { state: PanelState::Visible, entries: h, cursor: clamped(m.cursor, h.len()) }
    } else {
        m
    }
}

/// What a change of the history asks of the presentation layer: to refresh
/// a visible panel, and nothing where the panel is hidden.
pub open spec fn sync_action(m: PanelModel, height: int) -> PanelAction {
    if m.state == PanelState::Visible {
        PanelAction::Refresh { height: height as u32 }
    } else {
        PanelAction::Nothing
    }
}

/// The panel after `toggle` with the history `h`: a visible panel is hidden,
/// a hidden one is shown.
pub open spec fn toggled(m: PanelModel, h: Seq<EntryView>) -> PanelModel {
    if m.state == PanelState::Visible {
        hidden(m)
    } else {
        shown(m, h)
    }
}

/// What `toggle` asks of the presentation layer: to close a visible panel,
/// to present a hidden one.
pub open spec fn toggle_action(m: PanelModel, height: int) -> PanelAction {
    if m.state == PanelState::Visible {
        PanelAction::Close
    } else {
        PanelAction::Present { height: height as u32 }
    }
}

/// The panel after a move of the cursor to `cursor`.
pub open spec fn with_cursor(m: PanelModel, cursor: int) -> PanelModel {
    PanelModel { state: m.state, entries: m.entries, cursor }
}

/// The entry that was chosen, and what the presentation layer has to do
/// next: `items` are written to the pasteboard, in this order, then `action`
/// is carried out.
#[derive(Debug)]
pub struct Activation {
    pub items: Vec<ClipboardItem>,
    pub action: PanelAction,
}

/// What a key asks of the panel.
#[derive(Clone, Copy, Debug, PartialEq, Eq, Structural)]
pub enum KeyCommand {
    MoveDown,
    MoveUp,
    Activate,
    Dismiss,
}

/// The command that a key stands for: `j` moves down, `k` moves up, `enter`
/// chooses the entry under the cursor, `escape` dismisses the panel, and any
/// other key stands for nothing.
pub open spec fn command_for(key: Seq<char>) -> Option<KeyCommand> {
    if key == "j"@ {
        Some(KeyCommand::MoveDown)
    } else if key == "k"@ {
        Some(KeyCommand::MoveUp)
    } else if key == "enter"@ {
        Some(KeyCommand::Activate)
    } else if key == "escape"@ {
        Some(KeyCommand::Dismiss)
    } else {
        None
    }
}

fn same_text(a: &str, b: &str) -> (same: bool)
    ensures
        same == (a@ == b@),
{
    a.to_owned() == b.to_owned()
}

/// The command that a key stands for.
pub fn key_command(key: &str) -> (command: Option<KeyCommand>)
    ensures
        command == command_for(key@),
{
    if same_text(key, "j") {
        Some(KeyCommand::MoveDown)
    } else if same_text(key, "k") {
        Some(KeyCommand::MoveUp)
    } else if same_text(key, "enter") {
        Some(KeyCommand::Activate)
    } else if same_text(key, "escape") {
        Some(KeyCommand::Dismiss)
    } else {
        None
    }
}

/// What the presentation layer has to do after a key.
#[derive(Debug)]
pub enum KeyOutcome {
    /// Nothing: the key stands for nothing, or there was nothing to choose.
    Ignored,
    /// The cursor is now at `cursor`: scroll to it and draw the panel again.
    Moved { cursor: usize },
    /// An entry was chosen.
    Chosen(Activation),
    /// The panel was dismissed: carry out the action.
    Dismissed(PanelAction),
}

/// The panel controller.
pub struct Panel {
    state: PanelState,
    view: crate::view::View,
    layout: PanelLayout,
}

impl View for Panel {
    type V = PanelModel;

    closed spec fn view(&self) -> PanelModel {
        PanelModel { state: self.state, entries: self.view.entries(), cursor: self.view.cursor() }
    }
}

impl Panel {
    /// The measures that the panel was made with.
    pub closed spec fn layout(&self) -> PanelLayout {
        self.layout
    }

    /// The height of the panel for the snapshot that it shows.
    pub open spec fn height(&self) -> int {
        self.layout().height_of(self@.entries.len())
    }

    /// A hidden panel that shows nothing yet.
    pub fn new(layout: PanelLayout) -> (panel: Panel)
        ensures
            panel@.state == PanelState::Hidden,
            panel@.entries == Seq::<EntryView>::empty(),
            panel@.cursor == 0,
            panel.layout() == layout,
    {
        Panel { state: PanelState::Hidden, view: crate::view::View::new(), layout }
    }

    /// Whether the panel is on screen.
    pub fn state(&self) -> (state: PanelState)
        ensures
            state == self@.state,
    {
        self.state
    }

    /// The snapshot on display: deduplicated and within capacity.
    pub fn current_snapshot(&self) -> (entries: &Vec<ClipboardEntry>)
        ensures
            entries.deep_view() == self@.entries,
            valid(self@.entries),
    {
        self.view.snapshot()
    }

    /// The index of the selected entry: below the number of entries, and 0
    /// where there are none.
    pub fn current_cursor(&self) -> (index: usize)
        ensures
            index == self@.cursor,
            cursor_in_range(self@.cursor, self@.entries.len()),
    {
        self.view.cursor_index()
    }

    /// The height of the panel for the snapshot that it shows.
    pub fn panel_height(&self) -> (height: u32)
        ensures
            height == self.height(),
    {
        self.layout.height_for(self.view.snapshot().len())
    }

    /// Shows the panel: a hidden panel takes a fresh snapshot and is
    /// presented; a visible one is refreshed from a fresh snapshot and stays
    /// as it is.
    pub fn show(&mut self, history: &History) -> (action: PanelAction)
        ensures
            final(self)@ == shown(old(self)@, history@),
            final(self).layout() == old(self).layout(),
            action == show_action(old(self)@, final(self).height()),
    {
        let was_visible = self.state == PanelState::Visible;
        if !was_visible {
            self.view = crate::view::View::new();
        }
        self.view.update_snapshot(history);
        self.state = PanelState::Visible;
        let height = self.panel_height();
        if was_visible {
            PanelAction::Refresh { height }
        } else {
            PanelAction::Present { height }
        }
    }

    /// Hides the panel: a visible panel is closed, a hidden one is left
    /// alone.
    pub fn hide_panel(&mut self) -> (action: PanelAction)
        ensures
            final(self)@ == hidden(old(self)@),
            final(self).layout() == old(self).layout(),
            action == hide_action(old(self)@),
    {
        let was_visible = self.state == PanelState::Visible;
        self.state = PanelState::Hidden;
        if was_visible {
            PanelAction::Close
        } else {
            PanelAction::Nothing
        }
    }

    /// Shows a hidden panel and hides a visible one.
    pub fn toggle(&mut self, history: &History) -> (action: PanelAction)
        ensures
            final(self)@ == toggled(old(self)@, history@),
            final(self).layout() == old(self).layout(),
            action == toggle_action(old(self)@, final(self).height()),
    {
        if self.state == PanelState::Visible {
            self.hide_panel()
        } else {
            self.show(history)
        }
    }

    /// Reacts to a change of the history: a visible panel is refreshed from
    /// a fresh snapshot, a hidden one does nothing.
    pub fn sync_history(&mut self, history: &History) -> (action: PanelAction)
        ensures
            final(self)@ == synced(old(self)@, history@),
            final(self).layout() == old(self).layout(),
            action == sync_action(old(self)@, final(self).height()),
    {
        if self.state == PanelState::Visible {
            self.view.update_snapshot(history);
            let height = self.panel_height();
            PanelAction::Refresh { height }
        } else {
            PanelAction::Nothing
        }
    }

    /// Moves the cursor one entry down, from the last entry to the first.
    pub fn move_down(&mut self)
        ensures
            final(self)@ == with_cursor(
                old(self)@,
                moved_down(old(self)@.cursor, old(self)@.entries.len()),
            ),
            final(self).layout() == old(self).layout(),
    {
        self.view.move_down();
    }

    /// Moves the cursor one entry up, from the first entry to the last.
    pub fn move_up(&mut self)
        ensures
            final(self)@ == with_cursor(
                old(self)@,
                moved_up(old(self)@.cursor, old(self)@.entries.len()),
            ),
            final(self).layout() == old(self).layout(),
    {
        self.view.move_up();
    }

    /// Chooses the entry at `index`: hands out its items, in the order in
    /// which they were captured, to be written to the pasteboard, and hides
    /// the panel.
    pub fn activate(&mut self, index: usize) -> (activation: Activation)
        requires
            index < old(self)@.entries.len(),
        ensures
            activation.items.deep_view() == old(self)@.entries[index as int].items,
            activation.action == hide_action(old(self)@),
            final(self)@ == hidden(old(self)@),
            final(self).layout() == old(self).layout(),
    {
        let items = copy_items(&self.view.snapshot()[index].items);
        let action = self.hide_panel();
        Activation { items, action }
    }

    /// Chooses the entry under the cursor, as [`Panel::activate`] does.
    pub fn activate_selected(&mut self) -> (activation: Activation)
        requires
            old(self)@.entries.len() > 0,
        ensures
            activation.items.deep_view() == old(self)@.entries[old(self)@.cursor].items,
            activation.action == hide_action(old(self)@),
            final(self)@ == hidden(old(self)@),
            final(self).layout() == old(self).layout(),
    {
        let index = self.view.cursor_index();
        self.activate(index)
    }

    /// Reacts to a key: a move key moves the cursor, `enter` chooses the
    /// entry under the cursor where there is one, `escape` dismisses the
    /// panel, and any other key is ignored.
    pub fn handle_key(&mut self, key: &str) -> (outcome: KeyOutcome)
        ensures
            final(self).layout() == old(self).layout(),
            match command_for(key@) {
                Some(KeyCommand::MoveDown) => {
                    &&& final(self)@ == with_cursor(
                        old(self)@,
                        moved_down(old(self)@.cursor, old(self)@.entries.len()),
                    )
                    &&& outcome matches KeyOutcome::Moved { cursor }
                    &&& cursor == final(self)@.cursor
                },
                Some(KeyCommand::MoveUp) => {
                    &&& final(self)@ == with_cursor(
                        old(self)@,
                        moved_up(old(self)@.cursor, old(self)@.entries.len()),
                    )
                    &&& outcome matches KeyOutcome::Moved { cursor }
                    &&& cursor == final(self)@.cursor
                },
                Some(KeyCommand::Activate) => if old(self)@.entries.len() > 0 {
                    &&& final(self)@ == hidden(old(self)@)
                    &&& outcome matches KeyOutcome::Chosen(activation)
                    &&& activation.items.deep_view() == old(self)@.entries[old(self)@.cursor].items
                    &&& activation.action == hide_action(old(self)@)
                } else {
                    &&& final(self)@ == old(self)@
                    &&& outcome is Ignored
                },
                Some(KeyCommand::Dismiss) => {
                    &&& final(self)@ == hidden(old(self)@)
                    &&& outcome matches KeyOutcome::Dismissed(action)
                    &&& action == hide_action(old(self)@)
                },
                None => {
                    &&& final(self)@ == old(self)@
                    &&& outcome is Ignored
                },
            },
    {
        match key_command(key) {
            Some(KeyCommand::MoveDown) => {
                self.move_down();
                KeyOutcome::Moved { cursor: self.current_cursor() }
            },
            Some(KeyCommand::MoveUp) => {
                self.move_up();
                KeyOutcome::Moved { cursor: self.current_cursor() }
            },
            Some(KeyCommand::Activate) => {
                if self.current_snapshot().len() > 0 {
                    KeyOutcome::Chosen(self.activate_selected())
                } else {
                    KeyOutcome::Ignored
                }
            },
            Some(KeyCommand::Dismiss) => KeyOutcome::Dismissed(self.dismiss()),
            None => KeyOutcome::Ignored,
        }
    }

    /// Closes the panel without writing anything back.
    pub fn dismiss(&mut self) -> (action: PanelAction)
        ensures
            final(self)@ == hidden(old(self)@),
            final(self).layout() == old(self).layout(),
            action == hide_action(old(self)@),
    {
        self.hide_panel()
    }
}

} // verus!

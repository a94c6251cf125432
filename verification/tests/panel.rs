use stele::history::History;
use stele::models::{ClipboardItem, ImageFormat, Timestamp};
use stele::panel::{
    key_command, KeyCommand, KeyOutcome, Panel, PanelAction, PanelLayout, PanelState,
};
use stele::pasteboard::{pasteboard_writes, PasteboardWrite};

fn layout() -> PanelLayout {
    PanelLayout::new(40, 60, 250).unwrap()
}

fn filled(n: usize) -> History {
    let mut history = History::new();
    for i in 0..n {
        history.merge_at(
            vec![ClipboardItem::Text(i.to_string())],
            Timestamp { secs: i as i64, nanos: 0 },
        );
    }
    history
}

fn label(i: usize) -> Vec<ClipboardItem> {
    vec![ClipboardItem::Text(i.to_string())]
}

#[test]
fn a_layout_needs_its_least_height_not_above_its_greatest() {
    assert!(PanelLayout::new(40, 60, 250).is_some());
    assert!(PanelLayout::new(40, 250, 250).is_some());
    assert!(PanelLayout::new(0, 0, 0).is_some());
    assert!(PanelLayout::new(40, 251, 250).is_none());
    assert!(PanelLayout::new(1, u32::MAX, 0).is_none());
}

#[test]
fn height_is_rows_times_row_height_kept_within_bounds() {
    let layout = layout();
    // an empty history still takes one row, raised to the least height
    assert_eq!(layout.height_for(0), 60);
    assert_eq!(layout.height_for(1), 60);
    assert_eq!(layout.height_for(2), 80);
    assert_eq!(layout.height_for(3), 120);
    assert_eq!(layout.height_for(6), 240);
    assert_eq!(layout.height_for(7), 250);
    assert_eq!(layout.height_for(20), 250);
}

#[test]
fn height_is_never_zero_for_an_empty_history() {
    let layout = PanelLayout::new(24, 0, 1000).unwrap();
    assert_eq!(layout.height_for(0), 24);
    assert_eq!(layout.height_for(1), 24);
    assert_eq!(layout.height_for(20), 480);
}

#[test]
fn height_does_not_overflow() {
    let layout = PanelLayout::new(u32::MAX, 0, u32::MAX).unwrap();
    assert_eq!(layout.height_for(1), u32::MAX);
    assert_eq!(layout.height_for(usize::MAX), u32::MAX);
    let flat = PanelLayout::new(0, 5, 9).unwrap();
    assert_eq!(flat.height_for(usize::MAX), 5);
}

#[test]
fn a_new_panel_is_hidden_and_shows_nothing() {
    let panel = Panel::new(layout());
    assert_eq!(panel.state(), PanelState::Hidden);
    assert!(panel.current_snapshot().is_empty());
    assert_eq!(panel.current_cursor(), 0);
    assert_eq!(panel.panel_height(), 60);
}

#[test]
fn show_presents_a_hidden_panel_with_a_fresh_snapshot() {
    let mut panel = Panel::new(layout());
    let action = panel.show(&filled(3));
    assert_eq!(action, PanelAction::Present { height: 120 });
    assert_eq!(panel.state(), PanelState::Visible);
    assert_eq!(panel.current_snapshot().len(), 3);
    assert_eq!(panel.current_snapshot()[0].items, label(2));
    assert_eq!(panel.current_cursor(), 0);
    assert_eq!(panel.panel_height(), 120);
}

#[test]
fn show_on_an_empty_history_presents_one_row() {
    let mut panel = Panel::new(PanelLayout::new(40, 10, 250).unwrap());
    assert_eq!(panel.show(&History::new()), PanelAction::Present { height: 40 });
    assert_eq!(panel.state(), PanelState::Visible);
}

#[test]
fn show_while_visible_refreshes_and_keeps_the_cursor() {
    let mut panel = Panel::new(layout());
    panel.show(&filled(3));
    panel.move_down();
    panel.move_down();
    let action = panel.show(&filled(5));
    assert_eq!(action, PanelAction::Refresh { height: 200 });
    assert_eq!(panel.state(), PanelState::Visible);
    assert_eq!(panel.current_snapshot().len(), 5);
    assert_eq!(panel.current_cursor(), 2);
}

#[test]
fn showing_again_after_hiding_starts_at_the_first_entry() {
    let mut panel = Panel::new(layout());
    panel.show(&filled(3));
    panel.move_down();
    assert_eq!(panel.current_cursor(), 1);
    panel.hide_panel();
    assert_eq!(panel.show(&filled(3)), PanelAction::Present { height: 120 });
    assert_eq!(panel.current_cursor(), 0);
}

#[test]
fn hiding_closes_a_visible_panel_and_leaves_a_hidden_one() {
    let mut panel = Panel::new(layout());
    assert_eq!(panel.hide_panel(), PanelAction::Nothing);
    assert_eq!(panel.state(), PanelState::Hidden);
    panel.show(&filled(2));
    assert_eq!(panel.hide_panel(), PanelAction::Close);
    assert_eq!(panel.state(), PanelState::Hidden);
    assert_eq!(panel.hide_panel(), PanelAction::Nothing);
}

#[test]
fn toggle_alternates_between_present_and_close() {
    let mut panel = Panel::new(layout());
    let history = filled(2);
    assert_eq!(panel.toggle(&history), PanelAction::Present { height: 80 });
    assert_eq!(panel.state(), PanelState::Visible);
    assert_eq!(panel.toggle(&history), PanelAction::Close);
    assert_eq!(panel.state(), PanelState::Hidden);
    assert_eq!(panel.toggle(&history), PanelAction::Present { height: 80 });
    assert_eq!(panel.state(), PanelState::Visible);
}

#[test]
fn sync_refreshes_a_visible_panel() {
    let mut panel = Panel::new(layout());
    let mut history = filled(2);
    panel.show(&history);
    panel.move_down();
    history.merge_at(label(7), Timestamp { secs: 7, nanos: 0 });
    assert_eq!(panel.current_snapshot().len(), 2);
    assert_eq!(panel.sync_history(&history), PanelAction::Refresh { height: 120 });
    assert_eq!(panel.current_snapshot().len(), 3);
    assert_eq!(panel.current_snapshot()[0].items, label(7));
    assert_eq!(panel.current_cursor(), 1);
    assert_eq!(panel.state(), PanelState::Visible);
}

#[test]
fn sync_does_nothing_to_a_hidden_panel() {
    let mut panel = Panel::new(layout());
    assert_eq!(panel.sync_history(&filled(3)), PanelAction::Nothing);
    assert_eq!(panel.state(), PanelState::Hidden);
    assert!(panel.current_snapshot().is_empty());
    // the next show pulls the current state
    assert_eq!(panel.show(&filled(3)), PanelAction::Present { height: 120 });
    assert_eq!(panel.current_snapshot().len(), 3);
}

#[test]
fn activating_hands_out_the_items_in_order_and_hides_the_panel() {
    let mut history = History::new();
    history.merge_at(label(0), Timestamp { secs: 0, nanos: 0 });
    let both = vec![
        ClipboardItem::Text("see https://example.com/".to_string()),
        ClipboardItem::Url("https://example.com/".to_string()),
        ClipboardItem::Image { bytes: vec![1, 2], format: ImageFormat::Png },
    ];
    history.merge_at(both.clone(), Timestamp { secs: 1, nanos: 0 });
    history.merge_at(label(2), Timestamp { secs: 2, nanos: 0 });
    let mut panel = Panel::new(layout());
    panel.show(&history);
    let activation = panel.activate(1);
    assert_eq!(activation.items, both);
    assert_eq!(activation.action, PanelAction::Close);
    assert_eq!(panel.state(), PanelState::Hidden);
    assert_eq!(
        pasteboard_writes(&activation.items),
        vec![
            PasteboardWrite::Text("see https://example.com/".to_string()),
            PasteboardWrite::Url("https://example.com/".to_string()),
            PasteboardWrite::Png(vec![1, 2]),
        ]
    );
}

#[test]
fn activating_each_index_hands_out_that_entry() {
    for i in 0..4 {
        let mut panel = Panel::new(layout());
        panel.show(&filled(4));
        let activation = panel.activate(i);
        assert_eq!(activation.items, label(3 - i));
        assert_eq!(panel.state(), PanelState::Hidden);
    }
}

#[test]
fn activating_the_selection_follows_the_cursor() {
    let mut panel = Panel::new(layout());
    panel.show(&filled(3));
    panel.move_up();
    let activation = panel.activate_selected();
    assert_eq!(activation.items, label(0));
    assert_eq!(activation.action, PanelAction::Close);
    assert_eq!(panel.state(), PanelState::Hidden);
}

#[test]
fn dismissing_hides_without_handing_out_anything() {
    let mut panel = Panel::new(layout());
    panel.show(&filled(3));
    assert_eq!(panel.dismiss(), PanelAction::Close);
    assert_eq!(panel.state(), PanelState::Hidden);
    assert_eq!(panel.dismiss(), PanelAction::Nothing);
}

#[test]
fn keys_stand_for_commands() {
    assert_eq!(key_command("j"), Some(KeyCommand::MoveDown));
    assert_eq!(key_command("k"), Some(KeyCommand::MoveUp));
    assert_eq!(key_command("enter"), Some(KeyCommand::Activate));
    assert_eq!(key_command("escape"), Some(KeyCommand::Dismiss));
    assert_eq!(key_command("J"), None);
    assert_eq!(key_command("jj"), None);
    assert_eq!(key_command("Enter"), None);
    assert_eq!(key_command("esc"), None);
    assert_eq!(key_command(""), None);
    assert_eq!(key_command("down"), None);
}

#[test]
fn move_keys_move_the_cursor_round_the_snapshot() {
    let mut panel = Panel::new(layout());
    panel.show(&filled(3));
    assert!(matches!(panel.handle_key("j"), KeyOutcome::Moved { cursor: 1 }));
    assert!(matches!(panel.handle_key("j"), KeyOutcome::Moved { cursor: 2 }));
    assert!(matches!(panel.handle_key("j"), KeyOutcome::Moved { cursor: 0 }));
    assert!(matches!(panel.handle_key("k"), KeyOutcome::Moved { cursor: 2 }));
    assert_eq!(panel.current_cursor(), 2);
    assert_eq!(panel.state(), PanelState::Visible);
}

#[test]
fn enter_chooses_the_entry_under_the_cursor() {
    let mut panel = Panel::new(layout());
    panel.show(&filled(3));
    panel.handle_key("j");
    match panel.handle_key("enter") {
        KeyOutcome::Chosen(activation) => {
            assert_eq!(activation.items, label(1));
            assert_eq!(activation.action, PanelAction::Close);
        }
        other => panic!("unexpected outcome: {:?}", other),
    }
    assert_eq!(panel.state(), PanelState::Hidden);
}

#[test]
fn enter_on_an_empty_snapshot_is_ignored() {
    let mut panel = Panel::new(layout());
    panel.show(&History::new());
    assert!(matches!(panel.handle_key("enter"), KeyOutcome::Ignored));
    assert_eq!(panel.state(), PanelState::Visible);
    assert!(matches!(panel.handle_key("j"), KeyOutcome::Moved { cursor: 0 }));
    assert!(matches!(panel.handle_key("k"), KeyOutcome::Moved { cursor: 0 }));
}

#[test]
fn escape_dismisses_the_panel() {
    let mut panel = Panel::new(layout());
    panel.show(&filled(2));
    assert!(matches!(panel.handle_key("escape"), KeyOutcome::Dismissed(PanelAction::Close)));
    assert_eq!(panel.state(), PanelState::Hidden);
}

#[test]
fn other_keys_change_nothing() {
    let mut panel = Panel::new(layout());
    panel.show(&filled(2));
    panel.move_down();
    assert!(matches!(panel.handle_key("x"), KeyOutcome::Ignored));
    assert!(matches!(panel.handle_key("tab"), KeyOutcome::Ignored));
    assert_eq!(panel.current_cursor(), 1);
    assert_eq!(panel.state(), PanelState::Visible);
    assert_eq!(panel.current_snapshot().len(), 2);
}

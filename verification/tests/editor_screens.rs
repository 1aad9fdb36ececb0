use single_button_game::text::is_control;
use single_button_game::canvas::{next_snap_grid, CanvasAction, CanvasInput, CanvasState};
use single_button_game::editor::{EditorBuildState, EditorSaveError};
use single_button_game::flow::GameState;
use single_button_game::handles::HandlePosition;
use single_button_game::sequence::{PathEntered, RowStyle, SeqInput, SequenceEditorState};

fn strings(v: &[&str]) -> Vec<String> {
    v.iter().map(|s| s.to_string()).collect()
}

fn seq_with(entries: &[&str]) -> SequenceEditorState {
    let mut s = SequenceEditorState::new();
    let names = vec![None; entries.len()];
    s.fill(strings(entries), names);
    s
}

#[test]
fn handle_opposites_mirror() {
    for h in HandlePosition::all() {
        assert_eq!(h.opposite().opposite(), h);
        let (x, y) = h.offset_signs();
        assert_eq!(h.opposite().offset_signs(), (-x, -y));
        assert_eq!(h.controls_x(), x != 0);
        assert_eq!(h.controls_y(), y != 0);
    }
    assert_eq!(HandlePosition::TopLeft.opposite(), HandlePosition::BottomRight);
    assert_eq!(HandlePosition::MiddleLeft.offset_signs(), (-1, 0));
    assert!(!HandlePosition::TopCenter.controls_x());
    assert!(!HandlePosition::MiddleRight.controls_y());
}

#[test]
fn grabbed_entry_moves_and_comes_back() {
    let mut s = seq_with(&["a", "b", "c"]);
    s.move_down();
    assert_eq!(s.cursor, 1);
    assert!(s.toggle_grab());
    assert_eq!(s.grabbed, Some(1));
    s.move_up();
    assert_eq!(s.entries, strings(&["b", "a", "c"]));
    assert_eq!(s.cursor, 0);
    s.move_up();
    assert_eq!(s.entries, strings(&["b", "a", "c"]));
    s.move_down();
    assert_eq!(s.entries, strings(&["a", "b", "c"]));
    assert_eq!(s.grabbed, Some(1));
    s.move_down();
    s.move_down();
    assert_eq!(s.entries, strings(&["a", "c", "b"]));
    assert_eq!(s.cursor, 2);
}

#[test]
fn cursor_stays_in_the_list() {
    let mut s = seq_with(&["a", "b"]);
    s.move_up();
    assert_eq!(s.cursor, 0);
    s.move_down();
    s.move_down();
    assert_eq!(s.cursor, 1);
    assert_eq!(s.entries, strings(&["a", "b"]));
}

#[test]
fn empty_list_ignores_enter_and_open() {
    let mut s = SequenceEditorState::new();
    assert!(!s.toggle_grab());
    assert!(s.open_target().is_none());
    assert_eq!(s.new_level_index(), None);
    assert!(!s.delete_current());
}

#[test]
fn delete_steps_back_from_the_end() {
    let mut s = seq_with(&["a", "b", "c"]);
    s.move_down();
    s.move_down();
    s.toggle_grab();
    assert!(s.delete_current());
    assert_eq!(s.entries, strings(&["a", "b"]));
    assert_eq!(s.cursor, 1);
    assert_eq!(s.grabbed, None);
    assert!(s.delete_current());
    assert!(s.delete_current());
    assert_eq!(s.cursor, 0);
    assert!(s.entries.is_empty() && s.blueprints.is_empty());
}

#[test]
fn typed_path_is_added_after_the_cursor() {
    let mut s = seq_with(&["a.json", "b.json"]);
    s.begin_add_path();
    s.input_chars("new\u{7}lvl");
    s.input_backspace();
    assert_eq!(s.input_line(), "Add path: newlv_");
    assert_eq!(s.input_enter(), PathEntered::Added(1));
    assert_eq!(s.entries, strings(&["a.json", "newlv.json", "b.json"]));
    assert_eq!(s.cursor, 1);
    assert_eq!(s.status_msg, "Path added");
    assert_eq!(s.status_timer_ms, 3000);
    s.set_name(1, Some("New".to_string()));
    assert_eq!(s.row_label(1), "> 1. newlv.json \"New\"");
    assert_eq!(s.row_style(1), RowStyle::Cursor);
    assert_eq!(s.row_label(0), "  0. a.json");
    assert_eq!(s.row_label(5), "");
}

#[test]
fn empty_path_cancels() {
    let mut s = seq_with(&["a.json"]);
    s.begin_add_path();
    assert_eq!(s.input_enter(), PathEntered::Cancelled);
    assert!(s.text_input.is_none());
    assert_eq!(s.input_enter(), PathEntered::Nothing);
    assert_eq!(s.entries.len(), 1);
}

#[test]
fn path_with_extension_is_kept() {
    let mut s = seq_with(&["a.json"]);
    s.text_input = Some(SeqInput::AddPath { buf: "x/y.json".to_string() });
    assert_eq!(s.input_enter(), PathEntered::Added(1));
    assert_eq!(s.entries[1], "x/y.json");
}

#[test]
fn grabbed_row_style_wins() {
    let mut s = seq_with(&["a", "b"]);
    s.toggle_grab();
    assert_eq!(s.row_style(0), RowStyle::Grabbed);
    assert_eq!(s.row_label(0), "~ 0. a");
    assert_eq!(s.row_style(1), RowStyle::Normal);
}

#[test]
fn status_lines_and_their_timers() {
    let mut s = seq_with(&["a"]);
    s.save_finished(Ok(()));
    assert_eq!(s.status_msg, "sequence.json saved");
    s.tick_status(1000);
    assert_eq!(s.status_timer_ms, 2000);
    s.tick_status(2500);
    assert_eq!(s.status_timer_ms, 0);
    assert_eq!(s.status_msg, "");
    s.save_finished(Err("disk full".to_string()));
    assert_eq!(s.status_msg, "Save error: disk full");
    assert_eq!(s.status_timer_ms, 5000);
    s.read_failed("x.json", "not found");
    assert_eq!(s.status_msg, "Cannot read levels/x.json: not found");
    s.parse_failed("bad");
    assert_eq!(s.status_msg, "Parse error: bad");
}

#[test]
fn canvas_deletes_and_reselects() {
    let mut c: CanvasState<u32> = CanvasState::new(Some(0));
    c.add_slot(10);
    c.add_slot(20);
    c.add_slot(30);
    assert_eq!(c.selected_block, Some(2));
    c.select_block(0);
    c.delete_selected();
    assert_eq!(c.slots, vec![20, 30]);
    assert_eq!(c.selected_block, Some(0));
    c.delete_selected();
    c.delete_selected();
    assert!(c.slots.is_empty());
    assert_eq!(c.selected_block, None);
    assert!(c.dirty && c.take_sync());
    assert!(!c.take_sync());
}

#[test]
fn canvas_grid_cycles() {
    assert_eq!(next_snap_grid(0), 5);
    assert_eq!(next_snap_grid(5), 10);
    assert_eq!(next_snap_grid(10), 20);
    assert_eq!(next_snap_grid(20), 0);
    assert_eq!(next_snap_grid(7), 0);
    let mut c: CanvasState<u32> = CanvasState::new(None);
    c.take_grid_rebuild();
    c.cycle_grid();
    assert!(c.take_grid_rebuild());
    assert_eq!(c.hud_line(), "<unsaved>  |  0 blocks  |  Grid: 5px");
}

#[test]
fn canvas_hud_and_rename() {
    let mut c: CanvasState<u32> = CanvasState::open("custom/a.json".to_string(), None, vec![1, 2], 3);
    assert_eq!(c.hud_line(), "custom/a.json  |  2 blocks  |  Grid: off");
    c.begin_rename();
    c.input_chars("Tall\ttower");
    assert_eq!(c.input_line(), "Level name: Talltower_");
    assert!(matches!(c.input_enter(), CanvasAction::Stay));
    assert_eq!(c.level_name, Some("Talltower".to_string()));
    assert!(c.dirty);
    assert_eq!(c.hud_line(), "custom/a.json \"Talltower\" *  |  2 blocks  |  Grid: off");
    c.begin_rename();
    c.input_backspace();
    c.input_enter();
    assert_eq!(c.level_name, Some("Talltowe".to_string()));
    c.text_input = Some(CanvasInput::LevelName { buf: String::new() });
    c.input_enter();
    assert_eq!(c.level_name, None);
}

#[test]
fn canvas_unsaved_warning_flow() {
    let mut c: CanvasState<u32> = CanvasState::new(None);
    c.add_slot(1);
    assert!(matches!(c.escape(), CanvasAction::Stay));
    assert!(c.showing_unsaved_warning && c.modal_active());
    assert_eq!(c.input_line(), "Unsaved changes! Press Esc again to discard, or S to save.");
    assert_eq!(c.warning_save(), None);
    assert!(!c.showing_unsaved_warning);
    assert_eq!(
        c.input_line(),
        "Save as: _\n(relative to levels/, e.g. custom/my_level.json)"
    );
    c.input_chars("my level!/x");
    match c.input_enter() {
        CanvasAction::SaveTo(p) => assert_eq!(p, "mylevel/x.json"),
        _ => panic!("expected a save"),
    }
    c.escape();
    assert!(matches!(c.warning_discard(), CanvasAction::Leave));
    assert!(!c.dirty);
    assert!(!c.showing_unsaved_warning);
    assert!(matches!(c.escape(), CanvasAction::Leave));
}

#[test]
fn empty_file_name_saves_untitled() {
    let mut c: CanvasState<u32> = CanvasState::new(None);
    assert_eq!(c.request_save(), None);
    match c.input_enter() {
        CanvasAction::SaveTo(p) => assert_eq!(p, "custom/untitled.json"),
        _ => panic!("expected a save"),
    }
}

#[test]
fn first_save_joins_the_sequence() {
    let mut seq = seq_with(&["a.json", "b.json"]);
    let mut c: CanvasState<u32> = CanvasState::new(Some(0));
    c.level_name = Some("Mine".to_string());
    c.dirty = true;
    c.finish_save("custom/m.json", Ok(()), &mut seq);
    assert_eq!(seq.entries, strings(&["a.json", "custom/m.json", "b.json"]));
    assert_eq!(seq.blueprints[1], Some("Mine".to_string()));
    assert_eq!(seq.cursor, 1);
    assert_eq!(c.sequence_index, Some(1));
    assert_eq!(c.filepath, Some("custom/m.json".to_string()));
    assert!(!c.dirty);
    assert_eq!(c.status_msg, "Saved → levels/custom/m.json");
    assert_eq!(c.request_save(), Some("custom/m.json".to_string()));
    c.level_name = Some("Renamed".to_string());
    c.finish_save("custom/m.json", Ok(()), &mut seq);
    assert_eq!(seq.entries.len(), 3);
    assert_eq!(seq.blueprints[1], Some("Renamed".to_string()));
    c.finish_save("custom/m.json", Err("denied".to_string()), &mut seq);
    assert_eq!(c.status_msg, "Save error: denied");
    assert_eq!(c.status_timer_ms, 5000);
}

#[test]
fn in_game_editor_file_names() {
    let mut e = EditorBuildState::new(0);
    e.begin_save();
    e.input_chars("my lvl/1.x");
    e.input_backspace();
    assert_eq!(e.hud_text(), "Save as: mylvl1.|");
    assert_eq!(e.input_enter(), "mylvl1..json");
    assert_eq!(e.input_enter(), "custom_level.json");
    e.begin_save();
    e.input_chars("tower.json");
    assert_eq!(e.input_enter(), "tower.json");
}

#[test]
fn in_game_editor_escape_and_status() {
    let mut e = EditorBuildState::new(2);
    e.begin_save();
    assert_eq!(e.escape(), None);
    assert_eq!(e.escape(), Some(GameState::Menu));
    e.block_placed();
    assert_eq!(
        e.hud_text(),
        "Level Editor  |  Blocks: 3\nArrows: move   Space/Down: place   S: save   R: reset   P: test   Esc: menu"
    );
    e.save_succeeded("t.json");
    assert_eq!(e.hud_text(), "Level Editor  |  Blocks: 3\nSaved -> levels/custom/t.json");
    e.tick_status(4000);
    assert_eq!(e.status_msg, "");
    e.save_failed(EditorSaveError::Write, "denied");
    assert_eq!(e.status_msg, "Error writing file: denied");
    assert_eq!(e.status_timer_ms, 0);
    e.save_unavailable();
    assert_eq!(e.status_msg, "Save not available in browser build");
    e.reset();
    assert_eq!(e.block_count, 0);
    assert_eq!(e.status_msg, "");
}

#[test]
fn control_characters_are_the_cc_ranges() {
    for c in ['\0', '\n', '\u{1f}', '\u{7f}', '\u{85}', '\u{9f}'] {
        assert!(is_control(c));
        assert_eq!(is_control(c), c.is_control());
    }
    for c in [' ', 'a', '~', '\u{a0}', 'é', '\u{200b}'] {
        assert!(!is_control(c));
        assert_eq!(is_control(c), c.is_control());
    }
}

use slappyshot::config::{Action, Config};
use slappyshot::editor::{DrawingKind, Editor, KeyInput, Pen, ZoomCommand};
use slappyshot::style::{Color, Size};
use slappyshot::tools::{HighlighterKind, ToolType};

fn no_keys() -> KeyInput {
    KeyInput {
        ctrl_z: false,
        ctrl_y: false,
        ctrl_c: false,
        ctrl_s: false,
        ctrl_t: false,
        escape: false,
        enter: false,
        crop_pending: false,
        typed: Vec::new(),
    }
}

fn typed(s: &[&str]) -> KeyInput {
    KeyInput { typed: s.iter().map(|t| t.to_string()).collect(), ..no_keys() }
}

fn ids(e: &Editor) -> Vec<u64> {
    e.history.annotations().iter().map(|a| a.id).collect()
}

#[test]
fn new_editor_from_default_config() {
    let e = Editor::new(Config::default());
    assert_eq!(e.active_tool, ToolType::Arrow);
    assert_eq!(e.pen, Pen { color: Color::orange(), size: Size::Medium, fill: false });
    assert_eq!(e.primary_highlighter, HighlighterKind::Block);
    assert!(e.toolbars_visible);
    assert!(e.history.annotations().is_empty());
    assert_eq!(e.history.marker_counter(), 1);
    assert_eq!(Pen::default(), e.pen);
}

#[test]
fn new_editor_from_custom_config() {
    let mut cfg = Config::default();
    cfg.general.initial_tool = "RECT".to_string();
    cfg.general.primary_highlighter = "freehand".to_string();
    cfg.general.default_hide_toolbars = true;
    cfg.general.default_fill_shapes = true;
    cfg.color_palette.palette = vec!["#010203".to_string()];
    let e = Editor::new(cfg);
    assert_eq!(e.active_tool, ToolType::Rectangle);
    assert_eq!(e.primary_highlighter, HighlighterKind::Freehand);
    assert!(!e.toolbars_visible);
    assert_eq!(e.pen, Pen { color: Color::new(1, 2, 3, 255), size: Size::Medium, fill: true });
    let mut cfg = Config::default();
    cfg.general.initial_tool = "unknown".to_string();
    assert_eq!(Editor::new(cfg).active_tool, ToolType::Arrow);
}

#[test]
fn tool_keys_switch_and_cancel() {
    let mut e = Editor::new(Config::default());
    let r = e.handle_keyboard(DrawingKind::Shape, &typed(&["x"]));
    assert_eq!(e.active_tool, ToolType::Crop);
    assert!(r.cancel_drawing && !r.exit);
}

#[test]
fn marker_key_again_resets_counter() {
    let mut e = Editor::new(Config::default());
    e.switch_tool(ToolType::Marker);
    e.add_marker(1);
    e.add_marker(2);
    assert_eq!(e.history.marker_counter(), 3);
    e.handle_keyboard(DrawingKind::Idle, &typed(&["m"]));
    assert_eq!(e.history.marker_counter(), 1);
    assert_eq!(e.active_tool, ToolType::Marker);
}

#[test]
fn style_keys() {
    let mut e = Editor::new(Config::default());
    e.handle_keyboard(DrawingKind::Idle, &typed(&["2", "9", "f"]));
    assert_eq!(e.pen, Pen { color: Color::new(235, 77, 75, 255), size: Size::Large, fill: true });
    e.handle_keyboard(DrawingKind::Idle, &typed(&["7", "f"]));
    assert_eq!(e.pen.size, Size::Small);
    assert!(!e.pen.fill);
    e.handle_keyboard(DrawingKind::Idle, &typed(&["8"]));
    assert_eq!(e.pen.size, Size::Medium);
}

#[test]
fn palette_key_past_palette_is_ignored() {
    let mut cfg = Config::default();
    cfg.color_palette.palette = vec!["#010203".to_string()];
    let mut e = Editor::new(cfg);
    e.handle_keyboard(DrawingKind::Idle, &typed(&["5"]));
    assert_eq!(e.pen.color, Color::new(1, 2, 3, 255));
}

#[test]
fn zoom_keys_in_order() {
    let mut e = Editor::new(Config::default());
    let r = e.handle_keyboard(DrawingKind::Idle, &typed(&["=", "+", "-", "0", "?"]));
    assert_eq!(r.zoom, vec![ZoomCommand::In, ZoomCommand::In, ZoomCommand::Out, ZoomCommand::Reset]);
}

#[test]
fn undo_redo_keys() {
    let mut e = Editor::new(Config::default());
    e.commit_annotation(1);
    e.commit_annotation(2);
    e.handle_keyboard(DrawingKind::Idle, &typed(&["z"]));
    assert_eq!(ids(&e), vec![1]);
    e.handle_keyboard(DrawingKind::Idle, &KeyInput { ctrl_z: true, ..no_keys() });
    assert!(ids(&e).is_empty());
    e.handle_keyboard(DrawingKind::Idle, &typed(&["y"]));
    assert_eq!(ids(&e), vec![1]);
    e.handle_keyboard(DrawingKind::Idle, &KeyInput { ctrl_y: true, ..no_keys() });
    assert_eq!(ids(&e), vec![1, 2]);
}

#[test]
fn copy_save_and_toolbar_keys() {
    let mut e = Editor::new(Config::default());
    e.handle_keyboard(DrawingKind::Idle, &typed(&["c", "s"]));
    assert!(e.pending_copy && e.pending_save);
    let w = e.take_pending();
    assert!(w.copy && w.save && !w.save_after_copy && !w.exit_after);
    assert!(!e.pending_copy && !e.pending_save);
    e.handle_keyboard(DrawingKind::Idle, &KeyInput { ctrl_c: true, ctrl_t: true, ..no_keys() });
    assert!(e.pending_copy);
    assert!(!e.toolbars_visible);
}

#[test]
fn text_entry_ignores_shortcuts() {
    let mut e = Editor::new(Config::default());
    e.commit_annotation(1);
    let k = KeyInput { ctrl_z: true, escape: true, enter: true, ..typed(&["x"]) };
    let r = e.handle_keyboard(DrawingKind::Text, &k);
    assert!(!r.exit && !r.cancel_drawing && r.zoom.is_empty());
    assert_eq!(ids(&e), vec![1]);
    assert_eq!(e.active_tool, ToolType::Arrow);
}

#[test]
fn escape_cancels_then_exits() {
    let mut e = Editor::new(Config::default());
    let r = e.handle_keyboard(DrawingKind::Shape, &KeyInput { escape: true, ..no_keys() });
    assert!(r.cancel_drawing && !r.exit);
    let r = e.handle_keyboard(DrawingKind::Idle, &KeyInput { escape: true, ..no_keys() });
    assert!(r.exit);
}

#[test]
fn enter_runs_actions_unless_a_crop_waits() {
    let mut e = Editor::new(Config::default());
    let r = e.handle_keyboard(DrawingKind::Idle, &KeyInput { enter: true, crop_pending: true, ..no_keys() });
    assert!(!r.exit && !e.pending_copy);
    let r = e.handle_keyboard(DrawingKind::Idle, &KeyInput { enter: true, ..no_keys() });
    assert!(r.exit);
    assert!(e.pending_copy);
}

#[test]
fn actions_stop_at_exit() {
    let mut e = Editor::new(Config::default());
    let exit = e.execute_actions(&vec![Action::SaveToFile, Action::Exit, Action::SaveToClipboard]);
    assert!(exit);
    assert!(e.pending_save && !e.pending_copy);
    let exit = e.execute_actions(&vec![Action::CopyFilepathToClipboard, Action::SaveToFileAs]);
    assert!(!exit);
    assert!(e.pending_copy_path);
    assert!(!e.right_click());
}

#[test]
fn deferred_work_with_save_after_copy_and_early_exit() {
    let mut cfg = Config::default();
    cfg.general.save_after_copy = true;
    cfg.general.early_exit = true;
    let mut e = Editor::new(cfg);
    let w = e.take_pending();
    assert!(!w.copy && !w.exit_after);
    e.pending_copy = true;
    let w = e.take_pending();
    assert!(w.copy && w.save_after_copy && !w.save && w.exit_after);
}

#[test]
fn auto_copy_follows_annotation_changes() {
    let mut cfg = Config::default();
    cfg.general.auto_copy = true;
    let mut e = Editor::new(cfg);
    e.undo();
    assert!(!e.pending_copy);
    e.commit_annotation(4);
    assert!(e.pending_copy);
    e.take_pending();
    e.undo();
    assert!(e.pending_copy);
}

#[test]
fn delete_move_and_relabel() {
    let mut e = Editor::new(Config::default());
    e.commit_annotation(1);
    e.add_marker(2);
    e.move_annotation(1, 5);
    assert_eq!(ids(&e), vec![1, 5]);
    assert_eq!(e.history.annotations()[1].marker, Some(1));
    e.delete_annotation(0);
    assert_eq!(ids(&e), vec![5]);
    e.relabel_annotations(&vec![9]);
    assert_eq!(ids(&e), vec![9]);
    e.undo();
    assert_eq!(ids(&e), vec![1, 5]);
}

#[test]
fn default_enter_copies_before_exiting() {
    let mut e = Editor::new(Config::default());
    let r = e.handle_keyboard(DrawingKind::Idle, &KeyInput { enter: true, ..no_keys() });
    assert!(r.exit);
    assert!(e.exit_requested);
    let w = e.take_pending();
    assert!(w.copy && w.exit_after && !w.save && !w.save_after_copy);
    assert!(!e.exit_requested && !e.pending_copy);
    let w = e.take_pending();
    assert!(!w.copy && !w.exit_after);
}

#[test]
fn exit_keeps_work_asked_for_before_it() {
    let mut e = Editor::new(Config::default());
    let exit = e.execute_actions(&vec![
        Action::SaveToFileAs,
        Action::CopyFilepathToClipboard,
        Action::Exit,
        Action::SaveToClipboard,
    ]);
    assert!(exit);
    let w = e.take_pending();
    assert!(w.save && w.copy_path && !w.copy && w.exit_after);
}

#[test]
fn finishing_text_adds_only_non_empty_text() {
    let mut e = Editor::new(Config::default());
    assert!(!e.finish_text("", 4));
    assert!(ids(&e).is_empty());
    assert!(!e.history.can_undo());
    assert!(e.finish_text("hello", 4));
    assert_eq!(ids(&e), vec![4]);
    assert!(e.history.can_undo());
}

use slappyshot::config::{
    default_actions_on_enter, default_actions_on_escape, default_brush_smooth_history_size,
    default_initial_tool, default_primary_highlighter, expand_tilde, Action, Config,
    GeneralConfig, ThemeConfig,
};
use slappyshot::style::Color;

fn key(c: char) -> u32 {
    c as u32
}

#[test]
fn general_defaults() {
    let g = GeneralConfig::default();
    assert_eq!(g.initial_tool, "arrow");
    assert_eq!(g.primary_highlighter, "block");
    assert_eq!(g.brush_smooth_history_size, 5);
    assert_eq!(g.actions_on_enter, vec![Action::SaveToClipboard, Action::Exit]);
    assert_eq!(g.actions_on_escape, vec![Action::Exit]);
    assert!(g.actions_on_right_click.is_empty());
    assert!(!g.fullscreen && !g.auto_copy && !g.early_exit && !g.save_after_copy);
    assert_eq!(default_initial_tool(), "arrow");
    assert_eq!(default_primary_highlighter(), "block");
    assert_eq!(default_brush_smooth_history_size(), 5);
    assert_eq!(default_actions_on_enter(), vec![Action::SaveToClipboard, Action::Exit]);
    assert_eq!(default_actions_on_escape(), vec![Action::Exit]);
}

#[test]
fn default_keybind_map() {
    let m = Config::default().keybind_map();
    assert_eq!(m.len(), 12);
    let expected = [
        ('p', "pointer"),
        ('x', "crop"),
        ('b', "brush"),
        ('l', "line"),
        ('a', "arrow"),
        ('r', "rectangle"),
        ('e', "ellipse"),
        ('t', "text"),
        ('m', "marker"),
        ('w', "blur"),
        ('h', "highlight"),
        ('d', "delete"),
    ];
    for (c, name) in expected {
        assert_eq!(m.get(&key(c)).map(|s| s.as_str()), Some(name));
    }
}

#[test]
fn configured_keybinds_use_first_char() {
    let mut cfg = Config::default();
    cfg.keybinds.pointer = Some("Quux".to_string());
    cfg.keybinds.blur = Some(String::new());
    let m = cfg.keybind_map();
    assert_eq!(m.get(&key('Q')).map(|s| s.as_str()), Some("pointer"));
    assert_eq!(m.get(&key('p')), None);
    assert_eq!(m.get(&key('w')).map(|s| s.as_str()), Some("blur"));
}

#[test]
fn later_tool_keeps_a_shared_key() {
    let mut cfg = Config::default();
    cfg.keybinds.pointer = Some("x".to_string());
    let m = cfg.keybind_map();
    assert_eq!(m.get(&key('x')).map(|s| s.as_str()), Some("crop"));
    assert_eq!(m.len(), 11);
}

#[test]
fn palette_default_when_empty_or_invalid() {
    let defaults = vec![
        (240, 147, 43, 255),
        (235, 77, 75, 255),
        (106, 176, 76, 255),
        (34, 166, 179, 255),
        (19, 15, 64, 255),
        (200, 37, 184, 255),
    ];
    let mut cfg = Config::default();
    assert_eq!(cfg.palette_colors(), defaults);
    cfg.color_palette.palette = vec!["nope".to_string(), "#12".to_string()];
    assert_eq!(cfg.palette_colors(), defaults);
}

#[test]
fn palette_keeps_valid_entries_in_order() {
    let mut cfg = Config::default();
    cfg.color_palette.palette =
        vec!["#010203".to_string(), "bad".to_string(), " 0a0b0c ".to_string()];
    assert_eq!(cfg.palette_colors(), vec![(1, 2, 3, 255), (10, 11, 12, 255)]);
}

#[test]
fn theme_colors_parse_each_setting() {
    let t = ThemeConfig {
        panel_fill: Some("#1e1e23".to_string()),
        text_color: Some("white".to_string()),
        button_fill: None,
        button_active: Some("f0932b".to_string()),
    };
    let c = t.colors();
    assert_eq!(c.panel_fill, Some(Color::new(30, 30, 35, 255)));
    assert_eq!(c.text_color, None);
    assert_eq!(c.button_fill, None);
    assert_eq!(c.button_active, Some(Color::new(240, 147, 43, 255)));
}

#[test]
fn tilde_expansion() {
    assert_eq!(expand_tilde("~/shots/a.png", "/home/u"), "/home/u/shots/a.png");
    assert_eq!(expand_tilde("/tmp/~/a.png", "/home/u"), "/tmp/~/a.png");
    assert_eq!(expand_tilde("~", "/home/u"), "~");
    assert_eq!(expand_tilde("~user/a", "/home/u"), "~user/a");
}

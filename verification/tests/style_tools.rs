use slappyshot::style::{Color, Size};
use slappyshot::tools::{tool_from_lowercase_name, tool_from_string, HighlighterKind, ToolType};

const ALL_TOOLS: [ToolType; 12] = [
    ToolType::Pointer,
    ToolType::Crop,
    ToolType::Line,
    ToolType::Arrow,
    ToolType::Rectangle,
    ToolType::Ellipse,
    ToolType::Text,
    ToolType::Marker,
    ToolType::Blur,
    ToolType::Highlight,
    ToolType::Brush,
    ToolType::Delete,
];

#[test]
fn color_new_keeps_channels() {
    let c = Color::new(1, 2, 3, 4);
    assert_eq!((c.r, c.g, c.b, c.a), (1, 2, 3, 4));
}

#[test]
fn color_orange_and_default() {
    assert_eq!(Color::orange(), Color::new(240, 147, 43, 255));
    assert_eq!(Color::default(), Color::orange());
}

#[test]
fn size_default_is_medium() {
    assert_eq!(Size::default(), Size::Medium);
    assert!(Size::Small < Size::Medium && Size::Medium < Size::Large);
}

#[test]
fn tool_labels() {
    assert_eq!(ToolType::Rectangle.label(), "Rect");
    assert_eq!(ToolType::Pointer.label(), "Pointer");
    assert_eq!(ToolType::Delete.label(), "Delete");
}

#[test]
fn tool_icons() {
    assert_eq!(ToolType::Pointer.icon(), "↖");
    assert_eq!(ToolType::Marker.icon(), "#");
    assert_eq!(ToolType::Delete.icon(), "🗑");
}

#[test]
fn tool_icons_follow_the_tools_table() {
    let icons = ["↖", "✂", "∕", "↗", "□", "○", "T", "#", "≈", "H", "✏", "🗑"];
    for (t, icon) in ALL_TOOLS.iter().zip(icons) {
        assert_eq!(t.icon(), icon);
    }
}

#[test]
fn tool_config_names_round_trip() {
    for t in ALL_TOOLS {
        assert_eq!(tool_from_string(t.config_name()), Some(t));
        assert_eq!(tool_from_lowercase_name(t.config_name()), Some(t));
    }
    assert_eq!(ToolType::Rectangle.config_name(), "rectangle");
}

#[test]
fn tool_from_string_ignores_case() {
    assert_eq!(tool_from_string("ARROW"), Some(ToolType::Arrow));
    assert_eq!(tool_from_string("Rect"), Some(ToolType::Rectangle));
    assert_eq!(tool_from_string("HighLight"), Some(ToolType::Highlight));
    assert_eq!(tool_from_string("nothing"), None);
    assert_eq!(tool_from_string(""), None);
}

#[test]
fn tool_from_lowercase_name_is_exact() {
    assert_eq!(tool_from_lowercase_name("rect"), Some(ToolType::Rectangle));
    assert_eq!(tool_from_lowercase_name("Arrow"), None);
    assert_eq!(tool_from_lowercase_name("arrow "), None);
}

#[test]
fn tool_default_is_arrow() {
    assert_eq!(ToolType::default(), ToolType::Arrow);
}

#[test]
fn highlighter_kinds() {
    assert_eq!(HighlighterKind::default(), HighlighterKind::Block);
    assert_eq!(HighlighterKind::from_config_name("freehand"), HighlighterKind::Freehand);
    assert_eq!(HighlighterKind::from_config_name("block"), HighlighterKind::Block);
    assert_eq!(HighlighterKind::from_config_name("Freehand"), HighlighterKind::Block);
    assert_eq!(HighlighterKind::Block.with_ctrl(true), HighlighterKind::Freehand);
    assert_eq!(HighlighterKind::Freehand.with_ctrl(true), HighlighterKind::Block);
    assert_eq!(HighlighterKind::Freehand.with_ctrl(false), HighlighterKind::Freehand);
}

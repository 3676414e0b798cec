use vstd::prelude::*;

use crate::text::str_equal;

verus! {

/// The annotation tools of the editor.
#[derive(Debug, Clone, Copy, PartialEq, Eq, Structural, Hash)]
pub enum ToolType {
    Pointer,
    Crop,
    Line,
    Arrow,
    Rectangle,
    Ellipse,
    Text,
    Marker,
    Blur,
    Highlight,
    Brush,
    Delete,
}

/// The label shown when hovering a tool's button.
pub open spec fn spec_label(t: ToolType) -> Seq<char> {
    match t {
        ToolType::Pointer => "Pointer"@,
        ToolType::Crop => "Crop"@,
        ToolType::Line => "Line"@,
        ToolType::Arrow => "Arrow"@,
        ToolType::Rectangle => "Rect"@,
        ToolType::Ellipse => "Ellipse"@,
        ToolType::Text => "Text"@,
        ToolType::Marker => "Marker"@,
        ToolType::Blur => "Blur"@,
        ToolType::Highlight => "Highlight"@,
        ToolType::Brush => "Brush"@,
        ToolType::Delete => "Delete"@,
    }
}

/// The name under which a tool appears in the configuration file.
pub open spec fn spec_config_name(t: ToolType) -> Seq<char> {
    match t {
        ToolType::Pointer => "pointer"@,
        ToolType::Crop => "crop"@,
        ToolType::Brush => "brush"@,
        ToolType::Line => "line"@,
        ToolType::Arrow => "arrow"@,
        ToolType::Rectangle => "rectangle"@,
        ToolType::Ellipse => "ellipse"@,
        ToolType::Text => "text"@,
        ToolType::Marker => "marker"@,
        ToolType::Blur => "blur"@,
        ToolType::Highlight => "highlight"@,
        ToolType::Delete => "delete"@,
    }
}

/// The glyph shown on a tool's button.
pub open spec fn spec_icon(t: ToolType) -> Seq<char> {
    match t {
        ToolType::Pointer => "↖"@,
        ToolType::Crop => "✂"@,
        ToolType::Brush => "✏"@,
        ToolType::Line => "∕"@,
        ToolType::Arrow => "↗"@,
        ToolType::Rectangle => "□"@,
        ToolType::Ellipse => "○"@,
        ToolType::Text => "T"@,
        ToolType::Marker => "#"@,
        ToolType::Blur => "≈"@,
        ToolType::Highlight => "H"@,
        ToolType::Delete => "🗑"@,
    }
}

/// The tool named by an already lowercased name; `"rect"` names the rectangle too.
pub open spec fn spec_tool_from_name(s: Seq<char>) -> Option<ToolType> {
    if s == "pointer"@ {
        Some(ToolType::Pointer)
    } else if s == "crop"@ {
        Some(ToolType::Crop)
    } else if s == "line"@ {
        Some(ToolType::Line)
    } else if s == "arrow"@ {
        Some(ToolType::Arrow)
    } else if s == "rectangle"@ || s == "rect"@ {
        Some(ToolType::Rectangle)
    } else if s == "ellipse"@ {
        Some(ToolType::Ellipse)
    } else if s == "text"@ {
        Some(ToolType::Text)
    } else if s == "marker"@ {
        Some(ToolType::Marker)
    } else if s == "blur"@ {
        Some(ToolType::Blur)
    } else if s == "highlight"@ {
        Some(ToolType::Highlight)
    } else if s == "brush"@ {
        Some(ToolType::Brush)
    } else if s == "delete"@ {
        Some(ToolType::Delete)
    } else {
        None
    }
}

impl ToolType {
    pub fn label(&self) -> (s: &str)
        ensures
            s@ == spec_label(*self),
    {
        match self {
            ToolType::Pointer => "Pointer",
            ToolType::Crop => "Crop",
            ToolType::Line => "Line",
            ToolType::Arrow => "Arrow",
            ToolType::Rectangle => "Rect",
            ToolType::Ellipse => "Ellipse",
            ToolType::Text => "Text",
            ToolType::Marker => "Marker",
            ToolType::Blur => "Blur",
            ToolType::Highlight => "Highlight",
            ToolType::Brush => "Brush",
            ToolType::Delete => "Delete",
        }
    }

    pub fn config_name(&self) -> (s: &str)
        ensures
            s@ == spec_config_name(*self),
    {
        match self {
            ToolType::Pointer => "pointer",
            ToolType::Crop => "crop",
            ToolType::Brush => "brush",
            ToolType::Line => "line",
            ToolType::Arrow => "arrow",
            ToolType::Rectangle => "rectangle",
            ToolType::Ellipse => "ellipse",
            ToolType::Text => "text",
            ToolType::Marker => "marker",
            ToolType::Blur => "blur",
            ToolType::Highlight => "highlight",
            ToolType::Delete => "delete",
        }
    }

    pub fn icon(&self) -> (s: &str)
        ensures
            s@ == spec_icon(*self),
    {
        match self {
            ToolType::Pointer => "↖",
            ToolType::Crop => "✂",
            ToolType::Brush => "✏",
            ToolType::Line => "∕",
            ToolType::Arrow => "↗",
            ToolType::Rectangle => "□",
            ToolType::Ellipse => "○",
            ToolType::Text => "T",
            ToolType::Marker => "#",
            ToolType::Blur => "≈",
            ToolType::Highlight => "H",
            ToolType::Delete => "🗑",
        }
    }
}

impl Default for ToolType {
    fn default() -> (t: Self)
        ensures
            t == ToolType::Arrow,
    {
        ToolType::Arrow
    }
}

/// What `str::to_lowercase` returns for a string: its Unicode lowercase mapping.
pub uninterp spec fn lowercase(s: Seq<char>) -> Seq<char>;

/// Calls `str::to_lowercase`; the result is named by `lowercase` of the argument.
#[verifier::external_body]
fn to_lowercase(s: &str) -> (r: String)
    ensures
        r@ == lowercase(s@),
{
    s.to_lowercase()
}

/// The tool whose name is `name`, which must already be in lowercase.
pub fn tool_from_lowercase_name(name: &str) -> (t: Option<ToolType>)
    ensures
        t == spec_tool_from_name(name@),
{
    if str_equal(name, "pointer") {
        Some(ToolType::Pointer)
    } else if str_equal(name, "crop") {
        Some(ToolType::Crop)
    } else if str_equal(name, "line") {
        Some(ToolType::Line)
    } else if str_equal(name, "arrow") {
        Some(ToolType::Arrow)
    } else if str_equal(name, "rectangle") || str_equal(name, "rect") {
        Some(ToolType::Rectangle)
    } else if str_equal(name, "ellipse") {
        Some(ToolType::Ellipse)
    } else if str_equal(name, "text") {
        Some(ToolType::Text)
    } else if str_equal(name, "marker") {
        Some(ToolType::Marker)
    } else if str_equal(name, "blur") {
        Some(ToolType::Blur)
    } else if str_equal(name, "highlight") {
        Some(ToolType::Highlight)
    } else if str_equal(name, "brush") {
        Some(ToolType::Brush)
    } else if str_equal(name, "delete") {
        Some(ToolType::Delete)
    } else {
        None
    }
}

/// The tool named by `s`, compared without regard to case.
pub fn tool_from_string(s: &str) -> (t: Option<ToolType>)
    ensures
        t == spec_tool_from_name(lowercase(s@)),
{
    let lower = to_lowercase(s);
    tool_from_lowercase_name(lower.as_str())
}

/// The two kinds of highlighter.
#[derive(Debug, Clone, Copy, PartialEq, Eq, Structural)]
pub enum HighlighterKind {
    Block,
    Freehand,
}

impl Default for HighlighterKind {
    fn default() -> (k: Self)
        ensures
            k == HighlighterKind::Block,
    {
        HighlighterKind::Block
    }
}

impl HighlighterKind {
    /// The primary highlighter named in the configuration: `"freehand"` selects
    /// the freehand highlighter, anything else the block highlighter.
    pub fn from_config_name(s: &str) -> (k: Self)
        ensures
            k == (if s@ == "freehand"@ { HighlighterKind::Freehand } else { HighlighterKind::Block }),
    {
        if str_equal(s, "freehand") {
            HighlighterKind::Freehand
        } else {
            HighlighterKind::Block
        }
    }

    /// The kind a new highlight takes: holding Ctrl switches to the other kind.
    pub fn with_ctrl(self, ctrl: bool) -> (k: Self)
        ensures
            !ctrl ==> k == self,
            ctrl ==> k != self,
    {
        if !ctrl {
            self
        } else {
            match self {
                HighlighterKind::Block => HighlighterKind::Freehand,
                HighlighterKind::Freehand => HighlighterKind::Block,
            }
        }
    }
}

/// A tool's configuration name names that tool again.
pub proof fn law_config_name_round_trip(t: ToolType)
    ensures
        spec_tool_from_name(spec_config_name(t)) == Some(t),
{
    reveal_strlit("pointer");
    reveal_strlit("crop");
    reveal_strlit("line");
    reveal_strlit("arrow");
    reveal_strlit("rectangle");
    reveal_strlit("rect");
    reveal_strlit("ellipse");
    reveal_strlit("text");
    reveal_strlit("marker");
    reveal_strlit("blur");
    reveal_strlit("highlight");
    reveal_strlit("brush");
    reveal_strlit("delete");
    assert("crop"@ != "pointer"@) by {
        assert("crop"@.len() != "pointer"@.len());
    }
    assert("line"@ != "pointer"@) by {
        assert("line"@.len() != "pointer"@.len());
    }
    assert("line"@ != "crop"@) by {
        assert("line"@[0] != "crop"@[0]);
    }
    assert("arrow"@ != "pointer"@) by {
        assert("arrow"@.len() != "pointer"@.len());
    }
    assert("arrow"@ != "crop"@) by {
        assert("arrow"@.len() != "crop"@.len());
    }
    assert("arrow"@ != "line"@) by {
        assert("arrow"@.len() != "line"@.len());
    }
    assert("rectangle"@ != "pointer"@) by {
        assert("rectangle"@.len() != "pointer"@.len());
    }
    assert("rectangle"@ != "crop"@) by {
        assert("rectangle"@.len() != "crop"@.len());
    }
    assert("rectangle"@ != "line"@) by {
        assert("rectangle"@.len() != "line"@.len());
    }
    assert("rectangle"@ != "arrow"@) by {
        assert("rectangle"@.len() != "arrow"@.len());
    }
    assert("rect"@ != "pointer"@) by {
        assert("rect"@.len() != "pointer"@.len());
    }
    assert("rect"@ != "crop"@) by {
        assert("rect"@[0] != "crop"@[0]);
    }
    assert("rect"@ != "line"@) by {
        assert("rect"@[0] != "line"@[0]);
    }
    assert("rect"@ != "arrow"@) by {
        assert("rect"@.len() != "arrow"@.len());
    }
    assert("rect"@ != "rectangle"@) by {
        assert("rect"@.len() != "rectangle"@.len());
    }
    assert("ellipse"@ != "pointer"@) by {
        assert("ellipse"@[0] != "pointer"@[0]);
    }
    assert("ellipse"@ != "crop"@) by {
        assert("ellipse"@.len() != "crop"@.len());
    }
    assert("ellipse"@ != "line"@) by {
        assert("ellipse"@.len() != "line"@.len());
    }
    assert("ellipse"@ != "arrow"@) by {
        assert("ellipse"@.len() != "arrow"@.len());
    }
    assert("ellipse"@ != "rectangle"@) by {
        assert("ellipse"@.len() != "rectangle"@.len());
    }
    assert("ellipse"@ != "rect"@) by {
        assert("ellipse"@.len() != "rect"@.len());
    }
    assert("text"@ != "pointer"@) by {
        assert("text"@.len() != "pointer"@.len());
    }
    assert("text"@ != "crop"@) by {
        assert("text"@[0] != "crop"@[0]);
    }
    assert("text"@ != "line"@) by {
        assert("text"@[0] != "line"@[0]);
    }
    assert("text"@ != "arrow"@) by {
        assert("text"@.len() != "arrow"@.len());
    }
    assert("text"@ != "rectangle"@) by {
        assert("text"@.len() != "rectangle"@.len());
    }
    assert("text"@ != "rect"@) by {
        assert("text"@[0] != "rect"@[0]);
    }
    assert("text"@ != "ellipse"@) by {
        assert("text"@.len() != "ellipse"@.len());
    }
    assert("marker"@ != "pointer"@) by {
        assert("marker"@.len() != "pointer"@.len());
    }
    assert("marker"@ != "crop"@) by {
        assert("marker"@.len() != "crop"@.len());
    }
    assert("marker"@ != "line"@) by {
        assert("marker"@.len() != "line"@.len());
    }
    assert("marker"@ != "arrow"@) by {
        assert("marker"@.len() != "arrow"@.len());
    }
    assert("marker"@ != "rectangle"@) by {
        assert("marker"@.len() != "rectangle"@.len());
    }
    assert("marker"@ != "rect"@) by {
        assert("marker"@.len() != "rect"@.len());
    }
    assert("marker"@ != "ellipse"@) by {
        assert("marker"@.len() != "ellipse"@.len());
    }
    assert("marker"@ != "text"@) by {
        assert("marker"@.len() != "text"@.len());
    }
    assert("blur"@ != "pointer"@) by {
        assert("blur"@.len() != "pointer"@.len());
    }
    assert("blur"@ != "crop"@) by {
        assert("blur"@[0] != "crop"@[0]);
    }
    assert("blur"@ != "line"@) by {
        assert("blur"@[0] != "line"@[0]);
    }
    assert("blur"@ != "arrow"@) by {
        assert("blur"@.len() != "arrow"@.len());
    }
    assert("blur"@ != "rectangle"@) by {
        assert("blur"@.len() != "rectangle"@.len());
    }
    assert("blur"@ != "rect"@) by {
        assert("blur"@[0] != "rect"@[0]);
    }
    assert("blur"@ != "ellipse"@) by {
        assert("blur"@.len() != "ellipse"@.len());
    }
    assert("blur"@ != "text"@) by {
        assert("blur"@[0] != "text"@[0]);
    }
    assert("blur"@ != "marker"@) by {
        assert("blur"@.len() != "marker"@.len());
    }
    assert("highlight"@ != "pointer"@) by {
        assert("highlight"@.len() != "pointer"@.len());
    }
    assert("highlight"@ != "crop"@) by {
        assert("highlight"@.len() != "crop"@.len());
    }
    assert("highlight"@ != "line"@) by {
        assert("highlight"@.len() != "line"@.len());
    }
    assert("highlight"@ != "arrow"@) by {
        assert("highlight"@.len() != "arrow"@.len());
    }
    assert("highlight"@ != "rectangle"@) by {
        assert("highlight"@[0] != "rectangle"@[0]);
    }
    assert("highlight"@ != "rect"@) by {
        assert("highlight"@.len() != "rect"@.len());
    }
    assert("highlight"@ != "ellipse"@) by {
        assert("highlight"@.len() != "ellipse"@.len());
    }
    assert("highlight"@ != "text"@) by {
        assert("highlight"@.len() != "text"@.len());
    }
    assert("highlight"@ != "marker"@) by {
        assert("highlight"@.len() != "marker"@.len());
    }
    assert("highlight"@ != "blur"@) by {
        assert("highlight"@.len() != "blur"@.len());
    }
    assert("brush"@ != "pointer"@) by {
        assert("brush"@.len() != "pointer"@.len());
    }
    assert("brush"@ != "crop"@) by {
        assert("brush"@.len() != "crop"@.len());
    }
    assert("brush"@ != "line"@) by {
        assert("brush"@.len() != "line"@.len());
    }
    assert("brush"@ != "arrow"@) by {
        assert("brush"@[0] != "arrow"@[0]);
    }
    assert("brush"@ != "rectangle"@) by {
        assert("brush"@.len() != "rectangle"@.len());
    }
    assert("brush"@ != "rect"@) by {
        assert("brush"@.len() != "rect"@.len());
    }
    assert("brush"@ != "ellipse"@) by {
        assert("brush"@.len() != "ellipse"@.len());
    }
    assert("brush"@ != "text"@) by {
        assert("brush"@.len() != "text"@.len());
    }
    assert("brush"@ != "marker"@) by {
        assert("brush"@.len() != "marker"@.len());
    }
    assert("brush"@ != "blur"@) by {
        assert("brush"@.len() != "blur"@.len());
    }
    assert("brush"@ != "highlight"@) by {
        assert("brush"@.len() != "highlight"@.len());
    }
    assert("delete"@ != "pointer"@) by {
        assert("delete"@.len() != "pointer"@.len());
    }
    assert("delete"@ != "crop"@) by {
        assert("delete"@.len() != "crop"@.len());
    }
    assert("delete"@ != "line"@) by {
        assert("delete"@.len() != "line"@.len());
    }
    assert("delete"@ != "arrow"@) by {
        assert("delete"@.len() != "arrow"@.len());
    }
    assert("delete"@ != "rectangle"@) by {
        assert("delete"@.len() != "rectangle"@.len());
    }
    assert("delete"@ != "rect"@) by {
        assert("delete"@.len() != "rect"@.len());
    }
    assert("delete"@ != "ellipse"@) by {
        assert("delete"@.len() != "ellipse"@.len());
    }
    assert("delete"@ != "text"@) by {
        assert("delete"@.len() != "text"@.len());
    }
    assert("delete"@ != "marker"@) by {
        assert("delete"@[0] != "marker"@[0]);
    }
    assert("delete"@ != "blur"@) by {
        assert("delete"@.len() != "blur"@.len());
    }
    assert("delete"@ != "highlight"@) by {
        assert("delete"@.len() != "highlight"@.len());
    }
    assert("delete"@ != "brush"@) by {
        assert("delete"@.len() != "brush"@.len());
    }
}

} // verus!

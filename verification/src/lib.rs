//! Verified core of a screenshot annotation tool: colors and sizes, tools,
//! configuration, the annotation history with undo and redo, the keyboard and
//! action decisions of the editor, the integer geometry of crops and blurs, and
//! the decoding of the input image.

pub mod style;
pub mod text;
pub mod tools;
pub mod hexcolor;
pub mod config;
pub mod history;
pub mod editor;
pub mod region;
pub mod picture;

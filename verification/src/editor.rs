use std::collections::HashMap;

use vstd::prelude::*;

use crate::config::{
    map_names, spec_keybind_map, spec_palette_colors, string_views, Action, Config,
};
use crate::history::{spec_commit, spec_redo, spec_undo, AnnotationEntry, History, HistoryView};
use crate::style::{spec_orange, Color, Size};
use crate::text::first_char;
use vstd::string::StringExecFns;
use crate::tools::{
    lowercase, spec_tool_from_name, tool_from_lowercase_name, tool_from_string, HighlighterKind,
    ToolType,
};

verus! {

/// The pen that new annotations are drawn with (its size factor, a fraction, is
/// kept by the application around the library).
#[derive(Clone, Copy, Debug, PartialEq, Eq, Structural)]
pub struct Pen {
    pub color: Color,
    pub size: Size,
    pub fill: bool,
}

impl Default for Pen {
    fn default() -> (p: Self)
        ensures
            p == (Pen { color: spec_orange(), size: Size::Medium, fill: false }),
    {
        Pen { color: Color::orange(), size: Size::Medium, fill: false }
    }
}

/// What is being drawn when a key is pressed: nothing, text, or another shape.
#[derive(Clone, Copy, Debug, PartialEq, Eq, Structural)]
pub enum DrawingKind {
    Idle,
    Text,
    Shape,
}

/// A change of zoom asked for by a key.
#[derive(Clone, Copy, Debug, PartialEq, Eq, Structural)]
pub enum ZoomCommand {
    In,
    Out,
    Reset,
}

/// The keyboard input of one frame: the Ctrl shortcuts, Escape, Enter, whether a
/// crop is waiting to be confirmed with Enter, and the text typed.
#[derive(Clone, Debug)]
pub struct KeyInput {
    pub ctrl_z: bool,
    pub ctrl_y: bool,
    pub ctrl_c: bool,
    pub ctrl_s: bool,
    pub ctrl_t: bool,
    pub escape: bool,
    pub enter: bool,
    pub crop_pending: bool,
    pub typed: Vec<String>,
}

/// What the application must do after the keyboard was handled: cancel the shape
/// being drawn and change the zoom, in order. `exit` says that an `Exit` action
/// stopped the handling; the exit itself is delivered by `take_pending`, after
/// the deferred work.
#[derive(Clone, Debug)]
pub struct KeyResponse {
    pub exit: bool,
    pub cancel_drawing: bool,
    pub zoom: Vec<ZoomCommand>,
}

/// The work that deferred actions ask for, to be done in this order: a copy to
/// the clipboard (followed by a save where the configuration asks for it), a
/// save, a copy of the last saved path, and last whether to exit. An `Exit`
/// action is delivered here, after the work asked for before it, and never on
/// its own.
#[derive(Clone, Copy, Debug, PartialEq, Eq, Structural)]
pub struct PendingWork {
    pub copy: bool,
    pub save_after_copy: bool,
    pub save: bool,
    pub copy_path: bool,
    pub exit_after: bool,
}

/// The editor's decisions and the state they act on.
pub struct Editor {
    pub history: History,
    pub active_tool: ToolType,
    pub pen: Pen,
    pub primary_highlighter: HighlighterKind,
    pub config: Config,
    pub toolbars_visible: bool,
    pub last_saved_path: Option<String>,
    pub pending_copy: bool,
    pub pending_save: bool,
    pub pending_copy_path: bool,
    pub exit_requested: bool,
}

/// The part of the editor that its decisions change.
pub struct EditorView {
    pub history: HistoryView,
    pub active_tool: ToolType,
    pub pen: Pen,
    pub toolbars_visible: bool,
    pub pending_copy: bool,
    pub pending_save: bool,
    pub pending_copy_path: bool,
    pub exit_requested: bool,
}

impl View for Editor {
    type V = EditorView;

    open spec fn view(&self) -> EditorView {
        EditorView {
            history: self.history@,
            active_tool: self.active_tool,
            pen: self.pen,
            toolbars_visible: self.toolbars_visible,
            pending_copy: self.pending_copy,
            pending_save: self.pending_save,
            pending_copy_path: self.pending_copy_path,
            exit_requested: self.exit_requested,
        }
    }
}

/// A color from an `(r, g, b, a)` tuple.
pub open spec fn tuple_color(t: (u8, u8, u8, u8)) -> Color {
    Color { r: t.0, g: t.1, b: t.2, a: t.3 }
}

/// The palette of a configuration.
pub open spec fn config_palette(cfg: Config) -> Seq<(u8, u8, u8, u8)> {
    spec_palette_colors(string_views(cfg.color_palette.palette@))
}

/// A change of the annotations; with `auto_copy` set it also asks for a copy.
pub open spec fn changed(v: EditorView, h: HistoryView, cfg: Config) -> EditorView {
    EditorView { history: h, pending_copy: v.pending_copy || cfg.general.auto_copy, ..v }
}

/// Undo, as the editor does it.
pub open spec fn editor_undo(v: EditorView, cfg: Config) -> EditorView {
    if v.history.undo.len() == 0 {
        v
    } else {
        changed(v, spec_undo(v.history), cfg)
    }
}

/// Redo, as the editor does it.
pub open spec fn editor_redo(v: EditorView, cfg: Config) -> EditorView {
    if v.history.redo.len() == 0 {
        v
    } else {
        changed(v, spec_redo(v.history), cfg)
    }
}

/// Carrying out a list of actions in order: copy and save are deferred, and
/// `Exit` asks for the exit and ends the list (the second component says whether
/// it came); the exit itself waits for the deferred work.
pub open spec fn spec_execute(v: EditorView, acts: Seq<Action>) -> (EditorView, bool)
    decreases acts.len(),
{
    if acts.len() == 0 {
        (v, false)
    } else {
        match acts[0] {
            Action::Exit => (EditorView { exit_requested: true, ..v }, true),
            Action::SaveToFile => spec_execute(EditorView { pending_save: true, ..v }, acts.drop_first()),
            Action::SaveToFileAs => spec_execute(EditorView { pending_save: true, ..v }, acts.drop_first()),
            Action::SaveToClipboard => spec_execute(EditorView { pending_copy: true, ..v }, acts.drop_first()),
            Action::CopyFilepathToClipboard => spec_execute(
                EditorView { pending_copy_path: true, ..v },
                acts.drop_first(),
            ),
        }
    }
}

/// The deferred work of a state: a copy (and a save after it where configured),
/// a save, a copy of the saved path, and an exit where one was asked for or
/// where `early_exit` is set and something is copied or saved.
pub open spec fn spec_pending_work(v: EditorView, cfg: Config) -> PendingWork {
    PendingWork {
        copy: v.pending_copy,
        save_after_copy: v.pending_copy && cfg.general.save_after_copy,
        save: v.pending_save,
        copy_path: v.pending_copy_path,
        exit_after: v.exit_requested || (cfg.general.early_exit && (v.pending_copy || v.pending_save)),
    }
}

/// The tool bound to a typed character, if any.
pub open spec fn bound_tool(cfg: Config, c: char) -> Option<ToolType> {
    let km = spec_keybind_map(cfg.keybinds);
    if km.contains_key(c as u32) {
        spec_tool_from_name(km[c as u32])
    } else {
        None
    }
}

/// A typed character: a tool key selects its tool (the marker key pressed again
/// with the marker tool active also sets the marker counter back to 1) and
/// cancels the shape being drawn; `1`-`6` pick a palette color, `7` `8` `9` a
/// size, `f` toggles filling, `z` undoes, `y` redoes, `c` asks for a copy, `s` for
/// a save, `=` or `+` zoom in, `-` out, `0` resets the zoom.
pub open spec fn spec_char(v: EditorView, cfg: Config, c: char) -> (EditorView, bool, Option<ZoomCommand>) {
    match bound_tool(cfg, c) {
        Some(t) => {
            let h = if t == ToolType::Marker && v.active_tool == ToolType::Marker {
                HistoryView { marker_counter: 1u16, ..v.history }
            } else {
                v.history
            };
            (EditorView { active_tool: t, history: h, ..v }, true, None)
        },
        None => {
            if '1' <= c <= '6' {
                let pal = config_palette(cfg);
                let i = c as int - '1' as int;
                if i < pal.len() {
                    (EditorView { pen: Pen { color: tuple_color(pal[i]), ..v.pen }, ..v }, false, None)
                } else {
                    (v, false, None)
                }
            } else if c == '7' {
                (EditorView { pen: Pen { size: Size::Small, ..v.pen }, ..v }, false, None)
            } else if c == '8' {
                (EditorView { pen: Pen { size: Size::Medium, ..v.pen }, ..v }, false, None)
            } else if c == '9' {
                (EditorView { pen: Pen { size: Size::Large, ..v.pen }, ..v }, false, None)
            } else if c == 'f' {
                (EditorView { pen: Pen { fill: !v.pen.fill, ..v.pen }, ..v }, false, None)
            } else if c == 'z' {
                (editor_undo(v, cfg), false, None)
            } else if c == 'y' {
                (editor_redo(v, cfg), false, None)
            } else if c == 'c' {
                (EditorView { pending_copy: true, ..v }, false, None)
            } else if c == 's' {
                (EditorView { pending_save: true, ..v }, false, None)
            } else if c == '=' || c == '+' {
                (v, false, Some(ZoomCommand::In))
            } else if c == '-' {
                (v, false, Some(ZoomCommand::Out))
            } else if c == '0' {
                (v, false, Some(ZoomCommand::Reset))
            } else {
                (v, false, None)
            }
        },
    }
}

/// The typed strings in order, each by its first character: the state after
/// them, whether a shape was cancelled, and the zoom changes asked for.
pub open spec fn spec_typed(v: EditorView, cfg: Config, t: Seq<Seq<char>>) -> (
    EditorView,
    bool,
    Seq<ZoomCommand>,
)
    decreases t.len(),
{
    if t.len() == 0 {
        (v, false, Seq::empty())
    } else {
        let prev = spec_typed(v, cfg, t.drop_last());
        let s = t.last();
        if s.len() == 0 {
            prev
        } else {
            let step = spec_char(prev.0, cfg, s[0]);
            (
                step.0,
                prev.1 || step.1,
                match step.2 {
                    Some(z) => prev.2.push(z),
                    None => prev.2,
                },
            )
        }
    }
}

/// The Ctrl shortcuts: undo, redo, copy, save, and showing or hiding the toolbars.
pub open spec fn spec_ctrl_keys(v: EditorView, cfg: Config, k: KeyInput) -> EditorView {
    let v1 = if k.ctrl_z { editor_undo(v, cfg) } else { v };
    let v2 = if k.ctrl_y { editor_redo(v1, cfg) } else { v1 };
    let v3 = if k.ctrl_c { EditorView { pending_copy: true, ..v2 } } else { v2 };
    let v4 = if k.ctrl_s { EditorView { pending_save: true, ..v3 } } else { v3 };
    if k.ctrl_t { EditorView { toolbars_visible: !v4.toolbars_visible, ..v4 } } else { v4 }
}

/// One frame of keyboard input: nothing happens while text is typed into a text
/// annotation; otherwise the Ctrl shortcuts, then Escape (which cancels the shape
/// being drawn, or else runs the Escape actions), then Enter (which runs the
/// Enter actions unless a crop waits for it), then the typed characters. The
/// result is the new state, whether an `Exit` action stopped the handling,
/// whether to cancel the shape being drawn, and the zoom changes.
pub open spec fn spec_keyboard(v: EditorView, cfg: Config, drawing: DrawingKind, k: KeyInput) -> (
    EditorView,
    bool,
    bool,
    Seq<ZoomCommand>,
) {
    if drawing == DrawingKind::Text {
        (v, false, false, Seq::empty())
    } else {
        let v5 = spec_ctrl_keys(v, cfg, k);
        let esc_cancel = k.escape && drawing != DrawingKind::Idle;
        let esc = if k.escape && drawing == DrawingKind::Idle {
            spec_execute(v5, cfg.general.actions_on_escape@)
        } else {
            (v5, false)
        };
        if esc.1 {
            (esc.0, true, esc_cancel, Seq::empty())
        } else {
            let ent = if k.enter && !k.crop_pending {
                spec_execute(esc.0, cfg.general.actions_on_enter@)
            } else {
                (esc.0, false)
            };
            if ent.1 {
                (ent.0, true, esc_cancel, Seq::empty())
            } else {
                let ty = spec_typed(ent.0, cfg, string_views(k.typed@));
                (ty.0, false, esc_cancel || ty.1, ty.2)
            }
        }
    }
}

/// The tool chosen at start: the configured initial tool, or the arrow where the
/// setting names no tool.
pub open spec fn initial_tool(cfg: Config) -> ToolType {
    match spec_tool_from_name(lowercase(cfg.general.initial_tool@)) {
        Some(t) => t,
        None => ToolType::Arrow,
    }
}

impl Editor {
    /// The history is well formed.
    pub open spec fn wf(&self) -> bool {
        self.history.wf()
    }

    /// The configuration, the primary highlighter and the last saved path are
    /// those of `other`.
    pub open spec fn same_settings(&self, other: &Editor) -> bool {
        &&& self.config == other.config
        &&& self.primary_highlighter == other.primary_highlighter
        &&& self.last_saved_path == other.last_saved_path
    }

    /// The editor at start: no annotation; the first palette color, medium size and
    /// the configured filling; the configured initial tool and primary
    /// highlighter; toolbars shown unless configured hidden.
    pub fn new(config: Config) -> (e: Self)
        ensures
            e.wf(),
            e@.history.current.len() == 0,
            e@.history.undo.len() == 0,
            e@.history.redo.len() == 0,
            e@.history.marker_counter == 1,
            e.active_tool == initial_tool(config),
            e.pen == (Pen {
                color: tuple_color(config_palette(config)[0]),
                size: Size::Medium,
                fill: config.general.default_fill_shapes,
            }),
            e.primary_highlighter == (if config.general.primary_highlighter@ == "freehand"@ {
                HighlighterKind::Freehand
            } else {
                HighlighterKind::Block
            }),
            e.config == config,
            e.toolbars_visible == !config.general.default_hide_toolbars,
            e.last_saved_path is None,
            !e.pending_copy && !e.pending_save && !e.pending_copy_path && !e.exit_requested,
    {
        let palette = config.palette_colors();
        let color = if palette.len() > 0 {
            let (r, g, b, a) = palette[0];
            Color { r, g, b, a }
        } else {
            Color::orange()
        };
        let active_tool = match tool_from_string(config.general.initial_tool.as_str()) {
            Some(t) => t,
            None => ToolType::Arrow,
        };
        let primary_highlighter = HighlighterKind::from_config_name(
            config.general.primary_highlighter.as_str(),
        );
        let toolbars_visible = !config.general.default_hide_toolbars;
        let fill = config.general.default_fill_shapes;
        Editor {
            history: History::new(),
            active_tool,
            pen: Pen { color, size: Size::Medium, fill },
            primary_highlighter,
            config,
            toolbars_visible,
            last_saved_path: None,
            pending_copy: false,
            pending_save: false,
            pending_copy_path: false,
            exit_requested: false,
        }
    }

    /// Selects a tool (the application cancels the shape being drawn).
    pub fn switch_tool(&mut self, tool: ToolType)
        ensures
            final(self)@ == (EditorView { active_tool: tool, ..old(self)@ }),
            final(self).same_settings(old(self)),
            final(self).wf() == old(self).wf(),
    {
        self.active_tool = tool;
    }

    fn note_change(&mut self)
        ensures
            final(self)@ == (EditorView {
                pending_copy: old(self).pending_copy || old(self).config.general.auto_copy,
                ..old(self)@
            }),
            final(self).same_settings(old(self)),
            final(self).history == old(self).history,
    {
        if self.config.general.auto_copy {
            self.pending_copy = true;
        }
    }

    /// Adds an annotation that is not a marker.
    pub fn commit_annotation(&mut self, id: u64)
        requires
            old(self).wf(),
        ensures
            final(self)@ == changed(
                old(self)@,
                spec_commit(old(self)@.history, AnnotationEntry { id, marker: None }),
                old(self).config,
            ),
            final(self).same_settings(old(self)),
            final(self).wf(),
    {
        self.history.commit(AnnotationEntry { id, marker: None });
        self.note_change();
    }

    /// Adds a numbered marker, which takes the marker counter's number.
    pub fn add_marker(&mut self, id: u64)
        requires
            old(self).wf(),
            old(self)@.history.marker_counter < u16::MAX,
        ensures
            final(self)@ == changed(
                old(self)@,
                HistoryView {
                    marker_counter: (old(self)@.history.marker_counter + 1) as u16,
                    ..spec_commit(
                        old(self)@.history,
                        AnnotationEntry { id, marker: Some(old(self)@.history.marker_counter) },
                    )
                },
                old(self).config,
            ),
            final(self).same_settings(old(self)),
            final(self).wf(),
    {
        self.history.add_marker(id);
        self.note_change();
    }

    /// Deletes the annotation at `index`.
    pub fn delete_annotation(&mut self, index: usize)
        requires
            old(self).wf(),
            index < old(self)@.history.current.len(),
        ensures
            final(self)@ == changed(
                old(self)@,
                crate::history::spec_remove(old(self)@.history, index as int),
                old(self).config,
            ),
            final(self).same_settings(old(self)),
            final(self).wf(),
    {
        self.history.remove(index);
        self.note_change();
    }

    /// Replaces the shape of the annotation at `index`, as after moving it.
    pub fn move_annotation(&mut self, index: usize, id: u64)
        requires
            old(self).wf(),
            index < old(self)@.history.current.len(),
        ensures
            final(self)@ == changed(
                old(self)@,
                crate::history::spec_replace(old(self)@.history, index as int, id),
                old(self).config,
            ),
            final(self).same_settings(old(self)),
            final(self).wf(),
    {
        self.history.replace(index, id);
        self.note_change();
    }

    /// Gives the annotations shown new identifiers in place, as after a crop.
    pub fn relabel_annotations(&mut self, ids: &Vec<u64>)
        requires
            old(self).wf(),
            ids@.len() == old(self)@.history.current.len(),
        ensures
            final(self)@ == (EditorView {
                history: crate::history::spec_relabel(old(self)@.history, ids@),
                ..old(self)@
            }),
            final(self).same_settings(old(self)),
            final(self).wf(),
    {
        self.history.relabel(ids);
    }

    /// Undoes the last change, if there is one.
    pub fn undo(&mut self)
        requires
            old(self).wf(),
        ensures
            final(self)@ == editor_undo(old(self)@, old(self).config),
            final(self).same_settings(old(self)),
            final(self).wf(),
    {
        if self.history.can_undo() {
            self.history.undo();
            self.note_change();
        }
    }

    /// Redoes the last undone change, if there is one.
    pub fn redo(&mut self)
        requires
            old(self).wf(),
        ensures
            final(self)@ == editor_redo(old(self)@, old(self).config),
            final(self).same_settings(old(self)),
            final(self).wf(),
    {
        if self.history.can_redo() {
            self.history.redo();
            self.note_change();
        }
    }

    /// Carries out actions in order; returns whether one of them is `Exit`, at
    /// which the others stop.
    pub fn execute_actions(&mut self, actions: &Vec<Action>) -> (exit: bool)
        ensures
            (final(self)@, exit) == spec_execute(old(self)@, actions@),
            final(self).same_settings(old(self)),
            final(self).history == old(self).history,
    {
        let ghost v0 = self@;
        let n = actions.len();
        let mut i: usize = 0;
        assert(actions@.skip(0) =~= actions@);
        while i < n
            invariant
                n == actions@.len(),
                i <= n,
                v0 == old(self)@,
                spec_execute(v0, actions@) == spec_execute(self@, actions@.skip(i as int)),
                self.same_settings(old(self)),
                self.history == old(self).history,
            decreases n - i,
        {
            proof {
                assert(actions@.skip(i as int).drop_first() =~= actions@.skip(i + 1));
                assert(actions@.skip(i as int)[0] == actions@[i as int]);
            }
            match actions[i] {
                Action::Exit => {
                    assert(actions@.skip(i as int).len() > 0);
                    self.exit_requested = true;
                    return true;
                },
                Action::SaveToFile => {
                    self.pending_save = true;
                },
                Action::SaveToFileAs => {
                    self.pending_save = true;
                },
                Action::SaveToClipboard => {
                    self.pending_copy = true;
                },
                Action::CopyFilepathToClipboard => {
                    self.pending_copy_path = true;
                },
            }
            i = i + 1;
        }
        assert(actions@.skip(n as int).len() == 0);
        false
    }

    /// Runs the actions configured for a right click.
    pub fn right_click(&mut self) -> (exit: bool)
        ensures
            (final(self)@, exit) == spec_execute(old(self)@, old(self).config.general.actions_on_right_click@),
            final(self).same_settings(old(self)),
            final(self).history == old(self).history,
    {
        let actions = copy_actions(&self.config.general.actions_on_right_click);
        self.execute_actions(&actions)
    }

    /// Takes the deferred work, the exit last, and clears it.
    pub fn take_pending(&mut self) -> (w: PendingWork)
        ensures
            w == spec_pending_work(old(self)@, old(self).config),
            final(self)@ == (EditorView {
                pending_copy: false,
                pending_save: false,
                pending_copy_path: false,
                exit_requested: false,
                ..old(self)@
            }),
            final(self).same_settings(old(self)),
            final(self).wf() == old(self).wf(),
    {
        let w = PendingWork {
            copy: self.pending_copy,
            save_after_copy: self.pending_copy && self.config.general.save_after_copy,
            save: self.pending_save,
            copy_path: self.pending_copy_path,
            exit_after: self.exit_requested || (self.config.general.early_exit && (
            self.pending_copy || self.pending_save)),
        };
        self.pending_copy = false;
        self.pending_save = false;
        self.pending_copy_path = false;
        self.exit_requested = false;
        w
    }

    /// Ends the text being typed: a non-empty text becomes an annotation, an empty
    /// one is dropped. Returns whether it was added.
    pub fn finish_text(&mut self, text: &str, id: u64) -> (added: bool)
        requires
            old(self).wf(),
        ensures
            added == (text@.len() > 0),
            added ==> final(self)@ == changed(
                old(self)@,
                spec_commit(old(self)@.history, AnnotationEntry { id, marker: None }),
                old(self).config,
            ),
            !added ==> final(self)@ == old(self)@,
            final(self).same_settings(old(self)),
            final(self).wf(),
    {
        if text.unicode_len() > 0 {
            self.commit_annotation(id);
            true
        } else {
            false
        }
    }
}

impl Editor {
    fn typed_char(&mut self, c: char, keymap: &HashMap<u32, String>) -> (r: (bool, Option<ZoomCommand>))
        requires
            old(self).wf(),
            map_names(keymap@) == spec_keybind_map(old(self).config.keybinds),
        ensures
            (final(self)@, r.0, r.1) == spec_char(old(self)@, old(self).config, c),
            final(self).same_settings(old(self)),
            final(self).wf(),
    {
        let code = c as u32;
        let bound = match keymap.get(&code) {
            Some(name) => tool_from_lowercase_name(name.as_str()),
            None => None,
        };
        assert(bound == bound_tool(self.config, c));
        match bound {
            Some(t) => {
                if t == ToolType::Marker && self.active_tool == ToolType::Marker {
                    self.history.reset_marker_counter();
                }
                self.switch_tool(t);
                return (true, None);
            },
            None => {},
        }
        if '1' <= c && c <= '6' {
            let pal = self.config.palette_colors();
            let i = (c as u32 - '1' as u32) as usize;
            if i < pal.len() {
                let (r, g, b, a) = pal[i];
                self.pen.color = Color { r, g, b, a };
            }
            (false, None)
        } else if c == '7' {
            self.pen.size = Size::Small;
            (false, None)
        } else if c == '8' {
            self.pen.size = Size::Medium;
            (false, None)
        } else if c == '9' {
            self.pen.size = Size::Large;
            (false, None)
        } else if c == 'f' {
            self.pen.fill = !self.pen.fill;
            (false, None)
        } else if c == 'z' {
            self.undo();
            (false, None)
        } else if c == 'y' {
            self.redo();
            (false, None)
        } else if c == 'c' {
            self.pending_copy = true;
            (false, None)
        } else if c == 's' {
            self.pending_save = true;
            (false, None)
        } else if c == '=' || c == '+' {
            (false, Some(ZoomCommand::In))
        } else if c == '-' {
            (false, Some(ZoomCommand::Out))
        } else if c == '0' {
            (false, Some(ZoomCommand::Reset))
        } else {
            (false, None)
        }
    }

    fn ctrl_keys(&mut self, keys: &KeyInput)
        requires
            old(self).wf(),
        ensures
            final(self)@ == spec_ctrl_keys(old(self)@, old(self).config, *keys),
            final(self).same_settings(old(self)),
            final(self).wf(),
    {
        if keys.ctrl_z {
            self.undo();
        }
        if keys.ctrl_y {
            self.redo();
        }
        if keys.ctrl_c {
            self.pending_copy = true;
        }
        if keys.ctrl_s {
            self.pending_save = true;
        }
        if keys.ctrl_t {
            self.toolbars_visible = !self.toolbars_visible;
        }
    }

    fn handle_typed(&mut self, typed: &Vec<String>) -> (r: (bool, Vec<ZoomCommand>))
        requires
            old(self).wf(),
        ensures
            spec_typed(old(self)@, old(self).config, string_views(typed@)) == (final(self)@, r.0, r.1@),
            final(self).same_settings(old(self)),
            final(self).wf(),
    {
        let keymap = self.config.keybind_map();
        let ghost v_start = self@;
        let ghost tv = string_views(typed@);
        let mut typed_cancel = false;
        let mut zoom: Vec<ZoomCommand> = Vec::new();
        let n = typed.len();
        let mut i: usize = 0;
        assert(tv.take(0) =~= Seq::<Seq<char>>::empty());
        while i < n
            invariant
                n == typed@.len(),
                tv == string_views(typed@),
                v_start == old(self)@,
                i <= n,
                self.wf(),
                self.same_settings(old(self)),
                map_names(keymap@) == spec_keybind_map(self.config.keybinds),
                spec_typed(v_start, self.config, tv.take(i as int)) == (self@, typed_cancel, zoom@),
            decreases n - i,
        {
            proof {
                assert(tv.take(i + 1).drop_last() =~= tv.take(i as int));
                assert(tv.take(i + 1).last() == typed@[i as int]@);
            }
            match first_char(typed[i].as_str()) {
                Some(c) => {
                    let (cancel, z) = self.typed_char(c, &keymap);
                    typed_cancel = typed_cancel || cancel;
                    match z {
                        Some(zz) => {
                            zoom.push(zz);
                        },
                        None => {},
                    }
                },
                None => {},
            }
            i = i + 1;
        }
        assert(tv.take(n as int) =~= tv);
        (typed_cancel, zoom)
    }

    /// Handles one frame of keyboard input.
    pub fn handle_keyboard(&mut self, drawing: DrawingKind, keys: &KeyInput) -> (r: KeyResponse)
        requires
            old(self).wf(),
        ensures
            ({
                let s = spec_keyboard(old(self)@, old(self).config, drawing, *keys);
                &&& final(self)@ == s.0
                &&& r.exit == s.1
                &&& r.cancel_drawing == s.2
                &&& r.zoom@ == s.3
            }),
            final(self).same_settings(old(self)),
            final(self).wf(),
    {
        if drawing == DrawingKind::Text {
            return KeyResponse { exit: false, cancel_drawing: false, zoom: Vec::new() };
        }
        self.ctrl_keys(keys);
        let esc_cancel = keys.escape && drawing != DrawingKind::Idle;
        if keys.escape && drawing == DrawingKind::Idle {
            let acts = copy_actions(&self.config.general.actions_on_escape);
            if self.execute_actions(&acts) {
                return KeyResponse { exit: true, cancel_drawing: esc_cancel, zoom: Vec::new() };
            }
        }
        if keys.enter && !keys.crop_pending {
            let acts = copy_actions(&self.config.general.actions_on_enter);
            if self.execute_actions(&acts) {
                return KeyResponse { exit: true, cancel_drawing: esc_cancel, zoom: Vec::new() };
            }
        }
        let (typed_cancel, zoom) = self.handle_typed(&keys.typed);
        KeyResponse { exit: false, cancel_drawing: esc_cancel || typed_cancel, zoom }
    }
}

/// While text is typed into a text annotation, no key is a shortcut.
pub proof fn law_text_entry_ignores_shortcuts(v: EditorView, cfg: Config, k: KeyInput)
    ensures
        spec_keyboard(v, cfg, DrawingKind::Text, k) == (v, false, false, Seq::<ZoomCommand>::empty()),
{
}

/// Escape while a shape is being drawn cancels the shape.
pub proof fn law_escape_cancels_shape(v: EditorView, cfg: Config, k: KeyInput)
    requires
        k.escape,
    ensures
        spec_keyboard(v, cfg, DrawingKind::Shape, k).2,
{
}

/// Pressing the marker key while the marker tool is active sets the marker
/// counter back to 1 and keeps the marker tool.
pub proof fn law_marker_key_again_resets_counter(v: EditorView, cfg: Config, c: char)
    requires
        bound_tool(cfg, c) == Some(ToolType::Marker),
        v.active_tool == ToolType::Marker,
    ensures
        spec_char(v, cfg, c).0.history.marker_counter == 1,
        spec_char(v, cfg, c).0.active_tool == ToolType::Marker,
        spec_char(v, cfg, c).0.history.current == v.history.current,
{
}

/// `Exit` ends a list of actions at once: nothing after it is done, and the
/// exit is asked for.
pub proof fn law_exit_ends_actions(v: EditorView, rest: Seq<Action>)
    ensures
        spec_execute(v, seq![Action::Exit] + rest) == (EditorView { exit_requested: true, ..v }, true),
{
    assert((seq![Action::Exit] + rest)[0] == Action::Exit);
}

/// A list of actions without `Exit` only asks for deferred work: a copy where it
/// holds `SaveToClipboard`, a save where it holds `SaveToFile` or
/// `SaveToFileAs`, a copy of the saved path where it holds
/// `CopyFilepathToClipboard`; the annotations, the tool and the pen stay.
pub proof fn law_actions_only_defer(v: EditorView, acts: Seq<Action>)
    requires
        !acts.contains(Action::Exit),
    ensures
        !spec_execute(v, acts).1,
        spec_execute(v, acts).0.pending_copy == (v.pending_copy || acts.contains(Action::SaveToClipboard)),
        spec_execute(v, acts).0.pending_save == (v.pending_save || acts.contains(Action::SaveToFile)
            || acts.contains(Action::SaveToFileAs)),
        spec_execute(v, acts).0.pending_copy_path == (v.pending_copy_path || acts.contains(
            Action::CopyFilepathToClipboard,
        )),
        spec_execute(v, acts).0.history == v.history,
        spec_execute(v, acts).0.active_tool == v.active_tool,
        spec_execute(v, acts).0.pen == v.pen,
        spec_execute(v, acts).0.toolbars_visible == v.toolbars_visible,
        spec_execute(v, acts).0.exit_requested == v.exit_requested,
    decreases acts.len(),
{
    if acts.len() > 0 {
        let rest = acts.drop_first();
        assert forall|a: Action| acts.contains(a) <==> (acts[0] == a || rest.contains(a)) by {
            if acts.contains(a) {
                let i = choose|i: int| 0 <= i < acts.len() && acts[i] == a;
                if i > 0 {
                    assert(rest[i - 1] == a);
                }
            }
            if rest.contains(a) {
                let i = choose|i: int| 0 <= i < rest.len() && rest[i] == a;
                assert(acts[i + 1] == a);
            }
            if acts[0] == a {
                assert(acts.contains(a));
            }
        }
        let v1 = match acts[0] {
            Action::Exit => v,
            Action::SaveToFile => EditorView { pending_save: true, ..v },
            Action::SaveToFileAs => EditorView { pending_save: true, ..v },
            Action::SaveToClipboard => EditorView { pending_copy: true, ..v },
            Action::CopyFilepathToClipboard => EditorView { pending_copy_path: true, ..v },
        };
        law_actions_only_defer(v1, rest);
    }
}

proof fn lemma_execute_append(v: EditorView, before: Seq<Action>, rest: Seq<Action>)
    requires
        !before.contains(Action::Exit),
    ensures
        spec_execute(v, before + rest) == spec_execute(spec_execute(v, before).0, rest),
    decreases before.len(),
{
    if before.len() > 0 {
        let all = before + rest;
        assert(all[0] == before[0]);
        assert(all.drop_first() =~= before.drop_first() + rest);
        assert(before.drop_first().len() > 0 ==> before.drop_first()[0] == before[1]);
        if before.drop_first().contains(Action::Exit) {
            let i = choose|i: int|
                0 <= i < before.drop_first().len() && before.drop_first()[i] == Action::Exit;
            assert(before[i + 1] == Action::Exit);
        }
        assert(before[0] != Action::Exit) by {
            if before[0] == Action::Exit {
                assert(before.contains(Action::Exit));
            }
        }
        let v1 = match before[0] {
            Action::Exit => v,
            Action::SaveToFile => EditorView { pending_save: true, ..v },
            Action::SaveToFileAs => EditorView { pending_save: true, ..v },
            Action::SaveToClipboard => EditorView { pending_copy: true, ..v },
            Action::CopyFilepathToClipboard => EditorView { pending_copy_path: true, ..v },
        };
        lemma_execute_append(v1, before.drop_first(), rest);
    } else {
        assert(before + rest =~= rest);
    }
}

/// An `Exit` does not drop the work asked for before it: the pending work then
/// holds the copy and the saves asked for by the actions before the `Exit`
/// (and by the state before them), and the exit comes last, after that work.
/// With the default Enter actions (copy, then exit) the copy is done before
/// the exit.
pub proof fn law_exit_waits_for_earlier_work(
    v: EditorView,
    cfg: Config,
    before: Seq<Action>,
    after: Seq<Action>,
)
    requires
        !before.contains(Action::Exit),
    ensures
        ({
            let r = spec_execute(v, before + seq![Action::Exit] + after);
            let w = spec_pending_work(r.0, cfg);
            &&& r.1
            &&& w.exit_after
            &&& w.copy == (v.pending_copy || before.contains(Action::SaveToClipboard))
            &&& w.save == (v.pending_save || before.contains(Action::SaveToFile) || before.contains(
                Action::SaveToFileAs,
            ))
            &&& w.copy_path == (v.pending_copy_path || before.contains(
                Action::CopyFilepathToClipboard,
            ))
            &&& r.0.history == v.history
        }),
        spec_pending_work(
            spec_execute(v, seq![Action::SaveToClipboard, Action::Exit]).0,
            cfg,
        ).copy,
        spec_pending_work(
            spec_execute(v, seq![Action::SaveToClipboard, Action::Exit]).0,
            cfg,
        ).exit_after,
{
    assert(before + seq![Action::Exit] + after =~= before + (seq![Action::Exit] + after));
    lemma_execute_append(v, before, seq![Action::Exit] + after);
    law_actions_only_defer(v, before);
    law_exit_ends_actions(spec_execute(v, before).0, after);
    let d = seq![Action::SaveToClipboard];
    assert(!d.contains(Action::Exit)) by {
        if d.contains(Action::Exit) {
            let i = choose|i: int| 0 <= i < d.len() && d[i] == Action::Exit;
        }
    }
    assert(seq![Action::SaveToClipboard, Action::Exit] =~= d + (seq![Action::Exit] + Seq::<
        Action,
    >::empty()));
    lemma_execute_append(v, d, seq![Action::Exit] + Seq::<Action>::empty());
    law_actions_only_defer(v, d);
    assert(d.contains(Action::SaveToClipboard)) by {
        assert(d[0] == Action::SaveToClipboard);
    }
    law_exit_ends_actions(spec_execute(v, d).0, Seq::<Action>::empty());
}

proof fn lemma_execute_keeps_requests(v: EditorView, acts: Seq<Action>)
    ensures
        v.pending_save ==> spec_execute(v, acts).0.pending_save,
        v.pending_copy ==> spec_execute(v, acts).0.pending_copy,
        spec_execute(v, acts).0.toolbars_visible == v.toolbars_visible,
        spec_execute(v, acts).0.history == v.history,
    decreases acts.len(),
{
    if acts.len() > 0 {
        let v1 = match acts[0] {
            Action::Exit => v,
            Action::SaveToFile => EditorView { pending_save: true, ..v },
            Action::SaveToFileAs => EditorView { pending_save: true, ..v },
            Action::SaveToClipboard => EditorView { pending_copy: true, ..v },
            Action::CopyFilepathToClipboard => EditorView { pending_copy_path: true, ..v },
        };
        lemma_execute_keeps_requests(v1, acts.drop_first());
    }
}

proof fn lemma_typed_keeps_requests(v: EditorView, cfg: Config, t: Seq<Seq<char>>)
    ensures
        v.pending_save ==> spec_typed(v, cfg, t).0.pending_save,
        v.pending_copy ==> spec_typed(v, cfg, t).0.pending_copy,
        spec_typed(v, cfg, t).0.toolbars_visible == v.toolbars_visible,
    decreases t.len(),
{
    if t.len() > 0 {
        lemma_typed_keeps_requests(v, cfg, t.drop_last());
    }
}

/// Ctrl+S always asks for a save and Ctrl+C for a copy, whatever else is pressed
/// in the same frame, unless text is being typed into a text annotation.
pub proof fn law_ctrl_save_and_copy_keys(v: EditorView, cfg: Config, drawing: DrawingKind, k: KeyInput)
    requires
        drawing != DrawingKind::Text,
    ensures
        k.ctrl_s ==> spec_keyboard(v, cfg, drawing, k).0.pending_save,
        k.ctrl_c ==> spec_keyboard(v, cfg, drawing, k).0.pending_copy,
{
    let v5 = spec_ctrl_keys(v, cfg, k);
    assert(k.ctrl_s ==> v5.pending_save);
    assert(k.ctrl_c ==> v5.pending_copy);
    lemma_execute_keeps_requests(v5, cfg.general.actions_on_escape@);
    let esc = if k.escape && drawing == DrawingKind::Idle {
        spec_execute(v5, cfg.general.actions_on_escape@)
    } else {
        (v5, false)
    };
    lemma_execute_keeps_requests(esc.0, cfg.general.actions_on_enter@);
    let ent = if k.enter && !k.crop_pending {
        spec_execute(esc.0, cfg.general.actions_on_enter@)
    } else {
        (esc.0, false)
    };
    lemma_typed_keeps_requests(ent.0, cfg, string_views(k.typed@));
}

/// Ctrl+T shows hidden toolbars and hides shown ones, whatever else is pressed in
/// the same frame, unless text is being typed.
pub proof fn law_ctrl_t_toggles_toolbars(v: EditorView, cfg: Config, drawing: DrawingKind, k: KeyInput)
    requires
        drawing != DrawingKind::Text,
    ensures
        spec_keyboard(v, cfg, drawing, k).0.toolbars_visible == (v.toolbars_visible != k.ctrl_t),
{
    let v5 = spec_ctrl_keys(v, cfg, k);
    lemma_execute_keeps_requests(v5, cfg.general.actions_on_escape@);
    let esc = if k.escape && drawing == DrawingKind::Idle {
        spec_execute(v5, cfg.general.actions_on_escape@)
    } else {
        (v5, false)
    };
    lemma_execute_keeps_requests(esc.0, cfg.general.actions_on_enter@);
    let ent = if k.enter && !k.crop_pending {
        spec_execute(esc.0, cfg.general.actions_on_enter@)
    } else {
        (esc.0, false)
    };
    lemma_typed_keeps_requests(ent.0, cfg, string_views(k.typed@));
}

/// Ctrl+Z alone brings back the annotations saved last for undo, and Ctrl+Y alone
/// the ones undone last; with nothing to undo or redo the annotations stay.
pub proof fn law_ctrl_undo_redo_keys(v: EditorView, cfg: Config, drawing: DrawingKind, k: KeyInput)
    requires
        drawing != DrawingKind::Text,
        !k.ctrl_c && !k.ctrl_s && !k.ctrl_t && !k.escape && !k.enter,
        k.typed@.len() == 0,
        !(k.ctrl_z && k.ctrl_y),
    ensures
        k.ctrl_z && v.history.undo.len() > 0 ==> spec_keyboard(v, cfg, drawing, k).0.history.current
            == v.history.undo.last(),
        k.ctrl_y && v.history.redo.len() > 0 ==> spec_keyboard(v, cfg, drawing, k).0.history.current
            == v.history.redo.last(),
        k.ctrl_z && v.history.undo.len() > 0 ==> spec_keyboard(v, cfg, drawing, k).0.history.redo.last()
            == v.history.current,
        k.ctrl_y && v.history.redo.len() > 0 ==> spec_keyboard(v, cfg, drawing, k).0.history.undo.last()
            == v.history.current,
        !k.ctrl_z && !k.ctrl_y || k.ctrl_z && v.history.undo.len() == 0 || k.ctrl_y
            && v.history.redo.len() == 0 ==> spec_keyboard(v, cfg, drawing, k).0.history == v.history,
        !spec_keyboard(v, cfg, drawing, k).1,
        spec_keyboard(v, cfg, drawing, k).3.len() == 0,
{
    assert(string_views(k.typed@) =~= Seq::<Seq<char>>::empty());
}

/// The style and zoom keys, where they are not bound to a tool: `1` to `6` pick
/// that palette color where the palette has it, `7` `8` `9` pick the small,
/// medium and large size, `f` turns filling on or off, `=` and `+` zoom in, `-`
/// zooms out and `0` resets the zoom; none of them changes the annotations.
pub proof fn law_style_and_zoom_keys(v: EditorView, cfg: Config, c: char)
    requires
        bound_tool(cfg, c) is None,
    ensures
        '1' <= c <= '6' && (c as int - '1' as int) < config_palette(cfg).len() ==> spec_char(
            v,
            cfg,
            c,
        ).0.pen.color == tuple_color(config_palette(cfg)[c as int - '1' as int]),
        c == '7' ==> spec_char(v, cfg, c).0.pen.size == Size::Small,
        c == '8' ==> spec_char(v, cfg, c).0.pen.size == Size::Medium,
        c == '9' ==> spec_char(v, cfg, c).0.pen.size == Size::Large,
        c == 'f' ==> spec_char(v, cfg, c).0.pen.fill == !v.pen.fill,
        c == '=' || c == '+' ==> spec_char(v, cfg, c).2 == Some(ZoomCommand::In),
        c == '-' ==> spec_char(v, cfg, c).2 == Some(ZoomCommand::Out),
        c == '0' ==> spec_char(v, cfg, c).2 == Some(ZoomCommand::Reset),
        c != 'z' && c != 'y' ==> spec_char(v, cfg, c).0.history == v.history,
        !spec_char(v, cfg, c).1,
{
}

/// A key bound to a tool selects that tool and cancels the shape being drawn.
pub proof fn law_tool_keys_select_tools(v: EditorView, cfg: Config, c: char, t: ToolType)
    requires
        bound_tool(cfg, c) == Some(t),
    ensures
        spec_char(v, cfg, c).0.active_tool == t,
        spec_char(v, cfg, c).1,
        spec_char(v, cfg, c).2 is None,
        spec_char(v, cfg, c).0.pen == v.pen,
        spec_char(v, cfg, c).0.history.current == v.history.current,
{
}

/// A typed `s` asks for a save and a typed `c` for a copy, where the key is not
/// bound to a tool.
pub proof fn law_typed_save_and_copy_keys(v: EditorView, cfg: Config)
    ensures
        bound_tool(cfg, 's') is None ==> spec_char(v, cfg, 's').0.pending_save,
        bound_tool(cfg, 'c') is None ==> spec_char(v, cfg, 'c').0.pending_copy,
{
}

/// The deferred work: the copy, save and path copy asked for are done; a save
/// follows the copy exactly where `save_after_copy` is set; and the program
/// exits afterwards exactly where an exit was asked for, or where `early_exit`
/// is set and something is copied or saved.
pub proof fn law_pending_work(v: EditorView, cfg: Config)
    ensures
        spec_pending_work(v, cfg).copy == v.pending_copy,
        spec_pending_work(v, cfg).save == v.pending_save,
        spec_pending_work(v, cfg).copy_path == v.pending_copy_path,
        spec_pending_work(v, cfg).save_after_copy <==> (v.pending_copy
            && cfg.general.save_after_copy),
        v.exit_requested ==> spec_pending_work(v, cfg).exit_after,
        cfg.general.early_exit && v.pending_save ==> spec_pending_work(v, cfg).exit_after,
        cfg.general.early_exit && v.pending_copy ==> spec_pending_work(v, cfg).exit_after,
        !v.exit_requested && !cfg.general.early_exit ==> !spec_pending_work(v, cfg).exit_after,
        !v.exit_requested && !v.pending_copy && !v.pending_save
            ==> !spec_pending_work(v, cfg).exit_after,
{
}

fn copy_actions(v: &Vec<Action>) -> (r: Vec<Action>)
    ensures
        r@ == v@,
{
    let mut r: Vec<Action> = Vec::new();
    let n = v.len();
    let mut i: usize = 0;
    while i < n
        invariant
            n == v@.len(),
            i <= n,
            r@ == v@.take(i as int),
        decreases n - i,
    {
        r.push(v[i]);
        assert(r@ =~= v@.take(i + 1));
        i = i + 1;
    }
    assert(v@.take(n as int) =~= v@);
    r
}

} // verus!

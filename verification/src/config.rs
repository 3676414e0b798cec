use std::collections::HashMap;

use vstd::prelude::*;

use crate::hexcolor::{parse_hex_color, spec_parse_hex_color};
use crate::style::Color;
use crate::text::first_char;
use vstd::string::StringExecFns;

verus! {

/// What a key press, the Escape key or a right click may be configured to do.
#[derive(Debug, Clone, Copy, PartialEq, Eq, Structural)]
pub enum Action {
    SaveToClipboard,
    SaveToFile,
    SaveToFileAs,
    CopyFilepathToClipboard,
    Exit,
}

/// The `[general]` section of the configuration file (its numeric settings with
/// a fractional part are kept by the application around the library).
#[derive(Debug, Clone)]
pub struct GeneralConfig {
    pub fullscreen: bool,
    pub floating_hack: bool,
    pub early_exit: bool,
    pub initial_tool: String,
    pub copy_command: Option<String>,
    pub save_after_copy: bool,
    pub auto_copy: bool,
    pub output_filename: Option<String>,
    pub actions_on_enter: Vec<Action>,
    pub actions_on_escape: Vec<Action>,
    pub actions_on_right_click: Vec<Action>,
    pub default_hide_toolbars: bool,
    pub default_fill_shapes: bool,
    pub primary_highlighter: String,
    pub brush_smooth_history_size: usize,
    pub no_window_decoration: bool,
    pub disable_notifications: bool,
}

pub fn default_initial_tool() -> (s: String)
    ensures
        s@ == "arrow"@,
{
    "arrow".to_owned()
}

pub fn default_actions_on_enter() -> (v: Vec<Action>)
    ensures
        v@ == seq![Action::SaveToClipboard, Action::Exit],
{
    let mut v = Vec::new();
    v.push(Action::SaveToClipboard);
    v.push(Action::Exit);
    v
}

pub fn default_actions_on_escape() -> (v: Vec<Action>)
    ensures
        v@ == seq![Action::Exit],
{
    let mut v = Vec::new();
    v.push(Action::Exit);
    v
}

pub fn default_primary_highlighter() -> (s: String)
    ensures
        s@ == "block"@,
{
    "block".to_owned()
}

pub fn default_brush_smooth_history_size() -> (n: usize)
    ensures
        n == 5,
{
    5
}

/// The settings of a `[general]` section that sets nothing.
pub open spec fn is_default_general(g: GeneralConfig) -> bool {
    &&& !g.fullscreen
    &&& !g.floating_hack
    &&& !g.early_exit
    &&& g.initial_tool@ == "arrow"@
    &&& g.copy_command is None
    &&& !g.save_after_copy
    &&& !g.auto_copy
    &&& g.output_filename is None
    &&& g.actions_on_enter@ == seq![Action::SaveToClipboard, Action::Exit]
    &&& g.actions_on_escape@ == seq![Action::Exit]
    &&& g.actions_on_right_click@ == Seq::<Action>::empty()
    &&& !g.default_hide_toolbars
    &&& !g.default_fill_shapes
    &&& g.primary_highlighter@ == "block"@
    &&& g.brush_smooth_history_size == 5
    &&& !g.no_window_decoration
    &&& !g.disable_notifications
}

impl Default for GeneralConfig {
    fn default() -> (g: Self)
        ensures
            is_default_general(g),
    {
        Self {
            fullscreen: false,
            floating_hack: false,
            early_exit: false,
            initial_tool: default_initial_tool(),
            copy_command: None,
            save_after_copy: false,
            auto_copy: false,
            output_filename: None,
            actions_on_enter: default_actions_on_enter(),
            actions_on_escape: default_actions_on_escape(),
            actions_on_right_click: Vec::new(),
            default_hide_toolbars: false,
            default_fill_shapes: false,
            primary_highlighter: default_primary_highlighter(),
            brush_smooth_history_size: default_brush_smooth_history_size(),
            no_window_decoration: false,
            disable_notifications: false,
        }
    }
}

/// The `[color_palette]` section: hexadecimal colors shown in the toolbar.
#[derive(Debug, Clone)]
pub struct ColorPaletteConfig {
    pub palette: Vec<String>,
}

impl Default for ColorPaletteConfig {
    fn default() -> (c: Self)
        ensures
            c.palette@.len() == 0,
    {
        ColorPaletteConfig { palette: Vec::new() }
    }
}

/// The `[keybinds]` section: the key of each tool; only the first character of a
/// setting counts.
#[derive(Debug, Clone)]
pub struct KeybindsConfig {
    pub pointer: Option<String>,
    pub crop: Option<String>,
    pub brush: Option<String>,
    pub line: Option<String>,
    pub arrow: Option<String>,
    pub rectangle: Option<String>,
    pub ellipse: Option<String>,
    pub text: Option<String>,
    pub marker: Option<String>,
    pub blur: Option<String>,
    pub highlight: Option<String>,
    pub delete: Option<String>,
}

/// Whether no key is configured.
pub open spec fn no_keybinds(k: KeybindsConfig) -> bool {
    &&& k.pointer is None
    &&& k.crop is None
    &&& k.brush is None
    &&& k.line is None
    &&& k.arrow is None
    &&& k.rectangle is None
    &&& k.ellipse is None
    &&& k.text is None
    &&& k.marker is None
    &&& k.blur is None
    &&& k.highlight is None
    &&& k.delete is None
}

impl Default for KeybindsConfig {
    fn default() -> (k: Self)
        ensures
            no_keybinds(k),
    {
        KeybindsConfig {
            pointer: None,
            crop: None,
            brush: None,
            line: None,
            arrow: None,
            rectangle: None,
            ellipse: None,
            text: None,
            marker: None,
            blur: None,
            highlight: None,
            delete: None,
        }
    }
}

/// The `[font]` section.
#[derive(Debug, Clone)]
pub struct FontConfig {
    pub family: Option<String>,
    pub style: Option<String>,
    pub fallback: Option<String>,
}

impl Default for FontConfig {
    fn default() -> (f: Self)
        ensures
            f.family is None && f.style is None && f.fallback is None,
    {
        FontConfig { family: None, style: None, fallback: None }
    }
}

/// The `[theme]` section: optional hexadecimal colors of the user interface.
#[derive(Debug, Clone)]
pub struct ThemeConfig {
    pub panel_fill: Option<String>,
    pub text_color: Option<String>,
    pub button_fill: Option<String>,
    pub button_active: Option<String>,
}

impl Default for ThemeConfig {
    fn default() -> (t: Self)
        ensures
            t.panel_fill is None && t.text_color is None && t.button_fill is None
                && t.button_active is None,
    {
        ThemeConfig { panel_fill: None, text_color: None, button_fill: None, button_active: None }
    }
}

/// The whole configuration.
#[derive(Debug, Clone)]
pub struct Config {
    pub general: GeneralConfig,
    pub color_palette: ColorPaletteConfig,
    pub keybinds: KeybindsConfig,
    pub font: FontConfig,
    pub theme: ThemeConfig,
}

impl Default for Config {
    fn default() -> (c: Self)
        ensures
            is_default_general(c.general),
            c.color_palette.palette@.len() == 0,
            no_keybinds(c.keybinds),
            c.font.family is None && c.font.style is None && c.font.fallback is None,
            c.theme.panel_fill is None && c.theme.text_color is None && c.theme.button_fill is None
                && c.theme.button_active is None,
    {
        Config {
            general: GeneralConfig::default(),
            color_palette: ColorPaletteConfig::default(),
            keybinds: KeybindsConfig::default(),
            font: FontConfig::default(),
            theme: ThemeConfig::default(),
        }
    }
}

/// The key of a tool: the first character of its setting, or its default key
/// where it has no setting or an empty one.
pub open spec fn binding_key(configured: Option<String>, default: char) -> char {
    match configured {
        Some(s) => if s@.len() > 0 { s@[0] } else { default },
        None => default,
    }
}

/// The key map: each key, as a `u32` code point, to the configuration name of its
/// tool. The tools are bound in this order, so where two tools share a key the
/// later one keeps it. The default keys are `p x b l a r e t m w h d`.
pub open spec fn spec_keybind_map(k: KeybindsConfig) -> Map<u32, Seq<char>> {
    Map::<u32, Seq<char>>::empty()
        .insert(binding_key(k.pointer, 'p') as u32, "pointer"@)
        .insert(binding_key(k.crop, 'x') as u32, "crop"@)
        .insert(binding_key(k.brush, 'b') as u32, "brush"@)
        .insert(binding_key(k.line, 'l') as u32, "line"@)
        .insert(binding_key(k.arrow, 'a') as u32, "arrow"@)
        .insert(binding_key(k.rectangle, 'r') as u32, "rectangle"@)
        .insert(binding_key(k.ellipse, 'e') as u32, "ellipse"@)
        .insert(binding_key(k.text, 't') as u32, "text"@)
        .insert(binding_key(k.marker, 'm') as u32, "marker"@)
        .insert(binding_key(k.blur, 'w') as u32, "blur"@)
        .insert(binding_key(k.highlight, 'h') as u32, "highlight"@)
        .insert(binding_key(k.delete, 'd') as u32, "delete"@)
}

/// The names that a map from keys to strings holds.
pub open spec fn map_names(m: Map<u32, String>) -> Map<u32, Seq<char>> {
    Map::new(|k: u32| m.contains_key(k), |k: u32| m[k]@)
}

fn key_for(configured: &Option<String>, default: char) -> (c: char)
    ensures
        c == binding_key(*configured, default),
{
    match configured {
        Some(s) => match first_char(s.as_str()) {
            Some(c) => c,
            None => default,
        },
        None => default,
    }
}

fn bind(map: &mut HashMap<u32, String>, key: char, name: &str)
    ensures
        map_names(final(map)@) == map_names(old(map)@).insert(key as u32, name@),
{
    map.insert(key as u32, name.to_owned());
    assert(map_names(map@) =~= map_names(old(map)@).insert(key as u32, name@));
}

/// The named result of a palette: the colors of its entries that parse, in order.
pub open spec fn parsed_palette(p: Seq<Seq<char>>) -> Seq<Color>
    decreases p.len(),
{
    if p.len() == 0 {
        Seq::empty()
    } else {
        let rest = parsed_palette(p.drop_last());
        match spec_parse_hex_color(p.last()) {
            Some(c) => rest.push(c),
            None => rest,
        }
    }
}

/// A color as an `(r, g, b, a)` tuple.
pub open spec fn rgba_tuple(c: Color) -> (u8, u8, u8, u8) {
    (c.r, c.g, c.b, c.a)
}

/// The built-in palette: orange, red, green, blue, cove and pink.
pub open spec fn default_palette() -> Seq<(u8, u8, u8, u8)> {
    seq![
        (240u8, 147u8, 43u8, 255u8),
        (235u8, 77u8, 75u8, 255u8),
        (106u8, 176u8, 76u8, 255u8),
        (34u8, 166u8, 179u8, 255u8),
        (19u8, 15u8, 64u8, 255u8),
        (200u8, 37u8, 184u8, 255u8),
    ]
}

/// The palette shown: the configured colors that parse, or the built-in palette
/// where none does.
pub open spec fn spec_palette_colors(p: Seq<Seq<char>>) -> Seq<(u8, u8, u8, u8)> {
    let parsed = parsed_palette(p);
    if parsed.len() > 0 {
        parsed.map_values(|c: Color| rgba_tuple(c))
    } else {
        default_palette()
    }
}

/// The views of a sequence of strings.
pub open spec fn string_views(v: Seq<String>) -> Seq<Seq<char>> {
    v.map_values(|s: String| s@)
}

/// The colors of the `[theme]` section, each parsed where it is set.
#[derive(Debug, Clone, Copy, PartialEq, Eq, Structural)]
pub struct ThemeColors {
    pub panel_fill: Option<Color>,
    pub text_color: Option<Color>,
    pub button_fill: Option<Color>,
    pub button_active: Option<Color>,
}

/// The color that an optional setting names.
pub open spec fn spec_optional_color(s: Option<String>) -> Option<Color> {
    match s {
        Some(h) => spec_parse_hex_color(h@),
        None => None,
    }
}

fn optional_color(s: &Option<String>) -> (c: Option<Color>)
    ensures
        c == spec_optional_color(*s),
{
    match s {
        Some(h) => parse_hex_color(h.as_str()),
        None => None,
    }
}

impl ThemeConfig {
    /// The colors to apply to the user interface: each setting that parses.
    pub fn colors(&self) -> (c: ThemeColors)
        ensures
            c.panel_fill == spec_optional_color(self.panel_fill),
            c.text_color == spec_optional_color(self.text_color),
            c.button_fill == spec_optional_color(self.button_fill),
            c.button_active == spec_optional_color(self.button_active),
    {
        ThemeColors {
            panel_fill: optional_color(&self.panel_fill),
            text_color: optional_color(&self.text_color),
            button_fill: optional_color(&self.button_fill),
            button_active: optional_color(&self.button_active),
        }
    }
}

impl Config {
    /// The map from each tool key (as a `u32` code point) to the tool's name.
    pub fn keybind_map(&self) -> (m: HashMap<u32, String>)
        ensures
            map_names(m@) == spec_keybind_map(self.keybinds),
    {
        let k = &self.keybinds;
        let mut map: HashMap<u32, String> = HashMap::new();
        assert(map_names(map@) =~= Map::<u32, Seq<char>>::empty());
        bind(&mut map, key_for(&k.pointer, 'p'), "pointer");
        bind(&mut map, key_for(&k.crop, 'x'), "crop");
        bind(&mut map, key_for(&k.brush, 'b'), "brush");
        bind(&mut map, key_for(&k.line, 'l'), "line");
        bind(&mut map, key_for(&k.arrow, 'a'), "arrow");
        bind(&mut map, key_for(&k.rectangle, 'r'), "rectangle");
        bind(&mut map, key_for(&k.ellipse, 'e'), "ellipse");
        bind(&mut map, key_for(&k.text, 't'), "text");
        bind(&mut map, key_for(&k.marker, 'm'), "marker");
        bind(&mut map, key_for(&k.blur, 'w'), "blur");
        bind(&mut map, key_for(&k.highlight, 'h'), "highlight");
        bind(&mut map, key_for(&k.delete, 'd'), "delete");
        map
    }

    /// The palette colors as `(r, g, b, a)` tuples.
    pub fn palette_colors(&self) -> (v: Vec<(u8, u8, u8, u8)>)
        ensures
            v@ == spec_palette_colors(string_views(self.color_palette.palette@)),
    {
        let palette = &self.color_palette.palette;
        let ghost pv = string_views(palette@);
        let mut result: Vec<(u8, u8, u8, u8)> = Vec::new();
        let n = palette.len();
        let mut i: usize = 0;
        while i < n
            invariant
                n == palette@.len(),
                pv == string_views(palette@),
                i <= n,
                result@ == parsed_palette(pv.take(i as int)).map_values(|c: Color| rgba_tuple(c)),
            decreases n - i,
        {
            proof {
                assert(pv.take(i + 1).drop_last() =~= pv.take(i as int));
            }
            match parse_hex_color(palette[i].as_str()) {
                Some(c) => {
                    result.push((c.r, c.g, c.b, c.a));
                },
                None => {},
            }
            proof {
                let prev = parsed_palette(pv.take(i as int));
                assert(pv.take(i + 1).last() == palette@[i as int]@);
                let next = parsed_palette(pv.take(i + 1));
                assert(result@ =~= next.map_values(|c: Color| rgba_tuple(c)));
            }
            i = i + 1;
        }
        assert(pv.take(n as int) =~= pv);
        if result.len() > 0 {
            result
        } else {
            proof {
                assert(parsed_palette(pv).len() == 0);
            }
            let mut d: Vec<(u8, u8, u8, u8)> = Vec::new();
            d.push((240, 147, 43, 255));
            d.push((235, 77, 75, 255));
            d.push((106, 176, 76, 255));
            d.push((34, 166, 179, 255));
            d.push((19, 15, 64, 255));
            d.push((200, 37, 184, 255));
            assert(d@ =~= default_palette());
            d
        }
    }
}

/// A filename template with a leading `~/` replaced by the home directory.
pub open spec fn spec_expand_tilde(s: Seq<char>, home: Seq<char>) -> Seq<char> {
    if s.len() >= 2 && s[0] == '~' && s[1] == '/' {
        home + s.subrange(1, s.len() as int)
    } else {
        s
    }
}

/// Replaces a leading `~/` of a filename template by the home directory.
pub fn expand_tilde(s: &str, home: &str) -> (r: String)
    ensures
        r@ == spec_expand_tilde(s@, home@),
{
    let n = s.unicode_len();
    if n >= 2 && s.get_char(0) == '~' && s.get_char(1) == '/' {
        let mut r = home.to_owned();
        r.append(s.substring_char(1, n));
        r
    } else {
        s.to_owned()
    }
}

/// With no key configured, each tool has its default key: `p x b l a r e t m w h
/// d` for pointer, crop, brush, line, arrow, rectangle, ellipse, text, marker,
/// blur, highlight and delete.
pub proof fn law_default_keybinds(k: KeybindsConfig)
    requires
        no_keybinds(k),
    ensures
        spec_keybind_map(k).dom() == set![
            'p' as u32, 'x' as u32, 'b' as u32, 'l' as u32, 'a' as u32, 'r' as u32,
            'e' as u32, 't' as u32, 'm' as u32, 'w' as u32, 'h' as u32, 'd' as u32,
        ],
        spec_keybind_map(k)['p' as u32] == "pointer"@,
        spec_keybind_map(k)['x' as u32] == "crop"@,
        spec_keybind_map(k)['b' as u32] == "brush"@,
        spec_keybind_map(k)['l' as u32] == "line"@,
        spec_keybind_map(k)['a' as u32] == "arrow"@,
        spec_keybind_map(k)['r' as u32] == "rectangle"@,
        spec_keybind_map(k)['e' as u32] == "ellipse"@,
        spec_keybind_map(k)['t' as u32] == "text"@,
        spec_keybind_map(k)['m' as u32] == "marker"@,
        spec_keybind_map(k)['w' as u32] == "blur"@,
        spec_keybind_map(k)['h' as u32] == "highlight"@,
        spec_keybind_map(k)['d' as u32] == "delete"@,
{
    assert(spec_keybind_map(k).dom() =~= set![
        'p' as u32, 'x' as u32, 'b' as u32, 'l' as u32, 'a' as u32, 'r' as u32,
        'e' as u32, 't' as u32, 'm' as u32, 'w' as u32, 'h' as u32, 'd' as u32,
    ]);
}

/// The keys of the tools, in the order they are bound.
pub open spec fn keybind_keys(k: KeybindsConfig) -> Seq<char> {
    seq![
        binding_key(k.pointer, 'p'),
        binding_key(k.crop, 'x'),
        binding_key(k.brush, 'b'),
        binding_key(k.line, 'l'),
        binding_key(k.arrow, 'a'),
        binding_key(k.rectangle, 'r'),
        binding_key(k.ellipse, 'e'),
        binding_key(k.text, 't'),
        binding_key(k.marker, 'm'),
        binding_key(k.blur, 'w'),
        binding_key(k.highlight, 'h'),
        binding_key(k.delete, 'd'),
    ]
}

/// The names of the tools, in the order they are bound.
pub open spec fn keybind_names() -> Seq<Seq<char>> {
    seq![
        "pointer"@,
        "crop"@,
        "brush"@,
        "line"@,
        "arrow"@,
        "rectangle"@,
        "ellipse"@,
        "text"@,
        "marker"@,
        "blur"@,
        "highlight"@,
        "delete"@,
    ]
}

/// Every key of the map belongs to some tool, and where no two tools share a key,
/// each tool's key leads to that tool.
pub proof fn law_keybinds_reach_every_tool(k: KeybindsConfig)
    ensures
        forall|c: u32| #[trigger]
            spec_keybind_map(k).contains_key(c) ==> exists|i: int|
                0 <= i < 12 && c == (#[trigger] keybind_keys(k)[i]) as u32,
        keybind_keys(k).no_duplicates() ==> forall|i: int|
            0 <= i < 12 ==> spec_keybind_map(k)[(#[trigger] keybind_keys(k)[i]) as u32]
                == keybind_names()[i],
{
    let ks = keybind_keys(k);
    assert forall|c: u32| #[trigger]
        spec_keybind_map(k).contains_key(c) implies exists|i: int|
            0 <= i < 12 && c == (#[trigger] keybind_keys(k)[i]) as u32 by {
        if c == ks[0] as u32 {
        } else if c == ks[1] as u32 {
        } else if c == ks[2] as u32 {
        } else if c == ks[3] as u32 {
        } else if c == ks[4] as u32 {
        } else if c == ks[5] as u32 {
        } else if c == ks[6] as u32 {
        } else if c == ks[7] as u32 {
        } else if c == ks[8] as u32 {
        } else if c == ks[9] as u32 {
        } else if c == ks[10] as u32 {
        } else {
            assert(c == ks[11] as u32);
        }
    }
    if ks.no_duplicates() {
        assert forall|i: int| 0 <= i < 12 implies spec_keybind_map(k)[(#[trigger] keybind_keys(
            k,
        )[i]) as u32] == keybind_names()[i] by {
            assert(forall|a: int, b: int|
                0 <= a < 12 && 0 <= b < 12 && a != b ==> ks[a] != ks[b]);
        }
    }
}

} // verus!

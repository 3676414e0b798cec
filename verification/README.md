# slappyshot

A screenshot annotation tool: pipe in a screenshot, annotate it, copy or save.

## Layout

- `src/` is the library, written in Verus and verified: every public function
  states what it returns or changes, and the laws of the library are proved as
  public proof functions.
  - `style`, `tools`: colors, sizes, tools, their names and icons.
  - `hexcolor`: parsing `#rrggbb` / `#rrggbbaa` colors.
  - `config`: the configuration, its defaults, the key map and the palette.
  - `history`: the annotations with undo, redo and the marker counter.
  - `editor`: the keyboard and the configured actions, with the copy, save and
    exit they ask for.
  - `region`: the whole-number geometry of crops, blurs and pixel pasting.
  - `picture`: decoding the input image and cropping it.
- `tests/` runs the library on concrete values.
- `app/` is the program around the library: the egui window, drawing with
  fractional coordinates, reading the configuration file and the input, the
  clipboard and saving.

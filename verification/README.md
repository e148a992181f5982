# UPS monitor interface

The interface of a monitor for uninterruptible power supplies: what its status
panel and settings dialog show, how that is laid out, and what a key or a click
does to it.

- `src/` is the library. Everything in it is verified with Verus: each function
  states what it returns or changes, and the properties that span functions are
  proof functions beside the code, or in `panel_laws.rs` and `width_laws.rs`.
- `tests/` runs the library on concrete values.
- `app/` is the Windows side: device contexts, fonts, icons and the conversions
  between the system's values and the library's. It is not verified.

## The library

| Module | What it decides |
| --- | --- |
| `panel`, `settings` | the rows of the status panel and of the settings dialog |
| `row`, `hotspots` | what a row can be, and the ids a click names |
| `focus` | the tab order, derived from the rows |
| `textfield` | caret, selection and editing of the one editable field |
| `layout`, `fingerprint` | column widths, window size, and the cache of sizes |
| `scrollbar` | where the parts of a list and its scrollbar are |
| `text` | which font each run of a line is set in |
| `theme`, `color`, `dpi`, `rect` | palette, metrics, scaling, rectangles |
| `tray`, `appicon`, `icon`, `gdi` | icon states, ownership, bitmap sizes |
| `config`, `notify`, `hid`, `lang`, `strings` | the data the above work on |

Text is measured through the trait `TextMetrics`; its `model` names what one way
of measuring answers, and every contract of the layout is stated over it.
Voltages arrive in whole volts and tenths of a volt, font sizes in hundredths of
a point.

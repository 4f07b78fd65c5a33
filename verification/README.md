# osd_bubble

The verified core of a desktop on-screen display that shows keystrokes, mouse
clicks and wheel steps in a bubble.

- `src/` is the library, checked by Verus: the bubble's lifecycle and settings
  (`state_machine`), the key tracker that turns input events into labels and
  merges quick repeats (`hook`), the JSON model of the persisted settings
  (`json`), the row layout, canvas size and colour parsing (`renderer`), the
  bubble's placement and pixel order (`overlay`), the ripple choices
  (`ripple_overlay`) and the rule for excluded applications (`platform`).
  Times are milliseconds on the caller's clock; the overall opacity is held
  in millionths and the other fractional settings in thousandths.
- `app/` is the program around it: the Tauri shell and its commands, the rdev
  hook, the Win32 layered windows, the easing curves and the tiny-skia
  drawing.
- `tests/` runs the library on concrete inputs.

Not part of this project: the multi-row keystroke history ("waterfall"), the
fixed screen-anchor positioning mode with its margins, and the settings for
turning mouse ripples on and off and sizing them. The bubble shows the
current keystroke alone, is placed by quadrant next to the cursor, and
ripples follow the display's on/off switch at the medium size.

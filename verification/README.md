# openframe

The platform-independent logic of OpenFrame's elements and iOS backend, verified with
Verus:

- `elements::glyph_border` — which glyph goes where in a glyph border: repeated rule
  patterns, text rails, structured rails of stripes, glyphs and gaps.
- `elements::tooltip` — tooltip content, its rendered rows and the tooltip hooks.
- `platform::ios` — the VoiceOver snapshot and its NUL-terminated query, the active
  window and touch injection, window state, the display and the sprite-atlas cache.
- `text` — characters of strings and the Unicode `White_Space` property.

`app/` holds what works in `f32` (colour-picker math, border pixel metrics) and what
talks to UIKit and libdispatch over FFI.

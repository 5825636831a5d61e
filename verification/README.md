# direct2d

A Direct2D binding whose decisions are proved with Verus.

- `src/` is the verified library:
  - `enums`: `AntialiasMode`, `BitmapInterpolationMode` and their raw `u32`
    values, `UncheckedEnum`, and the `DrawTextOptions` flag set with its
    operators, `is_set`, `clear`, `validate` and debug text;
  - `error`: the `SUCCEEDED` test on `HRESULT`s and `Error`;
  - `render_target`: `RenderTag`, the `TagTable` that turns tags into the
    pairs of integers Direct2D carries and back, and what `EndDraw` and
    `Flush` results become;
  - `wide`: text as null-terminated UTF-16.
- `app/` holds the COM calls into `ID2D1RenderTarget` and `ID2D1Brush`
  (Windows only), which use the library.
- `tests/` runs the library on concrete values.

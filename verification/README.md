# freetype

A binding to the FreeType font library whose decisions are proved with Verus.

- `src/` is the verified library: FreeType's error codes and the results
  they stand for (`error`), glyph load flags (`load_flag`), the render,
  kerning and LCD-filter modes, the plain-value records of faces, glyphs
  and bitmap glyphs with their getters, and `lifecycle`, the protocol by
  which the handles take and drop references to FreeType objects, with its
  laws (every handle that is created and then dropped leaves every
  reference count as it was; a drop never returns an error).
- `app/` holds the handle types (`Library`, `Face`, `Glyph`, `BitmapGlyph`)
  that own FreeType's raw pointers and make the calls through
  `freetype-sys`, asking the library what each return code means and which
  call comes next.
- `tests/` runs the library on concrete values and checks its numbers
  against `freetype-sys`.

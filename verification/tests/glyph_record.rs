use freetype::bitmap_glyph::BitmapGlyph;
use freetype::glyph::Glyph;
use freetype::types::{BBox, Vector};
use freetype_sys as ffi;

#[test]
fn advances_are_the_records_values() {
    let g = Glyph { advance: Vector { x: 9 << 16, y: -(3 << 16) }, format: ffi::FT_GLYPH_FORMAT_OUTLINE };
    assert_eq!(g.advance_x(), 9 << 16);
    assert_eq!(g.advance_y(), -(3 << 16));
    assert_eq!(g.format(), ffi::FT_GLYPH_FORMAT_OUTLINE);
}

#[test]
fn bitmap_glyph_offsets() {
    let b = BitmapGlyph { left: -2, top: 14 };
    assert_eq!(b.left(), -2);
    assert_eq!(b.top(), 14);
}

#[test]
fn zero_values() {
    assert_eq!(Vector::zero(), Vector { x: 0, y: 0 });
    assert_eq!(BBox::zero(), BBox { x_min: 0, y_min: 0, x_max: 0, y_max: 0 });
}

use vstd::prelude::*;
use vstd::string::StringExecFns;

use crate::error::{from_ftret, result_for_code, FtResult};
use crate::text::{decode, utf8_text};
use crate::types::{SizeMetrics, Vector};
use vstd::utf8::{decode_utf8, decode_utf8_encode_utf8, encode_utf8, valid_utf8};

verus! {

/// The face holds scalable outlines.
pub const FACE_FLAG_SCALABLE: i64 = 1;
/// The face holds bitmap strikes.
pub const FACE_FLAG_FIXED_SIZES: i64 = 2;
/// All glyphs of the face have the same advance width.
pub const FACE_FLAG_FIXED_WIDTH: i64 = 4;
/// The face is stored in the SFNT format.
pub const FACE_FLAG_SFNT: i64 = 8;
/// The face holds horizontal metrics.
pub const FACE_FLAG_HORIZONTAL: i64 = 16;
/// The face holds real vertical metrics.
pub const FACE_FLAG_VERTICAL: i64 = 32;
/// The face holds kerning data.
pub const FACE_FLAG_KERNING: i64 = 64;
/// The face holds glyph names.
pub const FACE_FLAG_GLYPH_NAMES: i64 = 512;
/// The face is CID-keyed.
pub const FACE_FLAG_CID_KEYED: i64 = 4096;
/// The face is a 'tricky' font.
pub const FACE_FLAG_TRICKY: i64 = 8192;
/// The face holds tables for colour glyphs.
pub const FACE_FLAG_COLOR: i64 = 16384;

/// How kerning distances are returned (`FT_Kerning_Mode`).
#[derive(Debug, Clone, Copy, PartialEq, Eq, Structural)]
pub enum KerningMode {
    KerningDefault,
    KerningUnfitted,
    KerningUnscaled,
}

impl KerningMode {
    /// FreeType's number for this mode.
    pub open spec fn spec_value(self) -> u32 {
        match self {
            KerningMode::KerningDefault => 0,
            KerningMode::KerningUnfitted => 1,
            KerningMode::KerningUnscaled => 2,
        }
    }

    /// FreeType's number for this mode.
    pub fn value(self) -> (v: u32)
        ensures
            v == self.spec_value(),
    {
        match self {
            KerningMode::KerningDefault => 0,
            KerningMode::KerningUnfitted => 1,
            KerningMode::KerningUnscaled => 2,
        }
    }
}

/// Whether the flag `flag` is set among the face flags `flags`.
pub open spec fn has_flag(flags: i64, flag: i64) -> bool {
    flags & flag != 0
}

/// A font face as the plain values that FreeType's face record holds:
/// its flags, its global metrics in font units, its names (as the bytes
/// before the terminating NUL, `None` where FreeType holds no name) and
/// the metrics of its current size (`None` where it has none).
#[derive(Debug, Clone)]
pub struct Face {
    pub face_flags: i64,
    pub units_per_em: u16,
    pub ascender: i16,
    pub descender: i16,
    pub height: i16,
    pub max_advance_width: i16,
    pub max_advance_height: i16,
    pub underline_position: i16,
    pub underline_thickness: i16,
    pub family_name: Option<Vec<u8>>,
    pub style_name: Option<Vec<u8>>,
    pub postscript_name: Option<Vec<u8>>,
    pub size_metrics: Option<SizeMetrics>,
}

/// The view of an optional name: its bytes, if there is one.
pub open spec fn name_view(name: Option<Vec<u8>>) -> Option<Seq<u8>> {
    match name {
        Some(v) => Some(v@),
        None => None,
    }
}

/// The text that names a face in its debug text: the style name where it
/// is valid UTF-8, and `[unknown name]` otherwise.
pub open spec fn shown_name(style_name: Option<Seq<u8>>) -> Seq<char> {
    match style_name {
        Some(bytes) => match utf8_text(bytes) {
            Some(text) => text,
            None => "[unknown name]"@,
        },
        None => "[unknown name]"@,
    }
}

/// A 16-bit unsigned value read as a 16-bit signed one (two's complement).
pub open spec fn as_signed16(u: u16) -> int {
    if u < 0x8000 {
        u as int
    } else {
        u - 0x10000
    }
}

fn name_bytes(name: &Option<Vec<u8>>) -> (r: Option<&[u8]>)
    ensures
        r is Some <==> name is Some,
        r matches Some(s) ==> s@ == name->0@,
{
    match name {
        Some(v) => Some(v.as_slice()),
        None => None,
    }
}

impl Face {
    /// Whether the face holds horizontal metrics.
    pub fn has_horizontal(&self) -> (r: bool)
        ensures
            r == has_flag(self.face_flags, FACE_FLAG_HORIZONTAL),
            r == (self.face_flags & FACE_FLAG_HORIZONTAL != 0),
    {
        self.face_flags & FACE_FLAG_HORIZONTAL != 0
    }

    /// Whether the face holds real vertical metrics.
    pub fn has_vertical(&self) -> (r: bool)
        ensures
            r == has_flag(self.face_flags, FACE_FLAG_VERTICAL),
            r == (self.face_flags & FACE_FLAG_VERTICAL != 0),
    {
        self.face_flags & FACE_FLAG_VERTICAL != 0
    }

    /// Whether the face holds kerning data.
    pub fn has_kerning(&self) -> (r: bool)
        ensures
            r == has_flag(self.face_flags, FACE_FLAG_KERNING),
            r == (self.face_flags & FACE_FLAG_KERNING != 0),
    {
        self.face_flags & FACE_FLAG_KERNING != 0
    }

    /// Whether the face holds scalable outlines.
    pub fn is_scalable(&self) -> (r: bool)
        ensures
            r == has_flag(self.face_flags, FACE_FLAG_SCALABLE),
            r == (self.face_flags & FACE_FLAG_SCALABLE != 0),
    {
        self.face_flags & FACE_FLAG_SCALABLE != 0
    }

    /// Whether the face is stored in the SFNT format.
    pub fn is_sfnt(&self) -> (r: bool)
        ensures
            r == has_flag(self.face_flags, FACE_FLAG_SFNT),
            r == (self.face_flags & FACE_FLAG_SFNT != 0),
    {
        self.face_flags & FACE_FLAG_SFNT != 0
    }

    /// Whether all glyphs of the face have the same advance width.
    pub fn is_fixed_width(&self) -> (r: bool)
        ensures
            r == has_flag(self.face_flags, FACE_FLAG_FIXED_WIDTH),
            r == (self.face_flags & FACE_FLAG_FIXED_WIDTH != 0),
    {
        self.face_flags & FACE_FLAG_FIXED_WIDTH != 0
    }

    /// Whether the face holds bitmap strikes.
    pub fn has_fixed_sizes(&self) -> (r: bool)
        ensures
            r == has_flag(self.face_flags, FACE_FLAG_FIXED_SIZES),
            r == (self.face_flags & FACE_FLAG_FIXED_SIZES != 0),
    {
        self.face_flags & FACE_FLAG_FIXED_SIZES != 0
    }

    /// Whether the face holds glyph names.
    pub fn has_glyph_names(&self) -> (r: bool)
        ensures
            r == has_flag(self.face_flags, FACE_FLAG_GLYPH_NAMES),
            r == (self.face_flags & FACE_FLAG_GLYPH_NAMES != 0),
    {
        self.face_flags & FACE_FLAG_GLYPH_NAMES != 0
    }

    /// Whether the face is CID-keyed.
    pub fn is_cid_keyed(&self) -> (r: bool)
        ensures
            r == has_flag(self.face_flags, FACE_FLAG_CID_KEYED),
            r == (self.face_flags & FACE_FLAG_CID_KEYED != 0),
    {
        self.face_flags & FACE_FLAG_CID_KEYED != 0
    }

    /// Whether the face is a 'tricky' font.
    pub fn is_tricky(&self) -> (r: bool)
        ensures
            r == has_flag(self.face_flags, FACE_FLAG_TRICKY),
            r == (self.face_flags & FACE_FLAG_TRICKY != 0),
    {
        self.face_flags & FACE_FLAG_TRICKY != 0
    }

    /// Whether the face holds tables for colour glyphs.
    pub fn has_color(&self) -> (r: bool)
        ensures
            r == has_flag(self.face_flags, FACE_FLAG_COLOR),
            r == (self.face_flags & FACE_FLAG_COLOR != 0),
    {
        self.face_flags & FACE_FLAG_COLOR != 0
    }

    /// The typographic ascender, in font units.
    pub fn ascender(&self) -> (r: i16)
        ensures
            r == self.ascender,
    {
        self.ascender
    }

    /// The typographic descender, in font units.
    pub fn descender(&self) -> (r: i16)
        ensures
            r == self.descender,
    {
        self.descender
    }

    /// The number of font units per EM square, read as FreeType's signed
    /// short (values from 32768 up wrap round to negative numbers).
    pub fn em_size(&self) -> (r: i16)
        ensures
            r as int == as_signed16(self.units_per_em),
    {
        let u = self.units_per_em;
        assert(u < 0x8000 ==> (u as i16) as int == u as int) by (bit_vector);
        assert(u >= 0x8000 ==> (u as i16) as int == u as int - 0x10000) by (bit_vector);
        u as i16
    }

    /// The distance between two baselines, in font units.
    pub fn height(&self) -> (r: i16)
        ensures
            r == self.height,
    {
        self.height
    }

    /// The largest advance width of all glyphs, in font units.
    pub fn max_advance_width(&self) -> (r: i16)
        ensures
            r == self.max_advance_width,
    {
        self.max_advance_width
    }

    /// The largest advance height of all glyphs, in font units.
    pub fn max_advance_height(&self) -> (r: i16)
        ensures
            r == self.max_advance_height,
    {
        self.max_advance_height
    }

    /// The position of the underline, in font units.
    pub fn underline_position(&self) -> (r: i16)
        ensures
            r == self.underline_position,
    {
        self.underline_position
    }

    /// The thickness of the underline, in font units.
    pub fn underline_thickness(&self) -> (r: i16)
        ensures
            r == self.underline_thickness,
    {
        self.underline_thickness
    }

    /// The family name, if the face has one.
    pub fn family_name(&self) -> (r: Option<&[u8]>)
        ensures
            r is Some <==> self.family_name is Some,
            r matches Some(s) ==> s@ == self.family_name->0@,
    {
        name_bytes(&self.family_name)
    }

    /// The style name, if the face has one.
    pub fn style_name(&self) -> (r: Option<&[u8]>)
        ensures
            r is Some <==> self.style_name is Some,
            r matches Some(s) ==> s@ == self.style_name->0@,
    {
        name_bytes(&self.style_name)
    }

    /// The PostScript name, if the face has one.
    pub fn postscript_name(&self) -> (r: Option<&[u8]>)
        ensures
            r is Some <==> self.postscript_name is Some,
            r matches Some(s) ==> s@ == self.postscript_name->0@,
    {
        name_bytes(&self.postscript_name)
    }

    /// The metrics of the current size, if the face has one.
    pub fn size_metrics(&self) -> (r: Option<SizeMetrics>)
        ensures
            r == self.size_metrics,
    {
        self.size_metrics
    }

    /// The debug text of the face: `Font Face: ` followed by its style name,
    /// or by `[unknown name]` where it has none that is valid UTF-8.
    pub fn debug_text(&self) -> (r: String)
        ensures
            r@ == "Font Face: "@ + shown_name(name_view(self.style_name)),
            self.style_name is Some && valid_utf8(self.style_name->0@) ==> r@ == "Font Face: "@
                + decode_utf8(self.style_name->0@),
            !(self.style_name is Some && valid_utf8(self.style_name->0@)) ==> r@ == "Font Face: "@
                + "[unknown name]"@,
    {
        let name: &str = match self.style_name() {
            Some(bytes) => match decode(bytes) {
                Some(text) => text,
                None => "[unknown name]",
            },
            None => "[unknown name]",
        };
        proof {
            reveal_strlit("[unknown name]");
        }
        let mut r = String::from_str("Font Face: ");
        r.append(name);
        r
    }
}

/// The outcome of a kerning query: the kerning vector that FreeType wrote
/// when it returned `0`, and the error with its code otherwise.
pub fn kerning_result(ret: i32, kerning: Vector) -> (r: FtResult<Vector>)
    ensures
        ret == 0 ==> r == Ok::<Vector, crate::error::Error>(kerning),
        ret != 0 ==> r == Err::<Vector, crate::error::Error>(result_for_code(ret)->Err_0),
{
    match from_ftret(ret) {
        Ok(()) => Ok(kerning),
        Err(e) => Err(e),
    }
}

/// The face-flag constants are FreeType's bits (`FT_FACE_FLAG_*`), and the
/// two flags about widths and sizes are different bits, so a flag test for
/// one is never answered by the other.
pub proof fn lemma_face_flag_bits()
    ensures
        FACE_FLAG_SCALABLE == 1,
        FACE_FLAG_FIXED_SIZES == 2,
        FACE_FLAG_FIXED_WIDTH == 4,
        FACE_FLAG_SFNT == 8,
        FACE_FLAG_HORIZONTAL == 16,
        FACE_FLAG_VERTICAL == 32,
        FACE_FLAG_KERNING == 64,
        FACE_FLAG_GLYPH_NAMES == 512,
        FACE_FLAG_CID_KEYED == 4096,
        FACE_FLAG_TRICKY == 8192,
        FACE_FLAG_COLOR == 16384,
        FACE_FLAG_FIXED_WIDTH & FACE_FLAG_FIXED_SIZES == 0,
        FACE_FLAG_HORIZONTAL & FACE_FLAG_VERTICAL == 0,
{
    assert(4i64 & 2i64 == 0 && 16i64 & 32i64 == 0) by (bit_vector);
}

/// A flag test answers whether that very bit is set: setting the flag makes
/// it true, clearing it makes it false, and setting or clearing any other
/// flag leaves the answer unchanged.
pub proof fn lemma_flag_test_reads_its_bit(flags: i64, f: i64, g: i64)
    requires
        f != 0,
        f & g == 0,
    ensures
        has_flag(flags, f) == (flags & f != 0),
        has_flag(flags | f, f),
        !has_flag(flags & !f, f),
        has_flag(flags | g, f) == has_flag(flags, f),
        has_flag(flags & !g, f) == has_flag(flags, f),
{
    assert((flags | f) & f != 0) by (bit_vector)
        requires
            f != 0,
    ;
    assert((flags & !f) & f == 0) by (bit_vector);
    assert(((flags | g) & f != 0) == (flags & f != 0)) by (bit_vector)
        requires
            f & g == 0,
    ;
    assert(((flags & !g) & f != 0) == (flags & f != 0)) by (bit_vector)
        requires
            f & g == 0,
    ;
}

/// The debug text shows the whole style name: where the name is valid
/// UTF-8, the text after the prefix is its decoding, whose UTF-8 encoding is
/// exactly the name's bytes, so it has as many characters as the name.
pub proof fn lemma_debug_text_shows_whole_name(bytes: Seq<u8>)
    requires
        valid_utf8(bytes),
    ensures
        shown_name(Some(bytes)) == decode_utf8(bytes),
        encode_utf8(shown_name(Some(bytes))) == bytes,
        ("Font Face: "@ + shown_name(Some(bytes))).len() == "Font Face: "@.len() + decode_utf8(
            bytes,
        ).len(),
{
    decode_utf8_encode_utf8(bytes);
}

/// Without a style name that is valid UTF-8, the debug text names the face
/// `[unknown name]`.
pub proof fn lemma_debug_text_unknown_name(name: Option<Seq<u8>>)
    requires
        !(name is Some && valid_utf8(name->0)),
    ensures
        shown_name(name) == "[unknown name]"@,
{
}

} // verus!

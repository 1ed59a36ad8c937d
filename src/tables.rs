use vstd::prelude::*;

verus! {

/// The position and thickness of a horizontal line (underline or
/// strikeout), in font units.
#[derive(Clone, Copy, Debug, PartialEq, Eq, Structural)]
pub struct LineMetrics {
    pub position: i16,
    pub thickness: i16,
}

/// The raw typographic values of a parsed face, in font units. An absent
/// table is `None`.
#[derive(Clone, Copy, Debug, PartialEq, Eq, Structural)]
pub struct FaceTables {
    pub units_per_em: u16,
    pub ascender: i16,
    pub descender: i16,
    pub x_height: Option<i16>,
    pub underline: Option<LineMetrics>,
    pub strikeout: Option<LineMetrics>,
    pub subscript_offset: Option<i16>,
    pub superscript_offset: Option<i16>,
}

/// The tables that the font parser reads from a face of a font file, or
/// `None` where the file does not parse.
pub uninterp spec fn face_tables_of(data: Seq<u8>, index: u32) -> Option<FaceTables>;

/// The glyph that a face of a font file maps a character to, or `None`
/// where the file does not parse or the face has no such glyph.
pub uninterp spec fn glyph_of(data: Seq<u8>, index: u32, c: char) -> Option<u16>;

/// Relies on `ttf_parser::Face::parse` and its accessors `units_per_em`,
/// `ascender`, `descender`, `x_height`, `underline_metrics`,
/// `strikeout_metrics`, `subscript_metrics` and `superscript_metrics`: the
/// values depend on the bytes and the face index alone.
#[verifier::external_body]
pub(crate) fn read_face_tables(data: &[u8], index: u32) -> (r: Option<FaceTables>)
    ensures
        r == face_tables_of(data@, index),
{
    let f = rustybuzz::ttf_parser::Face::parse(data, index).ok()?;
    let line = |m: rustybuzz::ttf_parser::LineMetrics| LineMetrics { position: m.position, thickness: m.thickness };
    Some(FaceTables {
        units_per_em: f.units_per_em(),
        ascender: f.ascender(),
        descender: f.descender(),
        x_height: f.x_height(),
        underline: f.underline_metrics().map(line),
        strikeout: f.strikeout_metrics().map(line),
        subscript_offset: f.subscript_metrics().map(|m| m.y_offset),
        superscript_offset: f.superscript_metrics().map(|m| m.y_offset),
    })
}

/// Relies on `ttf_parser::Face::parse` and `Face::glyph_index`: the glyph
/// depends on the bytes, the face index and the character alone.
#[verifier::external_body]
pub(crate) fn face_glyph(data: &[u8], index: u32, c: char) -> (r: Option<u16>)
    ensures
        r == glyph_of(data@, index, c),
{
    rustybuzz::ttf_parser::Face::parse(data, index).ok()?.glyph_index(c).map(|g| g.0)
}

} // verus!

use vstd::prelude::*;

use crate::face::{FaceId, FontProvider};
use crate::tables::{face_tables_of, read_face_tables, FaceTables};

verus! {

/// The metrics of a face, ready for layout. All values are in font units.
///
/// `units_per_em`, `x_height` and `underline_thickness` are never zero.
#[derive(Clone, Copy, Debug, PartialEq, Eq, Structural)]
pub struct ResolvedFont {
    pub id: FaceId,
    pub units_per_em: u16,
    pub ascent: i16,
    pub descent: i16,
    pub x_height: u16,
    pub underline_position: i16,
    pub underline_thickness: u16,
    pub line_through_position: i16,
    pub subscript_offset: i16,
    pub superscript_offset: i16,
}

/// The divisors that give the subscript and superscript offsets of a face
/// that has no tables for them: the offset is units-per-em divided by the
/// divisor, and each divisor is counted in hundredths of an em.
///
/// The customary divisors (0.2 em and 0.4 em) give offsets several times
/// larger than an em, which is hard to square with their being small
/// generic offsets; they are kept as they are, and a caller may pick others.
#[derive(Clone, Copy, Debug)]
pub struct ScriptOffsets {
    subscript_divisor: u16,
    superscript_divisor: u16,
}

/// Divisor of the subscript fallback, in hundredths of an em.
pub const CUSTOMARY_SUBSCRIPT_DIVISOR: u16 = 20;

/// Divisor of the superscript fallback, in hundredths of an em.
pub const CUSTOMARY_SUPERSCRIPT_DIVISOR: u16 = 40;

impl ScriptOffsets {
    #[verifier::type_invariant]
    spec fn inv(self) -> bool {
        self.subscript_divisor > 0 && self.superscript_divisor > 0
    }

    pub closed spec fn subscript_divisor_spec(self) -> u16 {
        self.subscript_divisor
    }

    pub closed spec fn superscript_divisor_spec(self) -> u16 {
        self.superscript_divisor
    }

    /// Divisors of one's own choosing; `None` if either is zero.
    pub fn new(subscript_divisor: u16, superscript_divisor: u16) -> (r: Option<ScriptOffsets>)
        ensures
            r is Some <==> subscript_divisor > 0 && superscript_divisor > 0,
            r matches Some(o) ==> o.subscript_divisor_spec() == subscript_divisor
                && o.superscript_divisor_spec() == superscript_divisor,
    {
        if subscript_divisor > 0 && superscript_divisor > 0 {
            Some(ScriptOffsets { subscript_divisor, superscript_divisor })
        } else {
            None
        }
    }

    /// The customary divisors.
    pub fn customary() -> (r: ScriptOffsets)
        ensures
            r.subscript_divisor_spec() == CUSTOMARY_SUBSCRIPT_DIVISOR,
            r.superscript_divisor_spec() == CUSTOMARY_SUPERSCRIPT_DIVISOR,
    {
        ScriptOffsets {
            subscript_divisor: CUSTOMARY_SUBSCRIPT_DIVISOR,
            superscript_divisor: CUSTOMARY_SUPERSCRIPT_DIVISOR,
        }
    }

    pub fn subscript_divisor(&self) -> (r: u16)
        ensures
            r == self.subscript_divisor_spec(),
            r > 0,
    {
        proof { use_type_invariant(self); }
        self.subscript_divisor
    }

    pub fn superscript_divisor(&self) -> (r: u16)
        ensures
            r == self.superscript_divisor_spec(),
            r > 0,
    {
        proof { use_type_invariant(self); }
        self.superscript_divisor
    }
}

/// `n / d` rounded to the nearest integer, halves away from zero.
pub open spec fn round_div(n: int, d: int) -> int
    recommends
        d > 0,
{
    if n >= 0 {
        (2 * n + d) / (2 * d)
    } else {
        -((2 * -n + d) / (2 * d))
    }
}

/// The x-height of a face without a usable x-height table: 45% of the
/// distance from descender to ascender, rounded.
pub open spec fn fallback_x_height(ascent: int, descent: int) -> int {
    round_div(9 * (ascent - descent), 20)
}

/// The x-height that a face resolves to, before the check that it is
/// positive.
pub open spec fn x_height_of(t: FaceTables) -> int {
    match t.x_height {
        Some(x) if x > 0 => x as int,
        _ => fallback_x_height(t.ascender as int, t.descender as int),
    }
}

/// The underline thickness of a face that has none of its own.
pub open spec fn default_thickness(units_per_em: int) -> int {
    units_per_em / 12
}

pub open spec fn underline_thickness_of(t: FaceTables) -> int {
    match t.underline {
        Some(m) if m.thickness > 0 => m.thickness as int,
        _ => default_thickness(t.units_per_em as int),
    }
}

pub open spec fn underline_position_of(t: FaceTables) -> int {
    match t.underline {
        Some(m) => m.position as int,
        None => -(t.units_per_em as int / 9),
    }
}

pub open spec fn line_through_position_of(t: FaceTables) -> int {
    match t.strikeout {
        Some(m) => m.position as int,
        None => x_height_of(t) / 2,
    }
}

/// A script offset derived from units-per-em: `units_per_em / (divisor / 100)`,
/// rounded, and capped at the largest value a font unit can hold.
pub open spec fn script_fallback(units_per_em: int, divisor: int) -> int {
    let v = round_div(units_per_em * 100, divisor);
    if v > i16::MAX { i16::MAX as int } else { v }
}

pub open spec fn subscript_offset_of(t: FaceTables, o: ScriptOffsets) -> int {
    match t.subscript_offset {
        Some(y) => y as int,
        None => script_fallback(t.units_per_em as int, o.subscript_divisor_spec() as int),
    }
}

pub open spec fn superscript_offset_of(t: FaceTables, o: ScriptOffsets) -> int {
    match t.superscript_offset {
        Some(y) => y as int,
        None => script_fallback(t.units_per_em as int, o.superscript_divisor_spec() as int),
    }
}

/// Whether a face's tables give metrics that can all be represented: a
/// non-zero units-per-em, and a positive x-height and underline thickness.
pub open spec fn resolvable(t: FaceTables) -> bool {
    &&& t.units_per_em > 0
    &&& x_height_of(t) > 0
    &&& underline_thickness_of(t) > 0
}

/// The metrics that a resolvable face's tables give.
pub open spec fn resolved_from(id: FaceId, t: FaceTables, o: ScriptOffsets) -> ResolvedFont {
    ResolvedFont {
        id,
        units_per_em: t.units_per_em,
        ascent: t.ascender,
        descent: t.descender,
        x_height: x_height_of(t) as u16,
        underline_position: underline_position_of(t) as i16,
        underline_thickness: underline_thickness_of(t) as u16,
        line_through_position: line_through_position_of(t) as i16,
        subscript_offset: subscript_offset_of(t, o) as i16,
        superscript_offset: superscript_offset_of(t, o) as i16,
    }
}

/// What a face's tables resolve to: all metrics, or nothing.
pub open spec fn resolution(id: FaceId, t: FaceTables, o: ScriptOffsets) -> Option<ResolvedFont> {
    if resolvable(t) {
        Some(resolved_from(id, t, o))
    } else {
        None
    }
}

fn script_offset(units_per_em: u16, table: Option<i16>, divisor: u16) -> (r: i16)
    requires
        divisor > 0,
    ensures
        r == match table {
            Some(y) => y as int,
            None => script_fallback(units_per_em as int, divisor as int),
        },
{
    match table {
        Some(y) => y,
        None => {
            let n: u32 = units_per_em as u32 * 100;
            let v: u32 = (2 * n + divisor as u32) / (2 * divisor as u32);
            if v > i16::MAX as u32 {
                i16::MAX
            } else {
                v as i16
            }
        },
    }
}

/// Resolves the metrics of face `id` from its raw tables, falling back to
/// fixed heuristics for each absent table. Returns `None` when a metric that
/// must be positive (units-per-em, x-height, underline thickness) is not.
pub fn resolve_tables(id: FaceId, t: &FaceTables, offsets: ScriptOffsets) -> (r: Option<ResolvedFont>)
    ensures
        r == resolution(id, *t, offsets),
        r matches Some(f) ==> f.units_per_em > 0 && f.x_height > 0 && f.underline_thickness > 0,
        r matches Some(f) ==> (t.underline matches Some(m) && m.thickness <= 0)
            ==> f.underline_thickness == t.units_per_em / 12,
        r matches Some(f) ==> t.underline is None ==> f.underline_position == -(t.units_per_em / 9)
            && f.underline_thickness == t.units_per_em / 12,
        r matches Some(f) ==> t.x_height is None ==> f.x_height == fallback_x_height(
            t.ascender as int,
            t.descender as int,
        ),
        r matches Some(f) ==> t.strikeout is None ==> f.line_through_position == f.x_height / 2,
{
    if t.units_per_em == 0 {
        return None;
    }
    let upem = t.units_per_em;
    let x_height: u16 = match t.x_height {
        Some(x) if x > 0 => x as u16,
        _ => {
            // 45% of the face's height, as browsers do.
            let h: i32 = t.ascender as i32 - t.descender as i32;
            if h <= 0 {
                assert(fallback_x_height(t.ascender as int, t.descender as int) <= 0) by (nonlinear_arith)
                    requires h <= 0, h == t.ascender as int - t.descender as int;
                return None;
            }
            let v: i32 = (18 * h + 20) / 40;
            assert(v == fallback_x_height(t.ascender as int, t.descender as int)) by (nonlinear_arith)
                requires h > 0, h == t.ascender as int - t.descender as int, v == (18 * h + 20) / 40;
            if v == 0 {
                return None;
            }
            v as u16
        },
    };
    let line_through_position: i16 = match t.strikeout {
        Some(m) => m.position,
        None => (x_height / 2) as i16,
    };
    let (underline_position, underline_thickness) = match t.underline {
        Some(m) => {
            let thickness: u16 = if m.thickness > 0 { m.thickness as u16 } else { upem / 12 };
            (m.position, thickness)
        },
        None => (-((upem / 9) as i16), upem / 12),
    };
    if underline_thickness == 0 {
        return None;
    }
    let subscript_offset = script_offset(upem, t.subscript_offset, offsets.subscript_divisor());
    let superscript_offset = script_offset(upem, t.superscript_offset, offsets.superscript_divisor());
    Some(ResolvedFont {
        id,
        units_per_em: upem,
        ascent: t.ascender,
        descent: t.descender,
        x_height,
        underline_position,
        underline_thickness,
        line_through_position,
        subscript_offset,
        superscript_offset,
    })
}

/// Resolves the metrics of face `id` from the bytes of its font file and
/// its index within that file. Returns `None` when the bytes do not parse
/// or the tables do not resolve.
pub fn resolve_face_data(id: FaceId, data: &[u8], index: u32, offsets: ScriptOffsets) -> (r: Option<ResolvedFont>)
    ensures
        r == match face_tables_of(data@, index) {
            Some(t) => resolution(id, t, offsets),
            None => None,
        },
        r matches Some(f) ==> f.id == id && f.units_per_em > 0 && f.x_height > 0 && f.underline_thickness > 0,
{
    let t = read_face_tables(data, index)?;
    resolve_tables(id, &t, offsets)
}

/// What the metrics of a face of the catalog resolve to, from the catalog's
/// bytes for it.
pub open spec fn catalog_resolution<P: FontProvider>(provider: &P, id: FaceId, offsets: ScriptOffsets) -> Option<ResolvedFont> {
    match provider.face_bytes(id) {
        Some((data, index)) => match face_tables_of(data, index) {
            Some(t) => resolution(id, t, offsets),
            None => None,
        },
        None => None,
    }
}

/// Loads face `id` from the catalog and resolves its metrics. Returns `None`
/// when the catalog has no bytes for it, when they do not parse, or when the
/// tables do not resolve.
pub fn load_font<P: FontProvider>(provider: &P, id: FaceId, offsets: ScriptOffsets) -> (r: Option<ResolvedFont>)
    ensures
        r == catalog_resolution(provider, id, offsets),
        r matches Some(f) ==> f.id == id && f.units_per_em > 0 && f.x_height > 0 && f.underline_thickness > 0,
{
    let (data, index) = provider.face_data(id)?;
    resolve_face_data(id, data, index, offsets)
}

} // verus!

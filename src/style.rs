use vstd::prelude::*;

verus! {

/// One entry of a requested font-family list.
#[derive(Clone, Debug)]
pub enum FontFamily {
    Serif,
    SansSerif,
    Cursive,
    Fantasy,
    Monospace,
    Named(String),
}

/// The width class of a face, from narrowest to widest.
#[derive(Clone, Copy, Debug, PartialEq, Eq, Structural)]
pub enum FontStretch {
    UltraCondensed,
    ExtraCondensed,
    Condensed,
    SemiCondensed,
    Normal,
    SemiExpanded,
    Expanded,
    ExtraExpanded,
    UltraExpanded,
}

/// The slant class of a face.
#[derive(Clone, Copy, Debug, PartialEq, Eq, Structural)]
pub enum FontStyle {
    Normal,
    Italic,
    Oblique,
}

/// The style that a text run asks for.
#[derive(Clone, Debug)]
pub struct Font {
    pub families: Vec<FontFamily>,
    pub weight: u16,
    pub stretch: FontStretch,
    pub style: FontStyle,
}

/// A family token as the font catalog understands it.
#[derive(Clone, Debug)]
pub enum Family {
    Name(String),
    Serif,
    SansSerif,
    Cursive,
    Fantasy,
    Monospace,
}

/// A complete query for the font catalog: families in order of preference,
/// then the weight, stretch and style to match as closely as possible.
#[derive(Clone, Debug)]
pub struct FontQuery {
    pub families: Vec<Family>,
    pub weight: u16,
    pub stretch: FontStretch,
    pub style: FontStyle,
}

/// The catalog token that stands for a requested family.
pub open spec fn family_token(f: FontFamily) -> Family {
    match f {
        FontFamily::Serif => Family::Serif,
        FontFamily::SansSerif => Family::SansSerif,
        FontFamily::Cursive => Family::Cursive,
        FontFamily::Fantasy => Family::Fantasy,
        FontFamily::Monospace => Family::Monospace,
        FontFamily::Named(s) => Family::Name(s),
    }
}

/// The catalog family list for a request: each requested family in order,
/// then the generic serif family as a last resort.
pub open spec fn query_families(families: Seq<FontFamily>) -> Seq<Family> {
    families.map_values(|f: FontFamily| family_token(f)).push(Family::Serif)
}

} // verus!

//! Font face selection and typographic metric resolution for SVG text.
//!
//! A text run asks for a face by style (families, weight, stretch, style);
//! the selector turns that request into a catalog query, and searches the
//! catalog for a substitute face when a glyph is missing. The resolver turns
//! a face's raw tables into a complete set of layout metrics, filling in
//! absent tables with fixed heuristics.

pub mod face;
pub mod metrics;
pub mod select;
pub mod style;
pub mod tables;

pub use face::{FaceId, FaceInfo, FamilyName, FontProvider};
pub use metrics::{load_font, resolve_face_data, resolve_tables, ResolvedFont, ScriptOffsets};
pub use select::{build_query, face_covers, find_fallback_font, find_font, first_fallback, is_fallback_candidate,
    preferred_family_name, convert};
pub use style::{Family, Font, FontFamily, FontQuery, FontStretch, FontStyle};
pub use tables::{FaceTables, LineMetrics};

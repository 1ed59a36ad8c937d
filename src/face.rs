use vstd::prelude::*;

use crate::style::{Family, FontQuery, FontStretch, FontStyle};

verus! {

/// A handle to a face in a font catalog. It means nothing outside the
/// catalog that issued it.
#[derive(Clone, Copy, Debug, PartialEq, Eq, Hash, Structural)]
pub struct FaceId(pub u64);

/// One name of a face's family, and whether it is tagged as U.S. English.
#[derive(Clone, Debug)]
pub struct FamilyName {
    pub name: String,
    pub us_english: bool,
}

/// What a catalog knows of a face without opening it.
#[derive(Clone, Debug)]
pub struct FaceInfo {
    pub id: FaceId,
    pub families: Vec<FamilyName>,
    pub style: FontStyle,
    pub weight: u16,
    pub stretch: FontStretch,
}

/// Access to a font catalog.
///
/// The catalog is read only for as long as it is borrowed, and the bytes of
/// a face can be held no longer than that borrow. While borrowed it does not
/// change, so each method answers as a function of its arguments; the spec
/// functions name those answers.
///
/// The spec functions' default bodies are never used for a generic
/// provider: they only spare implementations outside Verus from defining
/// them. An implementation checked by Verus defines all four.
pub trait FontProvider {
    /// The catalog's best match for a query.
    closed spec fn best_match(&self, families: Seq<Family>, weight: u16, stretch: FontStretch, style: FontStyle) -> Option<FaceId> {
        None
    }

    /// Every face of the catalog, in the catalog's own order.
    closed spec fn face_list(&self) -> Seq<FaceInfo> {
        Seq::empty()
    }

    /// The catalog's description of a face.
    closed spec fn description(&self, id: FaceId) -> Option<FaceInfo> {
        None
    }

    /// The bytes of the font file that holds a face, and the face's index
    /// within that file.
    closed spec fn face_bytes(&self, id: FaceId) -> Option<(Seq<u8>, u32)> {
        None
    }

    /// The face that best matches a query, by the catalog's own proximity
    /// rules: earlier families first, then the nearest weight, stretch and
    /// style.
    fn query(&self, query: &FontQuery) -> (r: Option<FaceId>)
        ensures
            r == self.best_match(query.families@, query.weight, query.stretch, query.style),
    ;

    /// Every face of the catalog, in the catalog's own stable order.
    fn faces(&self) -> (r: Vec<FaceInfo>)
        ensures
            r@ == self.face_list(),
    ;

    /// The description of one face.
    fn face(&self, id: FaceId) -> (r: Option<FaceInfo>)
        ensures
            r == self.description(id),
    ;

    /// The raw bytes of the font file that holds a face, with the face's
    /// index within that file.
    fn face_data(&self, id: FaceId) -> (r: Option<(&[u8], u32)>)
        ensures
            r matches Some((data, index)) ==> self.face_bytes(id) == Some((data@, index)),
            r is None ==> self.face_bytes(id) is None,
    ;
}

} // verus!

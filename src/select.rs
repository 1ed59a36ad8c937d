use vstd::prelude::*;

use crate::face::{FaceId, FaceInfo, FamilyName, FontProvider};
use crate::metrics::{catalog_resolution, load_font, ResolvedFont, ScriptOffsets};
use crate::style::{family_token, query_families, Family, Font, FontFamily, FontQuery};
use crate::tables::{face_glyph, glyph_of};

verus! {

/// The catalog token for one requested family.
fn lower_family(f: &FontFamily) -> (r: Family)
    ensures
        r == family_token(*f),
{
    match f {
        FontFamily::Serif => Family::Serif,
        FontFamily::SansSerif => Family::SansSerif,
        FontFamily::Cursive => Family::Cursive,
        FontFamily::Fantasy => Family::Fantasy,
        FontFamily::Monospace => Family::Monospace,
        FontFamily::Named(s) => Family::Name(s.clone()),
    }
}

/// The catalog query for a style request: the requested families in order,
/// then the generic serif family, with the request's weight, stretch and
/// style.
pub fn build_query(font: &Font) -> (r: FontQuery)
    ensures
        r.families@ == query_families(font.families@),
        r.families@.len() == font.families@.len() + 1,
        r.families@.last() == Family::Serif,
        r.weight == font.weight,
        r.stretch == font.stretch,
        r.style == font.style,
{
    let mut families: Vec<Family> = Vec::new();
    let n = font.families.len();
    for i in 0..n
        invariant
            n == font.families@.len(),
            families@ == font.families@.take(i as int).map_values(|f: FontFamily| family_token(f)),
    {
        families.push(lower_family(&font.families[i]));
        assert(font.families@.take(i + 1) == font.families@.take(i as int).push(font.families@[i as int]));
    }
    assert(font.families@.take(n as int) == font.families@);
    families.push(Family::Serif);
    FontQuery { families, weight: font.weight, stretch: font.stretch, style: font.style }
}

/// Asks the catalog for the face that best matches a style request. The
/// generic serif family always closes the list of families asked for, and
/// the catalog's answer to the query of `build_query` is returned as it is.
pub fn find_font<P: FontProvider>(provider: &P, font: &Font) -> (r: Option<FaceId>)
    ensures
        r == provider.best_match(query_families(font.families@), font.weight, font.stretch, font.style),
{
    let query = build_query(font);
    provider.query(&query)
}

fn contains_id(ids: &[FaceId], id: FaceId) -> (r: bool)
    ensures
        r == ids@.contains(id),
{
    let mut i: usize = 0;
    while i < ids.len()
        invariant
            i <= ids@.len(),
            forall|j: int| 0 <= j < i ==> ids@[j] != id,
        decreases ids@.len() - i,
    {
        if ids[i] == id {
            return true;
        }
        i = i + 1;
    }
    false
}

/// Whether a face is close enough in style to a base face to stand in for
/// it: it shares at least one of style, weight and stretch.
///
/// A face is turned down only when all three differ. This is weaker than
/// asking for the same style, and may well have been meant as "any of the
/// three differs"; it is kept as it is on purpose, since callers rely on
/// which faces it lets through.
pub open spec fn style_compatible(face: FaceInfo, base: FaceInfo) -> bool {
    !(face.style != base.style && face.weight != base.weight && face.stretch != base.stretch)
}

/// Whether a face may be tried as a fallback for a base face: it has not
/// been used yet in this run, and it is style compatible with the base.
pub open spec fn fallback_candidate(face: FaceInfo, base: FaceInfo, used: Seq<FaceId>) -> bool {
    !used.contains(face.id) && style_compatible(face, base)
}

/// Whether `face` may be tried as a fallback for `base`, given the faces
/// that were already used: it is not among them, and it does not differ
/// from `base` in all three of style, weight and stretch.
pub fn is_fallback_candidate(face: &FaceInfo, base: &FaceInfo, used: &[FaceId]) -> (r: bool)
    ensures
        r == fallback_candidate(*face, *base, used@),
{
    !contains_id(used, face.id) && shares_style(face, base)
}

fn shares_style(face: &FaceInfo, base: &FaceInfo) -> (r: bool)
    ensures
        r == style_compatible(*face, *base),
{
    !(face.style != base.style && face.weight != base.weight && face.stretch != base.stretch)
}

/// Whether the face stored in these bytes maps `c` to a glyph; `false`
/// when the bytes do not parse.
pub fn face_covers(data: &[u8], index: u32, c: char) -> (r: bool)
    ensures
        r == glyph_of(data@, index, c) is Some,
{
    face_glyph(data, index, c).is_some()
}

/// Whether face `i` of a catalog list qualifies as a fallback: it is a
/// candidate and it maps the character to a glyph.
pub open spec fn qualifies(faces: Seq<FaceInfo>, base: FaceInfo, used: Seq<FaceId>, covers: Seq<bool>, i: int) -> bool {
    fallback_candidate(faces[i], base, used) && covers[i]
}

/// Whether face `i` is the first face of the list that qualifies.
pub open spec fn first_qualifying(
    faces: Seq<FaceInfo>,
    base: FaceInfo,
    used: Seq<FaceId>,
    covers: Seq<bool>,
    i: int,
) -> bool {
    &&& 0 <= i < faces.len()
    &&& qualifies(faces, base, used, covers, i)
    &&& forall|j: int| 0 <= j < i ==> !#[trigger] qualifies(faces, base, used, covers, j)
}

/// Picks the fallback face from a catalog list: the first face, in list
/// order, that is not in `used`, is style compatible with `base`, and maps
/// the character to a glyph (`covers[i]` for face `i`). Returns `None` when
/// no face qualifies.
pub fn first_fallback(faces: &[FaceInfo], base: &FaceInfo, used: &[FaceId], covers: &[bool]) -> (r: Option<FaceId>)
    requires
        covers@.len() == faces@.len(),
    ensures
        r is None <==> forall|i: int| 0 <= i < faces@.len() ==> !#[trigger] qualifies(faces@, *base, used@, covers@, i),
        r matches Some(id) ==> exists|i: int| #[trigger] first_qualifying(faces@, *base, used@, covers@, i) && faces@[i].id == id,
{
    let mut i: usize = 0;
    while i < faces.len()
        invariant
            i <= faces@.len(),
            covers@.len() == faces@.len(),
            forall|j: int| 0 <= j < i ==> !#[trigger] qualifies(faces@, *base, used@, covers@, j),
        decreases faces@.len() - i,
    {
        if covers[i] && is_fallback_candidate(&faces[i], base, used) {
            assert(first_qualifying(faces@, *base, used@, covers@, i as int));
            return Some(faces[i].id);
        }
        i = i + 1;
    }
    None
}

/// Marking a face as used that was not chosen leaves the choice as it was.
pub proof fn lemma_unchosen_exclusion_keeps_choice(
    faces: Seq<FaceInfo>,
    base: FaceInfo,
    used: Seq<FaceId>,
    covers: Seq<bool>,
    i: int,
    other: FaceId,
)
    requires
        first_qualifying(faces, base, used, covers, i),
        faces[i].id != other,
    ensures
        first_qualifying(faces, base, used.push(other), covers, i),
{
    assert(used.push(other).contains(faces[i].id) ==> used.contains(faces[i].id)) by {
        if used.push(other).contains(faces[i].id) {
            let k = choose|k: int| 0 <= k < used.push(other).len() && used.push(other)[k] == faces[i].id;
            assert(k < used.len());
            assert(used[k] == faces[i].id);
        }
    }
    assert forall|j: int| 0 <= j < i implies !#[trigger] qualifies(faces, base, used.push(other), covers, j) by {
        assert(!qualifies(faces, base, used, covers, j));
        if !used.contains(faces[j].id) {
        } else {
            let k = choose|k: int| 0 <= k < used.len() && used[k] == faces[j].id;
            assert(used.push(other)[k] == faces[j].id);
        }
    }
}

/// Once the chosen face is marked as used, the next choice, if any, comes
/// later in the list.
pub proof fn lemma_next_choice_comes_later(
    faces: Seq<FaceInfo>,
    base: FaceInfo,
    used: Seq<FaceId>,
    covers: Seq<bool>,
    i: int,
    k: int,
)
    requires
        first_qualifying(faces, base, used, covers, i),
        first_qualifying(faces, base, used.push(faces[i].id), covers, k),
    ensures
        k > i,
{
    assert(used.push(faces[i].id)[used.len() as int] == faces[i].id);
    assert(used.push(faces[i].id).contains(faces[i].id));
    if k < i {
        assert(!qualifies(faces, base, used, covers, k));
        assert(used.contains(faces[k].id)) by {
            assert(used.push(faces[i].id).contains(faces[k].id) ==> used.contains(faces[k].id)) by {
                if !used.contains(faces[k].id) && used.push(faces[i].id).contains(faces[k].id) {
                    let m = choose|m: int| 0 <= m < used.push(faces[i].id).len() && used.push(faces[i].id)[m] == faces[k].id;
                    if m < used.len() {
                        assert(used[m] == faces[k].id);
                    }
                }
            }
        }
        let m = choose|m: int| 0 <= m < used.len() && used[m] == faces[k].id;
        assert(used.push(faces[i].id)[m] == faces[k].id);
    }
}

/// A larger used set never makes a face qualify where none did.
pub proof fn lemma_more_used_never_matches(
    faces: Seq<FaceInfo>,
    base: FaceInfo,
    used: Seq<FaceId>,
    more_used: Seq<FaceId>,
    covers: Seq<bool>,
)
    requires
        forall|id: FaceId| used.contains(id) ==> #[trigger] more_used.contains(id),
        forall|i: int| 0 <= i < faces.len() ==> !#[trigger] qualifies(faces, base, used, covers, i),
    ensures
        forall|i: int| 0 <= i < faces.len() ==> !#[trigger] qualifies(faces, base, more_used, covers, i),
{
    assert forall|i: int| 0 <= i < faces.len() implies !#[trigger] qualifies(faces, base, more_used, covers, i) by {
        assert(!qualifies(faces, base, used, covers, i));
        if used.contains(faces[i].id) {
            assert(more_used.contains(faces[i].id));
        }
    }
}

/// Whether the catalog's bytes for a face map `c` to a glyph.
pub open spec fn catalog_covers<P: FontProvider>(provider: &P, id: FaceId, c: char) -> bool {
    match provider.face_bytes(id) {
        Some((data, index)) => glyph_of(data, index, c) is Some,
        None => false,
    }
}

/// For each face of a list, whether the catalog's bytes for it map `c`.
pub open spec fn catalog_coverage<P: FontProvider>(provider: &P, faces: Seq<FaceInfo>, c: char) -> Seq<bool> {
    Seq::new(faces.len(), |i: int| catalog_covers(provider, faces[i].id, c))
}

/// Searches the catalog, in its own order, for the first face that can
/// stand in for `base_id` to draw `c`: one that is not in `used`, shares at
/// least one of style, weight and stretch with the base face, and maps `c`
/// to a glyph. Returns `None` when there is none, or when the catalog does
/// not know the base face.
///
/// Only candidates are opened, and none after the first that maps `c`; the
/// choice among them is made by `first_fallback`.
pub fn find_fallback_font<P: FontProvider>(provider: &P, c: char, base_id: FaceId, used: &[FaceId]) -> (r: Option<FaceId>)
    ensures
        provider.description(base_id) is None ==> r is None,
        provider.description(base_id) matches Some(base) ==> {
            let faces = provider.face_list();
            let cov = catalog_coverage(provider, faces, c);
            &&& (r is None <==> forall|i: int| 0 <= i < faces.len() ==> !#[trigger] qualifies(faces, base, used@, cov, i))
            &&& (r matches Some(id) ==> exists|i: int| #[trigger] first_qualifying(faces, base, used@, cov, i) && faces[i].id == id)
        },
        r matches Some(id) ==> !used@.contains(id),
        r matches Some(id) ==> catalog_covers(provider, id, c),
        r matches Some(id) ==> exists|i: int| 0 <= i < provider.face_list().len() && provider.face_list()[i].id == id
            && #[trigger] style_compatible(provider.face_list()[i], provider.description(base_id)->0),
{
    let faces = provider.faces();
    let base = provider.face(base_id)?;
    let ghost cov = catalog_coverage(provider, faces@, c);
    let mut covers: Vec<bool> = Vec::new();
    let mut found = false;
    let n = faces.len();
    for i in 0..n
        invariant
            n == faces@.len(),
            cov == catalog_coverage(provider, faces@, c),
            covers@.len() == i,
            forall|j: int| 0 <= j < i ==> covers@[j] ==> cov[j],
            found == exists|j: int| 0 <= j < i && #[trigger] qualifies(faces@, base, used@, covers@, j),
            !found ==> forall|j: int| 0 <= j < i ==> !#[trigger] qualifies(faces@, base, used@, cov, j),
            found ==> exists|k: int| 0 <= k < i && #[trigger] qualifies(faces@, base, used@, covers@, k)
                && forall|m: int| 0 <= m < k ==> !#[trigger] qualifies(faces@, base, used@, cov, m),
    {
        let ghost old_covers = covers@;
        let ghost was_found = found;
        let mut has_char = false;
        if !found && is_fallback_candidate(&faces[i], &base, used) {
            has_char = match provider.face_data(faces[i].id) {
                Some((data, index)) => face_covers(data, index, c),
                None => false,
            };
            found = has_char;
        }
        covers.push(has_char);
        proof {
            assert(covers@ == old_covers.push(has_char));
            assert forall|j: int| 0 <= j < i implies #[trigger] qualifies(faces@, base, used@, covers@, j)
                == qualifies(faces@, base, used@, old_covers, j) by {
                assert(covers@[j] == old_covers[j]);
            }
            assert(has_char ==> cov[i as int]);
            assert(covers@[i as int] == has_char);
            if was_found {
                let k = choose|k: int| 0 <= k < i && #[trigger] qualifies(faces@, base, used@, old_covers, k)
                    && forall|m: int| 0 <= m < k ==> !#[trigger] qualifies(faces@, base, used@, cov, m);
                assert(qualifies(faces@, base, used@, covers@, k));
            } else if has_char {
                assert(fallback_candidate(faces@[i as int], base, used@));
                assert(qualifies(faces@, base, used@, covers@, i as int));
            } else {
                assert(!qualifies(faces@, base, used@, covers@, i as int));
                assert forall|j: int| 0 <= j < i + 1 implies !#[trigger] qualifies(faces@, base, used@, covers@, j) by {
                    if j < i {
                        assert(!qualifies(faces@, base, used@, old_covers, j));
                    }
                }
            }
            assert(qualifies(faces@, base, used@, cov, i as int) && !was_found ==> has_char) by {
                if qualifies(faces@, base, used@, cov, i as int) && !was_found {
                    assert(fallback_candidate(faces@[i as int], base, used@));
                }
            }
        }
    }
    let r = first_fallback(faces.as_slice(), &base, used, covers.as_slice());
    proof {
        assert(covers@.len() == faces@.len());
        if let Some(id) = r {
            let i = choose|i: int| #[trigger] first_qualifying(faces@, base, used@, covers@, i) && faces@[i].id == id;
            assert(found);
            let k = choose|k: int| 0 <= k < n && #[trigger] qualifies(faces@, base, used@, covers@, k)
                && forall|m: int| 0 <= m < k ==> !#[trigger] qualifies(faces@, base, used@, cov, m);
            if k < i {
                assert(!qualifies(faces@, base, used@, covers@, k));
            }
            assert(qualifies(faces@, base, used@, cov, i));
            assert(first_qualifying(faces@, base, used@, cov, i));
            assert(cov[i] == catalog_covers(provider, faces@[i].id, c));
            assert(style_compatible(faces@[i], base));
        } else {
            assert forall|j: int| 0 <= j < faces@.len() implies !#[trigger] qualifies(faces@, base, used@, cov, j) by {
                assert(!qualifies(faces@, base, used@, covers@, j));
                if !found {
                } else {
                    let k = choose|k: int| 0 <= k < n && #[trigger] qualifies(faces@, base, used@, covers@, k)
                        && forall|m: int| 0 <= m < k ==> !#[trigger] qualifies(faces@, base, used@, cov, m);
                    assert(!qualifies(faces@, base, used@, covers@, k));
                }
            }
        }
    }
    r
}

/// Whether the name at `i` is the first one tagged as U.S. English.
pub open spec fn first_us_english(names: Seq<FamilyName>, i: int) -> bool {
    0 <= i < names.len() && names[i].us_english && forall|j: int| 0 <= j < i ==> !(#[trigger] names[j]).us_english
}

/// The name to show for a face: its first family name tagged as U.S.
/// English, or else its first family name; `None` if it has no names.
pub fn preferred_family_name(face: &FaceInfo) -> (r: Option<String>)
    ensures
        face.families@.len() == 0 ==> r is None,
        forall|i: int| first_us_english(face.families@, i) ==> r == Some(face.families@[i].name),
        (forall|i: int| 0 <= i < face.families@.len() ==> !(#[trigger] face.families@[i]).us_english)
            && face.families@.len() > 0 ==> r == Some(face.families@[0].name),
{
    let names = &face.families;
    let mut i: usize = 0;
    while i < names.len()
        invariant
            names@ == face.families@,
            i <= names@.len(),
            forall|j: int| 0 <= j < i ==> !(#[trigger] names@[j]).us_english,
        decreases names@.len() - i,
    {
        if names[i].us_english {
            assert(first_us_english(names@, i as int));
            assert forall|k: int| first_us_english(names@, k) implies k == i by {
                if k < i {
                    assert(!names@[k].us_english);
                } else if k > i {
                    assert(!names@[i as int].us_english);
                }
            }
            return Some(names[i].name.clone());
        }
        i = i + 1;
    }
    if names.len() > 0 {
        Some(names[0].name.clone())
    } else {
        None
    }
}

/// Converts a style request into the resolved metrics of the face that
/// best matches it: `find_font`, then `load_font`.
pub fn convert<P: FontProvider>(provider: &P, font: &Font, offsets: ScriptOffsets) -> (r: Option<ResolvedFont>)
    ensures
        r == match provider.best_match(query_families(font.families@), font.weight, font.stretch, font.style) {
            Some(id) => catalog_resolution(provider, id, offsets),
            None => None,
        },
        r matches Some(f) ==> f.units_per_em > 0 && f.x_height > 0 && f.underline_thickness > 0,
{
    let id = find_font(provider, font)?;
    load_font(provider, id, offsets)
}

} // verus!


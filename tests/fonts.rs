use usvg_fonts::{
    build_query, face_covers, find_fallback_font, find_font, first_fallback, is_fallback_candidate, load_font,
    preferred_family_name, resolve_face_data, convert, FaceId, FaceInfo, Family, FamilyName, Font, FontFamily,
    FontProvider, FontQuery, FontStretch, FontStyle, ScriptOffsets,
};

fn be16(out: &mut Vec<u8>, v: u16) {
    out.extend_from_slice(&v.to_be_bytes());
}

fn be32(out: &mut Vec<u8>, v: u32) {
    out.extend_from_slice(&v.to_be_bytes());
}

/// A minimal TrueType file: `head`, `hhea`, `maxp`, a format 12 `cmap`
/// that maps each of `chars` to glyph 1, and a `post` table when an
/// underline is given.
fn font_file(units_per_em: u16, ascender: i16, descender: i16, chars: &[char], underline: Option<(i16, i16)>) -> Vec<u8> {
    let mut head = vec![0u8; 54];
    head[0..4].copy_from_slice(&0x0001_0000u32.to_be_bytes());
    head[18..20].copy_from_slice(&units_per_em.to_be_bytes());

    let mut hhea = vec![0u8; 36];
    hhea[0..4].copy_from_slice(&0x0001_0000u32.to_be_bytes());
    hhea[4..6].copy_from_slice(&ascender.to_be_bytes());
    hhea[6..8].copy_from_slice(&descender.to_be_bytes());
    hhea[34..36].copy_from_slice(&1u16.to_be_bytes());

    let mut maxp = Vec::new();
    be32(&mut maxp, 0x0000_5000);
    be16(&mut maxp, 2);

    let mut cmap = Vec::new();
    be16(&mut cmap, 0);
    be16(&mut cmap, 1);
    be16(&mut cmap, 0);
    be16(&mut cmap, 4);
    be32(&mut cmap, 12);
    let mut codes: Vec<u32> = chars.iter().map(|c| *c as u32).collect();
    codes.sort();
    be16(&mut cmap, 12);
    be16(&mut cmap, 0);
    be32(&mut cmap, 16 + 12 * codes.len() as u32);
    be32(&mut cmap, 0);
    be32(&mut cmap, codes.len() as u32);
    for c in &codes {
        be32(&mut cmap, *c);
        be32(&mut cmap, *c);
        be32(&mut cmap, 1);
    }

    let mut tables: Vec<(&[u8; 4], Vec<u8>)> = vec![(b"cmap", cmap), (b"head", head), (b"hhea", hhea), (b"maxp", maxp)];
    if let Some((position, thickness)) = underline {
        let mut post = vec![0u8; 32];
        post[0..4].copy_from_slice(&0x0003_0000u32.to_be_bytes());
        post[8..10].copy_from_slice(&position.to_be_bytes());
        post[10..12].copy_from_slice(&thickness.to_be_bytes());
        tables.push((b"post", post));
    }

    let mut out = Vec::new();
    be32(&mut out, 0x0001_0000);
    be16(&mut out, tables.len() as u16);
    be16(&mut out, 0);
    be16(&mut out, 0);
    be16(&mut out, 0);
    let mut offset = 12 + 16 * tables.len() as u32;
    for (tag, data) in &tables {
        out.extend_from_slice(&tag[..]);
        be32(&mut out, 0);
        be32(&mut out, offset);
        be32(&mut out, data.len() as u32);
        offset += data.len() as u32;
    }
    for (_, data) in &tables {
        out.extend_from_slice(data);
    }
    out
}

struct Catalog {
    faces: Vec<(FaceInfo, Vec<u8>)>,
}

fn info(id: u64, name: &str, style: FontStyle, weight: u16, stretch: FontStretch) -> FaceInfo {
    FaceInfo {
        id: FaceId(id),
        families: vec![FamilyName { name: name.to_string(), us_english: true }],
        style,
        weight,
        stretch,
    }
}

impl FontProvider for Catalog {
    fn query(&self, query: &FontQuery) -> Option<FaceId> {
        for family in &query.families {
            let wanted = match family {
                Family::Name(name) => name.as_str(),
                Family::Serif => "Serif",
                Family::SansSerif => "Sans",
                Family::Cursive => "Cursive",
                Family::Fantasy => "Fantasy",
                Family::Monospace => "Mono",
            };
            for (face, _) in &self.faces {
                if face.families.iter().any(|f| f.name == wanted) {
                    return Some(face.id);
                }
            }
        }
        None
    }

    fn faces(&self) -> Vec<FaceInfo> {
        self.faces.iter().map(|(f, _)| f.clone()).collect()
    }

    fn face(&self, id: FaceId) -> Option<FaceInfo> {
        self.faces.iter().find(|(f, _)| f.id == id).map(|(f, _)| f.clone())
    }

    fn face_data(&self, id: FaceId) -> Option<(&[u8], u32)> {
        self.faces.iter().find(|(f, _)| f.id == id).map(|(_, d)| (d.as_slice(), 0))
    }
}

fn request(families: Vec<FontFamily>) -> Font {
    Font { families, weight: 400, stretch: FontStretch::Normal, style: FontStyle::Normal }
}

#[test]
fn query_lists_families_then_serif() {
    let font = Font {
        families: vec![FontFamily::Named("Arial".to_string()), FontFamily::Monospace, FontFamily::Cursive],
        weight: 700,
        stretch: FontStretch::Condensed,
        style: FontStyle::Italic,
    };
    let q = build_query(&font);
    assert_eq!(q.families.len(), 4);
    assert!(matches!(&q.families[0], Family::Name(n) if n == "Arial"));
    assert!(matches!(q.families[1], Family::Monospace));
    assert!(matches!(q.families[2], Family::Cursive));
    assert!(matches!(q.families[3], Family::Serif));
    assert_eq!(q.weight, 700);
    assert_eq!(q.stretch, FontStretch::Condensed);
    assert_eq!(q.style, FontStyle::Italic);
}

#[test]
fn query_of_empty_request_is_serif() {
    let q = build_query(&request(vec![]));
    assert_eq!(q.families.len(), 1);
    assert!(matches!(q.families[0], Family::Serif));
    let q = build_query(&request(vec![FontFamily::Serif, FontFamily::SansSerif, FontFamily::Fantasy]));
    assert_eq!(q.families.len(), 4);
    assert!(matches!(q.families[3], Family::Serif));
}

#[test]
fn primary_match_falls_through_to_serif() {
    let catalog = Catalog {
        faces: vec![(info(3, "Serif", FontStyle::Normal, 400, FontStretch::Normal), font_file(1000, 800, -200, &['a'], None))],
    };
    let font = request(vec![FontFamily::Named("Arial".to_string()), FontFamily::SansSerif]);
    assert_eq!(find_font(&catalog, &font), Some(FaceId(3)));
}

#[test]
fn primary_match_in_empty_catalog_is_none() {
    let catalog = Catalog { faces: vec![] };
    assert_eq!(find_font(&catalog, &request(vec![FontFamily::SansSerif])), None);
}

fn fallback_catalog() -> Catalog {
    Catalog {
        faces: vec![
            (info(1, "Base", FontStyle::Normal, 400, FontStretch::Normal), font_file(1000, 800, -200, &['a'], None)),
            (info(2, "A", FontStyle::Normal, 400, FontStretch::Normal), font_file(1000, 800, -200, &['a', 'é'], None)),
            (info(3, "B", FontStyle::Italic, 400, FontStretch::Condensed), font_file(1000, 800, -200, &['é'], None)),
        ],
    }
}

#[test]
fn fallback_skips_used_face_and_accepts_weight_match() {
    let catalog = fallback_catalog();
    assert_eq!(find_fallback_font(&catalog, 'é', FaceId(1), &[FaceId(1), FaceId(2)]), Some(FaceId(3)));
    assert_eq!(find_fallback_font(&catalog, 'é', FaceId(1), &[FaceId(1)]), Some(FaceId(2)));
}

#[test]
fn fallback_rejects_face_differing_in_all_three() {
    let catalog = Catalog {
        faces: vec![
            (info(1, "Base", FontStyle::Normal, 400, FontStretch::Normal), font_file(1000, 800, -200, &['a'], None)),
            (info(2, "Other", FontStyle::Oblique, 700, FontStretch::Expanded), font_file(1000, 800, -200, &['é'], None)),
        ],
    };
    assert_eq!(find_fallback_font(&catalog, 'é', FaceId(1), &[FaceId(1)]), None);
}

#[test]
fn fallback_needs_a_glyph() {
    let catalog = fallback_catalog();
    assert_eq!(find_fallback_font(&catalog, 'z', FaceId(1), &[]), None);
    assert_eq!(find_fallback_font(&catalog, 'a', FaceId(1), &[FaceId(1)]), Some(FaceId(2)));
}

#[test]
fn fallback_skips_unparsable_face() {
    let catalog = Catalog {
        faces: vec![
            (info(1, "Base", FontStyle::Normal, 400, FontStretch::Normal), font_file(1000, 800, -200, &['a'], None)),
            (info(2, "Broken", FontStyle::Normal, 400, FontStretch::Normal), vec![1, 2, 3, 4]),
            (info(3, "Good", FontStyle::Normal, 400, FontStretch::Normal), font_file(1000, 800, -200, &['é'], None)),
        ],
    };
    assert_eq!(find_fallback_font(&catalog, 'é', FaceId(1), &[]), Some(FaceId(3)));
}

#[test]
fn fallback_never_returns_used_face() {
    let catalog = fallback_catalog();
    assert_eq!(find_fallback_font(&catalog, 'é', FaceId(1), &[FaceId(1), FaceId(2), FaceId(3)]), None);
}

#[test]
fn fallback_with_unknown_base_is_none() {
    let catalog = fallback_catalog();
    assert_eq!(find_fallback_font(&catalog, 'é', FaceId(9), &[]), None);
}

#[test]
fn candidate_policy() {
    let base = info(1, "Base", FontStyle::Normal, 400, FontStretch::Normal);
    let weight_only = info(2, "W", FontStyle::Italic, 400, FontStretch::Condensed);
    let style_only = info(3, "S", FontStyle::Normal, 700, FontStretch::Condensed);
    let stretch_only = info(4, "T", FontStyle::Italic, 700, FontStretch::Normal);
    let none = info(5, "N", FontStyle::Italic, 700, FontStretch::Condensed);
    assert!(is_fallback_candidate(&weight_only, &base, &[]));
    assert!(is_fallback_candidate(&style_only, &base, &[]));
    assert!(is_fallback_candidate(&stretch_only, &base, &[]));
    assert!(!is_fallback_candidate(&none, &base, &[]));
    assert!(!is_fallback_candidate(&weight_only, &base, &[FaceId(2)]));
}

#[test]
fn preferred_name_is_us_english_then_first() {
    let mut face = info(1, "Base", FontStyle::Normal, 400, FontStretch::Normal);
    face.families = vec![
        FamilyName { name: "Schrift".to_string(), us_english: false },
        FamilyName { name: "Script".to_string(), us_english: true },
        FamilyName { name: "Script 2".to_string(), us_english: true },
    ];
    assert_eq!(preferred_family_name(&face), Some("Script".to_string()));
    face.families[1].us_english = false;
    face.families[2].us_english = false;
    assert_eq!(preferred_family_name(&face), Some("Schrift".to_string()));
    face.families.clear();
    assert_eq!(preferred_family_name(&face), None);
}

#[test]
fn load_font_reads_the_face_tables() {
    let catalog = Catalog {
        faces: vec![(info(4, "Serif", FontStyle::Normal, 400, FontStretch::Normal), font_file(1000, 800, -200, &['a'], Some((-100, 50))))],
    };
    let f = load_font(&catalog, FaceId(4), ScriptOffsets::customary()).unwrap();
    assert_eq!(f.id, FaceId(4));
    assert_eq!(f.units_per_em, 1000);
    assert_eq!(f.ascent, 800);
    assert_eq!(f.descent, -200);
    assert_eq!(f.x_height, 450);
    assert_eq!(f.line_through_position, 225);
    assert_eq!(f.underline_position, -100);
    assert_eq!(f.underline_thickness, 50);
    assert_eq!(f.subscript_offset, 5000);
    assert_eq!(f.superscript_offset, 2500);
}

#[test]
fn load_font_replaces_zero_underline_thickness() {
    let catalog = Catalog {
        faces: vec![(info(4, "Serif", FontStyle::Normal, 400, FontStretch::Normal), font_file(2048, 1638, -410, &['a'], Some((-150, 0))))],
    };
    let f = load_font(&catalog, FaceId(4), ScriptOffsets::customary()).unwrap();
    assert_eq!(f.underline_position, -150);
    assert_eq!(f.underline_thickness, 170);
    assert_eq!(f.x_height, 922);
}

#[test]
fn load_font_of_broken_or_unknown_face_is_none() {
    let catalog = Catalog {
        faces: vec![(info(5, "Broken", FontStyle::Normal, 400, FontStretch::Normal), vec![0, 1, 0, 0, 0, 0])],
    };
    assert_eq!(load_font(&catalog, FaceId(5), ScriptOffsets::customary()), None);
    assert_eq!(load_font(&catalog, FaceId(6), ScriptOffsets::customary()), None);
}

#[test]
fn convert_selects_and_resolves() {
    let catalog = Catalog {
        faces: vec![(info(3, "Serif", FontStyle::Normal, 400, FontStretch::Normal), font_file(1000, 800, -200, &['a'], None))],
    };
    let font = request(vec![FontFamily::Named("Arial".to_string())]);
    let f = convert(&catalog, &font, ScriptOffsets::customary()).unwrap();
    assert_eq!(f.id, FaceId(3));
    assert_eq!(f.underline_position, -111);
    assert_eq!(f.underline_thickness, 83);
    assert_eq!(convert(&Catalog { faces: vec![] }, &font, ScriptOffsets::customary()), None);
}

#[test]
fn face_covers_reads_the_character_map() {
    let data = font_file(1000, 800, -200, &['a', 'é'], None);
    assert!(face_covers(&data, 0, 'é'));
    assert!(face_covers(&data, 0, 'a'));
    assert!(!face_covers(&data, 0, 'b'));
    assert!(!face_covers(&data, 1, 'a'));
    assert!(!face_covers(&[0, 1, 0, 0], 0, 'a'));
}

#[test]
fn resolve_face_data_parses_the_bytes() {
    let data = font_file(2000, 1500, -500, &['a'], Some((-200, 100)));
    let f = resolve_face_data(FaceId(8), &data, 0, ScriptOffsets::customary()).unwrap();
    assert_eq!(f.id, FaceId(8));
    assert_eq!(f.units_per_em, 2000);
    assert_eq!(f.ascent, 1500);
    assert_eq!(f.descent, -500);
    assert_eq!(f.x_height, 900);
    assert_eq!(f.line_through_position, 450);
    assert_eq!(f.underline_position, -200);
    assert_eq!(f.underline_thickness, 100);
    assert_eq!(f.subscript_offset, 10000);
    assert_eq!(f.superscript_offset, 5000);
    assert_eq!(resolve_face_data(FaceId(8), &data[..20], 0, ScriptOffsets::customary()), None);
}

#[test]
fn parser_rejects_em_out_of_range() {
    let data = font_file(8, 800, -200, &['a'], None);
    assert_eq!(resolve_face_data(FaceId(8), &data, 0, ScriptOffsets::customary()), None);
}

fn scan_faces() -> (FaceInfo, Vec<FaceInfo>) {
    let base = info(1, "Base", FontStyle::Normal, 400, FontStretch::Normal);
    let faces = vec![
        info(1, "Base", FontStyle::Normal, 400, FontStretch::Normal),
        info(2, "A", FontStyle::Normal, 400, FontStretch::Normal),
        info(3, "Far", FontStyle::Oblique, 700, FontStretch::Expanded),
        info(4, "B", FontStyle::Italic, 400, FontStretch::Condensed),
        info(5, "C", FontStyle::Normal, 300, FontStretch::Normal),
    ];
    (base, faces)
}

#[test]
fn first_fallback_takes_first_qualifying_face() {
    let (base, faces) = scan_faces();
    let covers = [false, true, true, true, true];
    assert_eq!(first_fallback(&faces, &base, &[], &covers), Some(FaceId(2)));
    assert_eq!(first_fallback(&faces, &base, &[FaceId(2)], &covers), Some(FaceId(4)));
    assert_eq!(first_fallback(&faces, &base, &[FaceId(2), FaceId(4)], &covers), Some(FaceId(5)));
    assert_eq!(first_fallback(&faces, &base, &[FaceId(2), FaceId(4), FaceId(5)], &covers), None);
}

#[test]
fn first_fallback_weight_only_match_is_accepted() {
    let (base, faces) = scan_faces();
    let covers = [false, true, false, true, false];
    assert_eq!(first_fallback(&faces, &base, &[FaceId(1), FaceId(2)], &covers), Some(FaceId(4)));
}

#[test]
fn first_fallback_needs_coverage() {
    let (base, faces) = scan_faces();
    assert_eq!(first_fallback(&faces, &base, &[], &[false; 5]), None);
    assert_eq!(first_fallback(&faces, &base, &[], &[false, false, true, false, false]), None);
    assert_eq!(first_fallback(&[], &base, &[], &[]), None);
}

#[test]
fn first_fallback_ignores_unchosen_exclusions() {
    let (base, faces) = scan_faces();
    let covers = [false, true, true, true, true];
    assert_eq!(first_fallback(&faces, &base, &[FaceId(5), FaceId(3)], &covers), Some(FaceId(2)));
}

use ttf2mesh::{Error, Quality, TTFFile, Ttf2MeshError};

fn font(nglyphs: usize) -> TTFFile {
    TTFFile::from_buffer_vec(vec![0u8; 12]).complete(0, Some(nglyphs)).unwrap()
}

#[test]
fn load_from_buffer_hands_over_the_whole_buffer() {
    let request = TTFFile::from_buffer_vec(vec![7u8; 1234]);
    assert_eq!(request.data(), Some(&vec![7u8; 1234]));
    assert_eq!(request.size(), Some(1234));
    assert!(!request.headers_only());
    let request = TTFFile::from_buffer_vec(vec![1, 2, 3]);
    assert_eq!(request.data(), Some(&vec![1u8, 2, 3]));
    assert_eq!(request.size(), Some(3));
    let request = TTFFile::from_buffer_vec(Vec::new());
    assert_eq!(request.data(), Some(&Vec::new()));
    assert_eq!(request.size(), Some(0));
}

#[test]
fn load_from_file_needs_the_file() {
    assert!(matches!(TTFFile::from_file(false), Err(Error::FileNotFound)));
    let request = TTFFile::from_file(true).unwrap();
    assert_eq!(request.data(), None);
    assert_eq!(request.size(), None);
    assert!(!request.headers_only());
}

#[test]
fn load_succeeds_on_done_with_a_font() {
    let font = TTFFile::from_file(true).unwrap().complete(0, Some(1485)).unwrap();
    assert_eq!(font.glyph_count(), 1485);
    let font = TTFFile::from_buffer_vec(vec![0u8; 4]).complete(0, Some(0)).unwrap();
    assert_eq!(font.glyph_count(), 0);
}

#[test]
fn load_fails_with_the_status_as_reason() {
    let cases = [
        (1, Ttf2MeshError::NoMem),
        (2, Ttf2MeshError::Size),
        (3, Ttf2MeshError::Open),
        (4, Ttf2MeshError::Ver),
        (5, Ttf2MeshError::Fmt),
        (6, Ttf2MeshError::NoTab),
        (7, Ttf2MeshError::CSum),
        (8, Ttf2MeshError::UTab),
        (-3, Ttf2MeshError::Unknown(-3)),
        (99, Ttf2MeshError::Unknown(99)),
    ];
    for (status, reason) in cases {
        match TTFFile::from_file(true).unwrap().complete(status, None) {
            Err(Error::FontLoadError(found)) => assert_eq!(found, reason),
            other => panic!("{:?}", other),
        }
        // a font that comes with a failure is not taken
        match TTFFile::from_file(true).unwrap().complete(status, Some(3)) {
            Err(Error::FontLoadError(found)) => assert_eq!(found, reason),
            other => panic!("{:?}", other),
        }
    }
}

#[test]
fn load_fails_where_no_font_came() {
    match TTFFile::from_file(true).unwrap().complete(0, None) {
        Err(Error::FontLoadError(reason)) => assert_eq!(reason, Ttf2MeshError::Unknown(0)),
        other => panic!("{:?}", other),
    }
}

#[test]
fn glyph_count_is_stable() {
    let mut font = font(17);
    assert_eq!(font.glyph_count(), 17);
    assert_eq!(font.glyph_count(), 17);
    assert!(font.glyph_by_index(3).is_ok());
    assert!(font.glyph_by_index(30).is_err());
    assert_eq!(font.glyph_count(), 17);
    assert!(font.glyph_from_char('a').unwrap().complete(5).is_ok());
    assert!(font.glyph_from_char('a').unwrap().complete(-1).is_err());
    assert!(font.glyph_from_char('\u{1F600}').is_err());
    assert_eq!(font.glyph_count(), 17);
    assert!(font.export_to_obj(Quality::Low).complete(0).is_ok());
    assert!(font.export_to_obj(Quality::Low).complete(3).is_err());
    assert_eq!(font.glyph_count(), 17);
}

#[test]
fn glyph_by_index_inside_and_outside_the_table() {
    let mut font = font(5);
    for index in 0..5usize {
        assert_eq!(font.glyph_by_index(index).unwrap().index(), index);
    }
    for index in [5usize, 6, 100, usize::MAX] {
        assert!(matches!(font.glyph_by_index(index), Err(Error::GlyphNotFound)));
    }
    let mut empty = self::font(0);
    assert!(matches!(empty.glyph_by_index(0), Err(Error::GlyphNotFound)));
}

#[test]
fn glyph_from_char_asks_for_the_utf16_unit() {
    let mut font = font(5);
    assert_eq!(font.glyph_from_char('A').unwrap().unit(), 0x41);
    assert_eq!(font.glyph_from_char(' ').unwrap().unit(), 0x20);
    assert_eq!(font.glyph_from_char('€').unwrap().unit(), 0x20AC);
    assert_eq!(font.glyph_from_char('\u{0}').unwrap().unit(), 0);
    assert_eq!(font.glyph_from_char('\u{D7FF}').unwrap().unit(), 0xD7FF);
    assert_eq!(font.glyph_from_char('\u{E000}').unwrap().unit(), 0xE000);
    assert_eq!(font.glyph_from_char('\u{FFFF}').unwrap().unit(), 0xFFFF);
}

#[test]
fn glyph_from_char_outside_the_plane_is_not_found() {
    let mut font = font(5);
    for c in ['\u{10000}', '\u{10041}', '\u{1F600}', '\u{20AC0}', '\u{10FFFF}'] {
        assert!(matches!(font.glyph_from_char(c), Err(Error::GlyphNotFound)), "{:?}", c);
    }
    // a character is not cut down to 16 bits: U+10041 is no 'A'
    assert_eq!(font.glyph_from_char('A').unwrap().complete(3).unwrap().index(), 3);
    assert!(font.glyph_from_char('\u{10041}').is_err());
}

#[test]
fn glyph_from_char_unit_is_the_whole_encoding() {
    let mut font = font(1);
    for code in 0..=0x10FFFFu32 {
        if let Some(c) = char::from_u32(code) {
            let mut units = [0u16; 2];
            let encoded = c.encode_utf16(&mut units);
            match font.glyph_from_char(c) {
                Ok(lookup) => {
                    assert_eq!(encoded.len(), 1);
                    assert_eq!(lookup.unit(), encoded[0]);
                }
                Err(Error::GlyphNotFound) => assert_eq!(encoded.len(), 2),
                Err(other) => panic!("{:?}", other),
            }
        }
    }
}

#[test]
fn glyph_from_char_answer() {
    let mut font = font(5);
    assert_eq!(font.glyph_from_char('A').unwrap().complete(0).unwrap().index(), 0);
    assert_eq!(font.glyph_from_char('A').unwrap().complete(4).unwrap().index(), 4);
    for found in [-1, -2, i32::MIN, 5, 6, i32::MAX] {
        assert!(matches!(
            font.glyph_from_char('A').unwrap().complete(found),
            Err(Error::GlyphNotFound)
        ));
    }
}

#[test]
fn export_to_obj_hands_over_the_quality() {
    let mut font = font(5);
    assert_eq!(font.export_to_obj(Quality::Low).quality(), 10);
    assert_eq!(font.export_to_obj(Quality::Medium).quality(), 20);
    assert_eq!(font.export_to_obj(Quality::High).quality(), 50);
    assert_eq!(font.export_to_obj(Quality::Custom(3)).quality(), 3);
    assert_eq!(font.export_to_obj(Quality::Custom(255)).quality(), 255);
}

#[test]
fn export_to_obj_answer() {
    let mut font = font(5);
    assert!(font.export_to_obj(Quality::Low).complete(0).is_ok());
    match font.export_to_obj(Quality::Low).complete(3) {
        Err(Error::ObjExportError(reason)) => assert_eq!(reason, Ttf2MeshError::Open),
        other => panic!("{:?}", other),
    }
    match font.export_to_obj(Quality::Low).complete(11) {
        Err(Error::ObjExportError(reason)) => assert_eq!(reason, Ttf2MeshError::Writing),
        other => panic!("{:?}", other),
    }
    match font.export_to_obj(Quality::Low).complete(9) {
        Err(Error::ObjExportError(reason)) => assert_eq!(reason, Ttf2MeshError::Mesher),
        other => panic!("{:?}", other),
    }
    match font.export_to_obj(Quality::Low).complete(-7) {
        Err(Error::ObjExportError(reason)) => assert_eq!(reason, Ttf2MeshError::Unknown(-7)),
        other => panic!("{:?}", other),
    }
}

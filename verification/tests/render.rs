use omflib::error::OmfError;
use omflib::OmfReader;

fn dump(bytes: &[u8]) -> String {
    let cfg = pretty_hex::HexConfig { group: 8, ..pretty_hex::HexConfig::default() };
    pretty_hex::config_hex(&bytes, cfg)
}

#[test]
fn render_theadr() {
    let mut r = OmfReader::new(vec![0x80, 0x05, 0x00, 0x04, b'T', b'E', b'S', b'T', 0x00]);
    let rec = r.get_next_record().unwrap().unwrap();
    assert_eq!(
        rec.render().unwrap(),
        "Record type 80h length 5\nTranslator Header:\n    Name: TEST\n"
    );
}

#[test]
fn render_segdef_resolves_name() {
    let bytes = vec![
        0x96, 0x0B, 0x00, 0x04, b'C', b'O', b'D', b'E', 0x04, b'D', b'A', b'T', b'A', 0x00, 0x98,
        0x07, 0x00, 0x20, 0x10, 0x00, 0x01, 0x02, 0x02, 0x00,
    ];
    let mut r = OmfReader::new(bytes);
    r.get_next_record().unwrap().unwrap();
    let rec = r.get_next_record().unwrap().unwrap();
    assert_eq!(
        rec.render().unwrap(),
        "Record type 98h length 7\n\
         Segment Definition - CODE (1)\n\
         \x20   Attributes: relocatable, byte aligned; private combination\n\
         \x20   Segment length: 0010\n\
         \x20   Class name: DATA (2)\n\
         \x20   Overlay name: DATA (2)\n"
    );
}

#[test]
fn render_lnames_ordinals() {
    let mut r = OmfReader::new(vec![
        0x96, 0x0B, 0x00, 0x04, b'C', b'O', b'D', b'E', 0x04, b'D', b'A', b'T', b'A', 0x00,
    ]);
    let rec = r.get_next_record().unwrap().unwrap();
    assert_eq!(
        rec.render().unwrap(),
        "Record type 96h length 11\nList of Names\n    1    CODE\n    2    DATA\n"
    );
}

#[test]
fn render_extdef_lines() {
    let mut r = OmfReader::new(vec![
        0x8C, 0x09, 0x00, 0x06, b'E', b'X', b'T', b'S', b'Y', b'M', 0x07, 0x00,
    ]);
    let rec = r.get_next_record().unwrap().unwrap();
    assert_eq!(
        rec.render().unwrap(),
        "Record type 8Ch length 9\nExternal Names Definition\n    0    EXTSYM type 7\n"
    );
}

#[test]
fn render_pubdef_base_frame_only() {
    let mut r = OmfReader::new(vec![0x90, 0x05, 0x00, 0x00, 0x00, 0x34, 0x12, 0x00]);
    let rec = r.get_next_record().unwrap().unwrap();
    assert_eq!(
        rec.render().unwrap(),
        "Record type 90h length 5\nPublic Names Definition\n    Base Frame: 1234\n    Names:\n"
    );
}

#[test]
fn render_pubdef_unresolved_group_fails() {
    let mut r = OmfReader::new(vec![
        0x90, 0x08, 0x00, 0x01, 0x01, 0x01, b'P', 0x10, 0x00, 0x00, 0x00,
    ]);
    let rec = r.get_next_record().unwrap().unwrap();
    assert_eq!(rec.render().unwrap_err(), OmfError::GroupIndex);
}

#[test]
fn render_modend_with_start() {
    let mut r = OmfReader::new(vec![0x8A, 0x07, 0x00, 0xC0, 0x01, 0x02, 0x03, 0x34, 0x12, 0x00]);
    let rec = r.get_next_record().unwrap().unwrap();
    assert_eq!(
        rec.render().unwrap(),
        "Record type 8Ah length 7\nModule End (MAIN)\n\
         \x20   End data: 01, frame: 02, target: 03, displacement: 1234\n"
    );
}

#[test]
fn render_coment_aliased_flags() {
    let mut r = OmfReader::new(vec![0x88, 0x05, 0x00, 0x80, 0xAB, 0xDE, 0xAD, 0x00]);
    let rec = r.get_next_record().unwrap().unwrap();
    let expected = format!(
        "Record type 88h length 5\nComment - no purge no list class AB\n{}\n",
        dump(&[0xDE, 0xAD])
    );
    assert_eq!(rec.render().unwrap(), expected);
}

#[test]
fn render_coment_no_flags() {
    let mut r = OmfReader::new(vec![0x88, 0x05, 0x00, 0x00, 0xAB, 0xDE, 0xAD, 0x00]);
    let rec = r.get_next_record().unwrap().unwrap();
    let expected = format!(
        "Record type 88h length 5\nComment - class AB\n{}\n",
        dump(&[0xDE, 0xAD])
    );
    assert_eq!(rec.render().unwrap(), expected);
}

#[test]
fn render_unknown_hex_dump() {
    let mut r = OmfReader::new(vec![0x42, 0x04, 0x00, 0x01, 0x02, 0x03, 0x99]);
    let rec = r.get_next_record().unwrap().unwrap();
    let expected = format!(
        "Record type 42h length 4\nUnknown Data\n{}\n",
        dump(&[0x01, 0x02, 0x03])
    );
    assert_eq!(rec.render().unwrap(), expected);
}

#[test]
fn render_grpdef_resolves_segments() {
    let bytes = vec![
        0x96, 0x11, 0x00, 0x04, b'C', b'O', b'D', b'E', 0x04, b'D', b'A', b'T', b'A', 0x05, b'M',
        b'Y', b'G', b'R', b'P', 0x00, 0x98, 0x07, 0x00, 0x20, 0x10, 0x00, 0x01, 0x02, 0x02, 0x00,
        0x9A, 0x04, 0x00, 0x03, 0xFF, 0x01, 0x00,
    ];
    let mut r = OmfReader::new(bytes);
    r.get_next_record().unwrap().unwrap();
    r.get_next_record().unwrap().unwrap();
    let rec = r.get_next_record().unwrap().unwrap();
    assert_eq!(
        rec.render().unwrap(),
        "Record type 9Ah length 4\nGroup Definition - MYGRP (3)\n    Segments:\n\
         \x20       0    CODE (1)\n"
    );
}

#[test]
fn render_ledata_resolves_segment() {
    let bytes = vec![
        0x96, 0x0B, 0x00, 0x04, b'C', b'O', b'D', b'E', 0x04, b'D', b'A', b'T', b'A', 0x00, 0x98,
        0x07, 0x00, 0x20, 0x10, 0x00, 0x01, 0x02, 0x02, 0x00, 0xA0, 0x06, 0x00, 0x01, 0x40, 0x00,
        0xAA, 0xBB, 0x00,
    ];
    let mut r = OmfReader::new(bytes);
    r.get_next_record().unwrap().unwrap();
    r.get_next_record().unwrap().unwrap();
    let rec = r.get_next_record().unwrap().unwrap();
    let expected = format!(
        "Record type A0h length 6\nLogical Enumerated Data - CODE (1) offset 0040h\n{}\n",
        dump(&[0xAA, 0xBB])
    );
    assert_eq!(rec.render().unwrap(), expected);
}

#[test]
fn render_ledata_unresolved_segment_fails() {
    let mut r = OmfReader::new(vec![0xA0, 0x06, 0x00, 0x01, 0x40, 0x00, 0xAA, 0xBB, 0x00]);
    let rec = r.get_next_record().unwrap().unwrap();
    assert_eq!(rec.render().unwrap_err(), OmfError::SegmentIndex);
}

#[test]
fn rendering_is_deterministic() {
    let bytes = vec![
        0x96, 0x0B, 0x00, 0x04, b'C', b'O', b'D', b'E', 0x04, b'D', b'A', b'T', b'A', 0x00, 0x98,
        0x07, 0x00, 0x20, 0x10, 0x00, 0x01, 0x02, 0x02, 0x00,
    ];
    let mut all1 = String::new();
    let mut r1 = OmfReader::new(bytes.clone());
    while let Some(rec) = r1.get_next_record().unwrap() {
        all1.push_str(&rec.render().unwrap());
    }
    let mut all2 = String::new();
    let mut r2 = OmfReader::new(bytes);
    while let Some(rec) = r2.get_next_record().unwrap() {
        all2.push_str(&rec.render().unwrap());
    }
    assert_eq!(all1, all2);
}

#[test]
fn formatting_helpers() {
    assert_eq!(omflib::text::dec_str(0), "0");
    assert_eq!(omflib::text::dec_str(12345), "12345");
    assert_eq!(omflib::text::hex2_str(0xAB), "AB");
    assert_eq!(omflib::text::hex2_str(0x05), "05");
    assert_eq!(omflib::text::hex4_str(0x0040), "0040");
    assert_eq!(omflib::text::hex4_str(0xBEEF), "BEEF");
    assert_eq!(omflib::text::pad4(omflib::text::dec_str(1)), "1   ");
    assert_eq!(omflib::text::pad4(omflib::text::dec_str(12345)), "12345");
}

#[test]
fn alignment_and_combination_descriptions() {
    assert_eq!(
        omflib::record::SegmentAlignment::AbsoluteSegment.description(),
        "absolute segment"
    );
    assert_eq!(
        omflib::record::SegmentAlignment::from_u8(5).unwrap().description(),
        "relocatable, double word aligned"
    );
    assert!(omflib::record::SegmentAlignment::from_u8(6).is_none());
    assert_eq!(
        omflib::record::SegmentCombination::from_u8(2).unwrap().description(),
        "public"
    );
    assert!(omflib::record::SegmentCombination::from_u8(1).is_none());
}

use omflib::error::OmfError;
use omflib::record::OmfRecordData;
use omflib::OmfInfo;
use omflib::OmfReader;

#[test]
fn theadr_name_test() {
    let bytes = vec![0x80, 0x05, 0x00, 0x04, b'T', b'E', b'S', b'T', 0x00];
    let mut r = OmfReader::new(bytes);
    let rec = r.get_next_record().unwrap().unwrap();
    assert_eq!(rec.record_type, 0x80);
    assert_eq!(rec.record_length, 5);
    assert_eq!(rec.checksum, 0x00);
    match &rec.data {
        OmfRecordData::THeadr { name } => assert_eq!(name, "TEST"),
        _ => panic!("wrong variant"),
    }
    assert!(r.get_next_record().unwrap().is_none());
}

#[test]
fn cursor_primitives() {
    let mut r = OmfReader::new(vec![0x01, 0x34, 0x12, 0x03, b'A', b'B', b'C']);
    assert_eq!(r.read_u8().unwrap(), 0x01);
    assert_eq!(r.read_u16().unwrap(), 0x1234);
    assert_eq!(r.read_string().unwrap(), "ABC");
    assert_eq!(r.read_u8().unwrap_err(), OmfError::Truncated);
}

#[test]
fn cursor_read_bytes() {
    let mut r = OmfReader::new(vec![9, 8, 7]);
    assert_eq!(r.read_bytes(2).unwrap(), vec![9, 8]);
    assert_eq!(r.read_bytes(2).unwrap_err(), OmfError::Truncated);
    assert_eq!(r.read_bytes(1).unwrap(), vec![7]);
}

#[test]
fn cursor_string_errors() {
    let mut r = OmfReader::new(vec![0x05, b'A']);
    assert_eq!(r.read_string().unwrap_err(), OmfError::Truncated);
    let mut r2 = OmfReader::new(vec![0x01, 0xFF]);
    assert_eq!(r2.read_string().unwrap_err(), OmfError::Text);
}

#[test]
fn empty_stream_is_clean_end() {
    let mut r = OmfReader::new(vec![]);
    assert!(r.get_next_record().unwrap().is_none());
}

#[test]
fn truncated_header_fails() {
    let mut r = OmfReader::new(vec![0x80, 0x05]);
    assert_eq!(r.get_next_record().unwrap_err(), OmfError::Truncated);
}

#[test]
fn truncated_body_fails() {
    let mut r = OmfReader::new(vec![0x80, 0x05, 0x00, 0x04, b'T']);
    assert_eq!(r.get_next_record().unwrap_err(), OmfError::Truncated);
}

#[test]
fn zero_declared_length_fails() {
    let mut r = OmfReader::new(vec![0x42, 0x00, 0x00]);
    assert_eq!(r.get_next_record().unwrap_err(), OmfError::Length);
}

#[test]
fn invalid_text_fails() {
    let mut r = OmfReader::new(vec![0x80, 0x02, 0x00, 0x01, 0xFF, 0x00]);
    assert_eq!(r.get_next_record().unwrap_err(), OmfError::Text);
}

#[test]
fn name_overrunning_budget_fails() {
    // Declared length 4: payload [04 'T' 'E'] cannot hold a 4-byte name;
    // the decoder must fail rather than read past the record.
    let mut r = OmfReader::new(vec![0x80, 0x04, 0x00, 0x04, b'T', b'E', b'S', 0x00]);
    assert_eq!(r.get_next_record().unwrap_err(), OmfError::Length);
}

#[test]
fn lnames_entry_overrunning_budget_fails() {
    let mut r = OmfReader::new(vec![0x96, 0x03, 0x00, 0x05, b'A', 0x00]);
    assert_eq!(r.get_next_record().unwrap_err(), OmfError::Length);
}

#[test]
fn grpdef_odd_budget_fails() {
    let mut r = OmfReader::new(vec![0x9A, 0x03, 0x00, 0x01, 0xFF, 0x00]);
    assert_eq!(r.get_next_record().unwrap_err(), OmfError::Length);
}

fn lnames_code_data() -> Vec<u8> {
    vec![
        0x96, 0x0B, 0x00, 0x04, b'C', b'O', b'D', b'E', 0x04, b'D', b'A', b'T', b'A', 0x00,
    ]
}

fn segdef_code() -> Vec<u8> {
    // alignment 1 (relocatable, byte aligned), combination 0 (private),
    // length 0x0010, segment name 1, class name 2, overlay name 2
    vec![0x98, 0x07, 0x00, 0x20, 0x10, 0x00, 0x01, 0x02, 0x02, 0x00]
}

#[test]
fn lnames_grows_names_by_exactly_k() {
    let mut r = OmfReader::new(lnames_code_data());
    let rec = r.get_next_record().unwrap().unwrap();
    match &rec.data {
        OmfRecordData::LNames { names } => {
            assert_eq!(names.len(), 2);
            assert_eq!(names[0], "CODE");
            assert_eq!(names[1], "DATA");
        },
        _ => panic!("wrong variant"),
    }
    assert_eq!(rec.name_from_index(1).unwrap(), "CODE");
    assert_eq!(rec.name_from_index(2).unwrap(), "DATA");
}

#[test]
fn resolving_index_zero_fails() {
    let mut r = OmfReader::new(lnames_code_data());
    let rec = r.get_next_record().unwrap().unwrap();
    assert_eq!(rec.name_from_index(0).unwrap_err(), OmfError::NameIndex);
    assert_eq!(rec.get_segment(0).unwrap_err(), OmfError::SegmentIndex);
    assert_eq!(rec.get_group(0).unwrap_err(), OmfError::GroupIndex);
}

#[test]
fn resolving_past_table_end_fails() {
    let mut r = OmfReader::new(lnames_code_data());
    let rec = r.get_next_record().unwrap().unwrap();
    assert_eq!(rec.name_from_index(3).unwrap_err(), OmfError::NameIndex);
    assert_eq!(rec.get_segment(1).unwrap_err(), OmfError::SegmentIndex);
    assert_eq!(rec.get_group(1).unwrap_err(), OmfError::GroupIndex);
}

#[test]
fn segdef_appends_exactly_one_segment() {
    let mut bytes = lnames_code_data();
    bytes.extend(segdef_code());
    let mut r = OmfReader::new(bytes);
    let first = r.get_next_record().unwrap().unwrap();
    assert_eq!(first.get_segment(1).unwrap_err(), OmfError::SegmentIndex);
    let rec = r.get_next_record().unwrap().unwrap();
    let seg = rec.get_segment(1).unwrap();
    assert_eq!(seg.segment_length, 0x0010);
    assert_eq!(seg.segment_name_index, 1);
    assert_eq!(seg.class_name_index, 2);
    assert_eq!(rec.get_segment(2).unwrap_err(), OmfError::SegmentIndex);
    assert!(r.get_next_record().unwrap().is_none());
}

#[test]
fn grpdef_appends_exactly_one_group() {
    let mut bytes = lnames_code_data();
    bytes.extend(vec![0x9A, 0x04, 0x00, 0x01, 0xFF, 0x01, 0x00]);
    let mut r = OmfReader::new(bytes);
    r.get_next_record().unwrap().unwrap();
    let rec = r.get_next_record().unwrap().unwrap();
    let group = rec.get_group(1).unwrap();
    assert_eq!(group.group_name_index, 1);
    assert_eq!(group.segment_definitions.len(), 1);
    assert_eq!(group.segment_definitions[0].index, 0xFF);
    assert_eq!(group.segment_definitions[0].segment_definition, 1);
    assert_eq!(rec.get_group(2).unwrap_err(), OmfError::GroupIndex);
}

#[test]
fn modend_with_start_block() {
    let mut r = OmfReader::new(vec![0x8A, 0x07, 0x00, 0xC0, 0x01, 0x02, 0x03, 0x34, 0x12, 0x00]);
    let rec = r.get_next_record().unwrap().unwrap();
    match &rec.data {
        OmfRecordData::ModEnd { main, start } => {
            assert!(*main);
            match start {
                omflib::record::MAttrStart::Start {
                    end_data,
                    frame_datum,
                    target_datum,
                    target_displacement,
                } => {
                    assert_eq!(*end_data, 1);
                    assert_eq!(*frame_datum, 2);
                    assert_eq!(*target_datum, 3);
                    assert_eq!(*target_displacement, 0x1234);
                },
                _ => panic!("expected start block"),
            }
        },
        _ => panic!("wrong variant"),
    }
}

#[test]
fn modend_without_start_block() {
    let mut r = OmfReader::new(vec![0x8A, 0x02, 0x00, 0x00, 0x00]);
    let rec = r.get_next_record().unwrap().unwrap();
    assert!(matches!(
        rec.data,
        OmfRecordData::ModEnd { main: false, start: omflib::record::MAttrStart::NoStart }
    ));
}

#[test]
fn bad_alignment_fails() {
    // attribute byte 0xC0: alignment field 6, outside the enumeration
    let mut r = OmfReader::new(vec![0x98, 0x07, 0x00, 0xC0, 0x10, 0x00, 0x01, 0x02, 0x02, 0x00]);
    assert_eq!(r.get_next_record().unwrap_err(), OmfError::Alignment);
}

#[test]
fn bad_combination_fails() {
    // attribute byte 0x24: alignment 1, combination field 1, outside the enumeration
    let mut r = OmfReader::new(vec![0x98, 0x07, 0x00, 0x24, 0x10, 0x00, 0x01, 0x02, 0x02, 0x00]);
    assert_eq!(r.get_next_record().unwrap_err(), OmfError::Combination);
}

#[test]
fn extdef_entries() {
    let mut r = OmfReader::new(vec![
        0x8C, 0x09, 0x00, 0x06, b'E', b'X', b'T', b'S', b'Y', b'M', 0x00, 0x00,
    ]);
    let rec = r.get_next_record().unwrap().unwrap();
    match &rec.data {
        OmfRecordData::ExtDef { names } => {
            assert_eq!(names.len(), 1);
            assert_eq!(names[0].name, "EXTSYM");
            assert_eq!(names[0].type_index, 0);
        },
        _ => panic!("wrong variant"),
    }
}

#[test]
fn pubdef_base_frame_only() {
    let mut r = OmfReader::new(vec![0x90, 0x05, 0x00, 0x00, 0x00, 0x34, 0x12, 0x00]);
    let rec = r.get_next_record().unwrap().unwrap();
    match &rec.data {
        OmfRecordData::PubDef { base_group_index, base_segment_index, base_frame, names } => {
            assert_eq!(*base_group_index, 0);
            assert_eq!(*base_segment_index, 0);
            assert_eq!(*base_frame, 0x1234);
            assert!(names.is_empty());
        },
        _ => panic!("wrong variant"),
    }
}

#[test]
fn pubdef_entries() {
    let mut r = OmfReader::new(vec![
        0x90, 0x08, 0x00, 0x00, 0x01, 0x01, b'P', 0x10, 0x00, 0x00, 0x00,
    ]);
    let rec = r.get_next_record().unwrap().unwrap();
    match &rec.data {
        OmfRecordData::PubDef { base_group_index, base_segment_index, base_frame, names } => {
            assert_eq!(*base_group_index, 0);
            assert_eq!(*base_segment_index, 1);
            assert_eq!(*base_frame, 0);
            assert_eq!(names.len(), 1);
            assert_eq!(names[0].name, "P");
            assert_eq!(names[0].public_offset, 0x0010);
            assert_eq!(names[0].type_index, 0);
        },
        _ => panic!("wrong variant"),
    }
}

#[test]
fn unknown_tag_is_opaque_payload() {
    let mut r = OmfReader::new(vec![0x42, 0x04, 0x00, 0x01, 0x02, 0x03, 0x99]);
    let rec = r.get_next_record().unwrap().unwrap();
    assert_eq!(rec.record_type, 0x42);
    assert_eq!(rec.record_length, 4);
    assert_eq!(rec.checksum, 0x99);
    match &rec.data {
        OmfRecordData::Unknown { data } => assert_eq!(data, &vec![0x01, 0x02, 0x03]),
        _ => panic!("wrong variant"),
    }
}

#[test]
fn coment_flags_and_bytes() {
    let mut r = OmfReader::new(vec![0x88, 0x05, 0x00, 0x80, 0xAB, 0xDE, 0xAD, 0x00]);
    let rec = r.get_next_record().unwrap().unwrap();
    match &rec.data {
        OmfRecordData::Coment { comment_type, comment_class, comment_bytes } => {
            assert!(comment_type.no_purge);
            assert!(comment_type.no_list);
            assert_eq!(*comment_class, 0xAB);
            assert_eq!(comment_bytes, &vec![0xDE, 0xAD]);
        },
        _ => panic!("wrong variant"),
    }
}

#[test]
fn table_operations() {
    let mut info = OmfInfo::new();
    assert_eq!(info.append_names(&vec!["A".to_string(), "B".to_string()]), 2);
    assert_eq!(info.append_names(&vec!["C".to_string()]), 3);
    assert_eq!(info.resolve_name(1).unwrap(), "A");
    assert_eq!(info.resolve_name(3).unwrap(), "C");
    assert_eq!(info.resolve_name(0).unwrap_err(), OmfError::NameIndex);
    assert_eq!(info.resolve_name(4).unwrap_err(), OmfError::NameIndex);
    assert_eq!(info.resolve_segment(1).unwrap_err(), OmfError::SegmentIndex);
    assert_eq!(info.resolve_group(1).unwrap_err(), OmfError::GroupIndex);
}

#[test]
fn back_to_back_records_decode_in_step() {
    let mut bytes = lnames_code_data();
    bytes.extend(segdef_code());
    bytes.extend(vec![0xA0, 0x06, 0x00, 0x01, 0x40, 0x00, 0xAA, 0xBB, 0x00]);
    let mut r = OmfReader::new(bytes);
    assert!(matches!(
        r.get_next_record().unwrap().unwrap().data,
        OmfRecordData::LNames { .. }
    ));
    assert!(matches!(
        r.get_next_record().unwrap().unwrap().data,
        OmfRecordData::SegDef { .. }
    ));
    assert!(matches!(
        r.get_next_record().unwrap().unwrap().data,
        OmfRecordData::LEData { .. }
    ));
    assert!(r.get_next_record().unwrap().is_none());
}

use disasmap::errors::FormatError;
use disasmap::loader::BinaryArtifact;
use disasmap::loader::RawContainer;
use disasmap::loader::RawSection;
use disasmap::loader::artifact_of;
use disasmap::loader::load;

fn text_section(va: u32, fo: u32, size: u32) -> RawSection {
    RawSection { name: Some(".text".to_string()), virtual_address: va, file_offset: fo, file_size: size }
}

fn good_path() -> Option<Vec<u8>> {
    Some(b"out.pdb\0".to_vec())
}

#[test]
fn artifact_of_accepts_well_formed_container() {
    let bytes: Vec<u8> = vec![0x90; 32];
    let raw = RawContainer { sections: vec![text_section(0x1000, 8, 16)], debug_path: good_path() };
    let a: BinaryArtifact = artifact_of(bytes, raw).unwrap();
    assert_eq!(a.code_index, 0);
    assert_eq!(a.debug_path, "out.pdb");
    assert_eq!(a.bytes.len(), 32);
}

#[test]
fn artifact_of_picks_first_code_section() {
    let bytes: Vec<u8> = vec![0; 64];
    let other = RawSection { name: Some(".data".to_string()), virtual_address: 0, file_offset: 0, file_size: 4 };
    let raw = RawContainer {
        sections: vec![other, text_section(0x1000, 0, 16), text_section(0x2000, 16, 16)],
        debug_path: good_path(),
    };
    let a = artifact_of(bytes, raw).unwrap();
    assert_eq!(a.code_index, 1);
}

#[test]
fn artifact_of_rejects_missing_code_section() {
    let bytes: Vec<u8> = vec![0; 32];
    let sec = RawSection { name: Some(".data".to_string()), virtual_address: 0, file_offset: 0, file_size: 4 };
    let raw = RawContainer { sections: vec![sec], debug_path: good_path() };
    assert!(matches!(artifact_of(bytes, raw), Err(FormatError::MissingSection)));
}

#[test]
fn artifact_of_rejects_unnamed_sections_only() {
    let bytes: Vec<u8> = vec![0; 32];
    let sec = RawSection { name: None, virtual_address: 0x1000, file_offset: 0, file_size: 16 };
    let raw = RawContainer { sections: vec![sec], debug_path: good_path() };
    assert!(matches!(artifact_of(bytes, raw), Err(FormatError::MissingSection)));
}

#[test]
fn artifact_of_rejects_empty_code_section() {
    let bytes: Vec<u8> = vec![0; 32];
    let raw = RawContainer { sections: vec![text_section(0x1000, 0, 0)], debug_path: good_path() };
    assert!(matches!(artifact_of(bytes, raw), Err(FormatError::Malformed)));
}

#[test]
fn artifact_of_rejects_code_section_past_end() {
    let bytes: Vec<u8> = vec![0; 16];
    let raw = RawContainer { sections: vec![text_section(0x1000, 8, 16)], debug_path: good_path() };
    assert!(matches!(artifact_of(bytes, raw), Err(FormatError::Malformed)));
}

#[test]
fn artifact_of_rejects_absent_debug_path() {
    let bytes: Vec<u8> = vec![0; 32];
    let raw = RawContainer { sections: vec![text_section(0x1000, 0, 16)], debug_path: None };
    assert!(matches!(artifact_of(bytes, raw), Err(FormatError::MissingDebugInfo)));
}

#[test]
fn artifact_of_rejects_unterminated_debug_path() {
    let bytes: Vec<u8> = vec![0; 32];
    let raw = RawContainer {
        sections: vec![text_section(0x1000, 0, 16)],
        debug_path: Some(b"out.pdb".to_vec()),
    };
    assert!(matches!(artifact_of(bytes, raw), Err(FormatError::MissingDebugInfo)));
}

#[test]
fn artifact_of_rejects_interior_null_in_debug_path() {
    let bytes: Vec<u8> = vec![0; 32];
    let raw = RawContainer {
        sections: vec![text_section(0x1000, 0, 16)],
        debug_path: Some(b"out\0pdb\0".to_vec()),
    };
    assert!(matches!(artifact_of(bytes, raw), Err(FormatError::MissingDebugInfo)));
}

#[test]
fn artifact_of_rejects_undecodable_debug_path() {
    let bytes: Vec<u8> = vec![0; 32];
    let raw = RawContainer {
        sections: vec![text_section(0x1000, 0, 16)],
        debug_path: Some(vec![0xff, 0xfe, 0x00]),
    };
    assert!(matches!(artifact_of(bytes, raw), Err(FormatError::MissingDebugInfo)));
}

#[test]
fn load_rejects_garbage_container() {
    assert!(matches!(load(vec![0, 1, 2, 3]), Err(FormatError::Malformed)));
    assert!(matches!(load(Vec::new()), Err(FormatError::Malformed)));
}

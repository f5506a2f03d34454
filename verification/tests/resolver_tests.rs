use disasmap::errors::ResolutionError;
use disasmap::resolver::LoadOffset;
use disasmap::resolver::resolve;
use disasmap::symbols::FunctionRecord;

fn record(name: &str, start: u64, end: u64) -> FunctionRecord {
    FunctionRecord { name: name.to_string(), start, end }
}

#[test]
fn anchor_matches_by_suffix() {
    // The anchor name "efi_main" matches a record named "crate::efi_main".
    let records = vec![record("crate::other", 0x500, 0x600), record("crate::efi_main", 0x1000, 0x1010)];
    let offset = resolve(&records, "efi_main", 0x6000).unwrap();
    assert_eq!(offset.value, 0x5000);
}

#[test]
fn anchor_exact_name_matches_too() {
    let records = vec![record("efi_main", 0x1000, 0x1010)];
    let offset = resolve(&records, "efi_main", 0x6000).unwrap();
    assert_eq!(offset.value, 0x5000);
}

#[test]
fn missing_anchor_is_reported() {
    let records = vec![record("crate::efi_main", 0x1000, 0x1010)];
    let r = resolve(&records, "missing_name", 0x6000);
    assert!(matches!(r, Err(ResolutionError::AnchorNotFound)));
}

#[test]
fn anchor_longer_than_name_does_not_match() {
    let records = vec![record("main", 0x1000, 0x1010)];
    let r = resolve(&records, "crate::efi_main", 0x6000);
    assert!(matches!(r, Err(ResolutionError::AnchorNotFound)));
}

#[test]
fn first_matching_record_wins() {
    let records = vec![
        record("a::efi_main", 0x1000, 0x1010),
        record("b::efi_main", 0x2000, 0x2010),
    ];
    let offset = resolve(&records, "efi_main", 0x9000).unwrap();
    assert_eq!(offset.value, 0x8000);
}

#[test]
fn resolution_is_deterministic_over_the_same_records() {
    let records = vec![
        record("crate::other", 0x500, 0x600),
        record("crate::efi_main", 0x1000, 0x1010),
    ];
    let first = resolve(&records, "efi_main", 0x123456).unwrap();
    let second = resolve(&records, "efi_main", 0x123456).unwrap();
    assert_eq!(first.value, second.value);
}

#[test]
fn offset_may_be_negative() {
    let records = vec![record("f", 0x9000, 0x9010)];
    let offset = resolve(&records, "f", 0x1000).unwrap();
    assert_eq!(offset.value, 0x1000 - 0x9000);
}

#[test]
fn apply_corrects_addresses_and_rejects_wraparound() {
    let offset = LoadOffset { value: 0x5000 };
    assert_eq!(offset.apply(0x1000), Some(0x6000));
    let negative = LoadOffset { value: -0x2000 };
    assert_eq!(negative.apply(0x1000), None);
    assert_eq!(negative.apply(0x2000), Some(0));
    let huge = LoadOffset { value: u64::MAX as i128 };
    assert_eq!(huge.apply(1), None);
}

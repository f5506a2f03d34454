use disasmap::errors::DebugInfoError;
use disasmap::symbols::ResolvedProcedure;
use disasmap::symbols::collect_records;
use disasmap::symbols::extract;
use disasmap::symbols::record_of_procedure;

fn proc(name: &str, address: Option<u32>, length: u32) -> ResolvedProcedure {
    ResolvedProcedure { name: name.to_string(), address, length }
}

#[test]
fn record_of_procedure_accepts_valid_procedure() {
    let r = record_of_procedure(&proc("crate::efi_main", Some(0x1000), 0x10)).unwrap();
    assert_eq!(r.name, "crate::efi_main");
    assert_eq!(r.start, 0x1000);
    assert_eq!(r.end, 0x1010);
}

#[test]
fn record_of_procedure_drops_unresolved_address() {
    let r = record_of_procedure(&proc("f", None, 4));
    assert!(matches!(r, Err(DebugInfoError::UnresolvedAddress)));
}

#[test]
fn record_of_procedure_drops_zero_length_range() {
    let r = record_of_procedure(&proc("f", Some(0x1000), 0));
    assert!(matches!(r, Err(DebugInfoError::UnresolvedAddress)));
}

#[test]
fn record_of_procedure_drops_empty_name() {
    let r = record_of_procedure(&proc("", Some(0x1000), 4));
    assert!(matches!(r, Err(DebugInfoError::UnresolvedAddress)));
}

#[test]
fn module_without_symbol_stream_is_skipped() {
    // One module lacks a symbol stream: extraction must not abort, zero
    // records come from it, and the next module still contributes.
    let modules = vec![None, Some(vec![proc("crate::efi_main", Some(0x1000), 0x10)])];
    let e = collect_records(&modules);
    assert_eq!(e.records.len(), 1);
    assert_eq!(e.records[0].name, "crate::efi_main");
    assert!(e.dropped.is_empty());
}

#[test]
fn records_keep_module_enumeration_order() {
    let modules = vec![
        Some(vec![proc("b", Some(0x2000), 8), proc("dropped", None, 8)]),
        None,
        Some(vec![proc("a", Some(0x1000), 8)]),
    ];
    let e = collect_records(&modules);
    assert_eq!(e.records.len(), 2);
    assert_eq!(e.records[0].name, "b");
    assert_eq!(e.records[1].name, "a");
    assert_eq!(e.dropped, vec!["dropped".to_string()]);
}

#[test]
fn every_emitted_record_has_valid_range_and_name() {
    let modules = vec![Some(vec![
        proc("good", Some(0x100), 1),
        proc("", Some(0x200), 1),
        proc("zero", Some(0x300), 0),
        proc("unresolved", None, 1),
    ])];
    let e = collect_records(&modules);
    assert_eq!(e.records.len(), 1);
    for r in &e.records {
        assert!(r.start < r.end);
        assert!(!r.name.is_empty());
    }
    assert_eq!(e.dropped.len(), 3);
}

#[test]
fn extract_rejects_garbage_store() {
    assert!(matches!(extract(&vec![1, 2, 3, 4]), Err(DebugInfoError::OpenFailed)));
    assert!(matches!(extract(&Vec::new()), Err(DebugInfoError::OpenFailed)));
}

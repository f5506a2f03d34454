use disasmap::errors::DebugInfoError;
use disasmap::errors::ResolutionError;
use disasmap::loader::BinaryArtifact;
use disasmap::loader::RawSection;
use disasmap::pipeline::AnalysisError;
use disasmap::pipeline::analyze;

fn artifact_with_nops() -> BinaryArtifact {
    BinaryArtifact {
        bytes: vec![0x90; 16],
        sections: vec![RawSection {
            name: Some(".text".to_string()),
            virtual_address: 0x1000,
            file_offset: 0,
            file_size: 16,
        }],
        code_index: 0,
        debug_path: "out.pdb".to_string(),
    }
}

#[test]
fn analyze_reports_unreadable_store() {
    let artifact = artifact_with_nops();
    let r = analyze(&artifact, vec![1, 2, 3], "efi_main", 0x6000);
    assert!(matches!(
        r,
        Err(AnalysisError::DebugInfo(DebugInfoError::OpenFailed))
    ));
}

#[test]
fn analyze_fails_before_any_report_is_produced() {
    let artifact = artifact_with_nops();
    match analyze(&artifact, Vec::new(), "efi_main", 0x6000) {
        Err(AnalysisError::DebugInfo(_)) => {}
        Err(AnalysisError::Resolution(ResolutionError::AnchorNotFound)) => {
            panic!("extraction fails first")
        }
        Ok(_) => panic!("an empty store is not a debug store"),
    }
}

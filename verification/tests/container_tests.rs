//! End-to-end test over a hand-built, minimal 64-bit portable-executable
//! image: one code section of sixteen one-byte instructions, and a
//! debug-directory entry naming an external debug store.

use disasmap::loader::load;
use disasmap::pipeline::disassemble_functions;
use disasmap::report::FunctionOutcome;
use disasmap::report::emit;
use disasmap::resolver::resolve;
use disasmap::symbols::FunctionRecord;

fn w16(image: &mut [u8], off: usize, v: u16) {
    image[off..off + 2].copy_from_slice(&v.to_le_bytes());
}

fn w32(image: &mut [u8], off: usize, v: u32) {
    image[off..off + 4].copy_from_slice(&v.to_le_bytes());
}

fn w64(image: &mut [u8], off: usize, v: u64) {
    image[off..off + 8].copy_from_slice(&v.to_le_bytes());
}

fn minimal_pe_image() -> Vec<u8> {
    let mut image = vec![0u8; 0x400];
    // Legacy stub header with the offset of the modern header.
    image[0] = b'M';
    image[1] = b'Z';
    w32(&mut image, 0x3c, 0x80);
    // Modern header signature and file header.
    image[0x80..0x84].copy_from_slice(b"PE\0\0");
    w16(&mut image, 0x84, 0x8664); // machine: x86-64
    w16(&mut image, 0x86, 1); // one section
    w16(&mut image, 0x94, 0xf0); // optional header size
    w16(&mut image, 0x96, 0x0022); // executable, large-address-aware
    // Optional header, 64-bit flavor.
    w16(&mut image, 0x98, 0x20b);
    w32(&mut image, 0x9c, 0x200); // size of code
    w32(&mut image, 0xa8, 0x1000); // entry point
    w32(&mut image, 0xac, 0x1000); // base of code
    w64(&mut image, 0xb0, 0x1_4000_0000); // image base
    w32(&mut image, 0xb8, 0x1000); // section alignment
    w32(&mut image, 0xbc, 0x200); // file alignment
    w16(&mut image, 0xc0, 6); // required OS version
    w16(&mut image, 0xc8, 6); // subsystem version
    w32(&mut image, 0xd0, 0x2000); // size of image
    w32(&mut image, 0xd4, 0x200); // size of headers
    w16(&mut image, 0xdc, 10); // subsystem: EFI application
    w64(&mut image, 0xe0, 0x10_0000); // stack reserve
    w64(&mut image, 0xe8, 0x1000); // stack commit
    w64(&mut image, 0xf0, 0x10_0000); // heap reserve
    w64(&mut image, 0xf8, 0x1000); // heap commit
    w32(&mut image, 0x104, 16); // number of data directories
    // Data directory 6: the debug directory, inside the code section.
    w32(&mut image, 0x108 + 6 * 8, 0x1040);
    w32(&mut image, 0x108 + 6 * 8 + 4, 28);
    // Section table: one entry named ".text".
    image[0x188..0x18d].copy_from_slice(b".text");
    w32(&mut image, 0x190, 0x200); // virtual size
    w32(&mut image, 0x194, 0x1000); // virtual address
    w32(&mut image, 0x198, 0x200); // size of raw data
    w32(&mut image, 0x19c, 0x200); // pointer to raw data
    w32(&mut image, 0x1a8, 0x6000_0020); // code, readable, executable
    // Section data: sixteen one-byte instructions at virtual 0x1000.
    for b in &mut image[0x200..0x210] {
        *b = 0x90;
    }
    // Debug directory entry: code-view data at virtual 0x1060, file 0x260.
    w32(&mut image, 0x240 + 12, 2); // type: code view
    w32(&mut image, 0x240 + 16, 24 + 8); // record size
    w32(&mut image, 0x240 + 20, 0x1060); // address of raw data
    w32(&mut image, 0x240 + 24, 0x260); // pointer to raw data
    // Code-view record: magic, a zero GUID, an age, the store path.
    image[0x260..0x264].copy_from_slice(b"RSDS");
    w32(&mut image, 0x274, 1); // age
    image[0x278..0x280].copy_from_slice(b"out.pdb\0");
    image
}

#[test]
fn load_reads_code_section_and_store_path_from_real_container() {
    let artifact = load(minimal_pe_image()).unwrap();
    assert_eq!(artifact.debug_path, "out.pdb");
    let sec = &artifact.sections[artifact.code_index];
    assert_eq!(sec.name.as_deref(), Some(".text"));
    assert_eq!(sec.virtual_address, 0x1000);
    assert_eq!(sec.file_offset, 0x200);
    assert_eq!(sec.file_size, 0x200);
    // The code section's byte range is non-empty and within the artifact.
    assert!(sec.file_size > 0);
    assert!((sec.file_offset as usize + sec.file_size as usize) <= artifact.bytes.len());
}

#[test]
fn loaded_container_disassembles_at_corrected_addresses() {
    let artifact = load(minimal_pe_image()).unwrap();
    let records = vec![FunctionRecord {
        name: "crate::efi_main".to_string(),
        start: 0x1000,
        end: 0x1010,
    }];
    let offset = resolve(&records, "efi_main", 0x6000).unwrap();
    let listings = disassemble_functions(&artifact, &records, &offset);
    match &listings[0].outcome {
        FunctionOutcome::Disassembled(d) => {
            assert_eq!(d.instructions.len(), 16);
            assert_eq!(d.instructions[0].runtime_ip, 0x6000);
            assert_eq!(d.undecoded_tail, 0);
        }
        _ => panic!("the record lies within the code section"),
    }
    let text = emit(&listings);
    assert!(text.starts_with("crate::efi_main:\n00006000 nop\n"));
}

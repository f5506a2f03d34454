//! Binary Loader: parses the container of the compiled binary, locates the
//! code section, and extracts the path of the external debug-symbol store.

use vstd::prelude::*;
use vstd::string::StringExecFns;

use crate::errors::FormatError;

verus! {

/// The well-known name of the section that carries machine code.
pub open spec fn code_section_name() -> Seq<char> {
    ".text"@
}

/// One entry of the container's section table, reduced to plain values.
pub struct RawSection {
    /// The section's name, where the container gave a readable one.
    pub name: Option<String>,
    /// Virtual address the section is linked at.
    pub virtual_address: u32,
    /// Offset of the section's data within the container file.
    pub file_offset: u32,
    /// Size of the section's data within the container file.
    pub file_size: u32,
}

/// Everything the container parser hands back, as plain values.
pub struct RawContainer {
    /// The section table, in container order.
    pub sections: Vec<RawSection>,
    /// The raw bytes of the debug-directory entry's store path, if the entry
    /// is present.
    pub debug_path: Option<Vec<u8>>,
}

/// The mathematical value of a section table entry.
pub ghost struct SectionV {
    /// The section's name, where the container gave a readable one.
    pub name: Option<Seq<char>>,
    /// Virtual address the section is linked at.
    pub virtual_address: u32,
    /// Offset of the section's data within the container file.
    pub file_offset: u32,
    /// Size of the section's data within the container file.
    pub file_size: u32,
}

/// The mathematical value of a parsed container.
pub ghost struct ContainerV {
    /// The section table, in container order.
    pub sections: Seq<SectionV>,
    /// The raw bytes of the debug-directory entry's store path, if present.
    pub debug_path: Option<Seq<u8>>,
}

impl View for RawSection {
    type V = SectionV;

    open spec fn view(&self) -> SectionV {
        SectionV {
            name: match self.name {
                Some(n) => Some(n@),
                None => None,
            },
            virtual_address: self.virtual_address,
            file_offset: self.file_offset,
            file_size: self.file_size,
        }
    }
}

/// The views of a section table.
pub open spec fn sections_view(sections: Seq<RawSection>) -> Seq<SectionV> {
    sections.map_values(|s: RawSection| s@)
}

impl View for RawContainer {
    type V = ContainerV;

    open spec fn view(&self) -> ContainerV {
        ContainerV {
            sections: sections_view(self.sections@),
            debug_path: match self.debug_path {
                Some(p) => Some(p@),
                None => None,
            },
        }
    }
}

/// What the container parser returns on the given bytes: `None` where it
/// rejects them. Parsing is deterministic: the result depends on the bytes
/// alone.
pub uninterp spec fn parsed_of(bytes: Seq<u8>) -> Option<ContainerV>;

/// Relies on goblin's portable-executable parser: `PE::parse` reads the
/// container header and section table, and `DebugData` carries the raw
/// code-view record whose `filename` field is the debug store's path bytes.
/// Returns `None` where goblin rejects the container; both the verdict and
/// the parsed values depend on the bytes alone.
#[verifier::external_body]
fn parse_container(bytes: &Vec<u8>) -> (r: Option<RawContainer>)
    ensures
        r is Some <==> parsed_of(bytes@) is Some,
        r is Some ==> r.unwrap()@ == parsed_of(bytes@).unwrap(),
{
    let pe = goblin::pe::PE::parse(bytes.as_slice()).ok()?;
    let mut sections: Vec<RawSection> = Vec::new();
    for s in &pe.sections {
        sections.push(RawSection {
            name: s.name().ok().map(|n| n.to_string()),
            virtual_address: s.virtual_address,
            file_offset: s.pointer_to_raw_data,
            file_size: s.size_of_raw_data,
        });
    }
    let debug_path = pe
        .debug_data
        .and_then(|d| d.codeview_pdb70_debug_info)
        .map(|c| c.filename.to_vec());
    Some(RawContainer { sections, debug_path })
}

/// Relies on `String::from_utf8`: it succeeds exactly on valid UTF-8 input
/// and decodes the bytes to the character sequence they encode.
#[verifier::external_body]
fn string_from_utf8(bytes: Vec<u8>) -> (r: Option<String>)
    ensures
        r is Some <==> vstd::utf8::valid_utf8(bytes@),
        r is Some ==> r.unwrap()@ == vstd::utf8::decode_utf8(bytes@),
{
    String::from_utf8(bytes).ok()
}

/// Whether a section table entry carries the well-known code-section name.
pub open spec fn is_code_section(s: SectionV) -> bool {
    s.name is Some && s.name.unwrap() == code_section_name()
}

/// Index of the first code section at or after position `i`, if any.
pub open spec fn find_code_section_from(sections: Seq<SectionV>, i: int) -> Option<int>
    decreases sections.len() - i,
{
    if i < 0 || i >= sections.len() {
        None
    } else if is_code_section(sections[i]) {
        Some(i)
    } else {
        find_code_section_from(sections, i + 1)
    }
}

/// Index of the first code section of the table, if any.
pub open spec fn find_code_section(sections: Seq<SectionV>) -> Option<int> {
    find_code_section_from(sections, 0)
}

/// Whether the code section's file range is non-empty and lies within an
/// artifact of `len` bytes.
pub open spec fn code_bounds_ok(s: SectionV, len: int) -> bool {
    0 < s.file_size && s.file_offset + s.file_size <= len
}

/// Whether the bytes of a store path are validly null-terminated: at least
/// one byte, the last byte null, and no null before it.
pub open spec fn null_terminated(b: Seq<u8>) -> bool {
    &&& b.len() >= 1
    &&& b.last() == 0u8
    &&& forall|i: int| 0 <= i < b.len() - 1 ==> b[i] != 0u8
}

/// The store path bytes without their terminator.
pub open spec fn path_content(b: Seq<u8>) -> Seq<u8> {
    b.drop_last()
}

/// Whether a debug-directory path is present, validly null-terminated, and
/// validly encoded.
pub open spec fn debug_path_ok(p: Option<Seq<u8>>) -> bool {
    &&& p is Some
    &&& null_terminated(p.unwrap())
    &&& vstd::utf8::valid_utf8(path_content(p.unwrap()))
}

/// A loaded binary artifact: its raw bytes, its section table, the position
/// of the code section, and the path of the external debug-symbol store.
/// Immutable once loaded.
pub struct BinaryArtifact {
    /// The container's raw bytes.
    pub bytes: Vec<u8>,
    /// The section table, in container order.
    pub sections: Vec<RawSection>,
    /// Index of the code section within `sections`.
    pub code_index: usize,
    /// Path of the external debug-symbol store.
    pub debug_path: String,
}

impl BinaryArtifact {
    /// Well-formedness: the code index names a code section whose file range
    /// is non-empty and lies within the artifact's bytes.
    pub open spec fn wf(self) -> bool {
        &&& self.code_index < self.sections@.len()
        &&& is_code_section(self.sections@[self.code_index as int]@)
        &&& code_bounds_ok(self.sections@[self.code_index as int]@, self.bytes@.len() as int)
    }

    /// The code section's entry.
    pub open spec fn code_section(self) -> SectionV {
        self.sections@[self.code_index as int]@
    }
}

/// Finds the first code section of a table.
fn locate_code_section(sections: &Vec<RawSection>) -> (r: Option<usize>)
    ensures
        match r {
            Some(i) => {
                &&& i < sections@.len()
                &&& is_code_section(sections@[i as int]@)
                &&& find_code_section(sections_view(sections@)) == Some(i as int)
            },
            None => find_code_section(sections_view(sections@)) is None,
        },
{
    let mut i: usize = 0;
    while i < sections.len()
        invariant
            0 <= i <= sections@.len(),
            find_code_section(sections_view(sections@)) == find_code_section_from(
                sections_view(sections@),
                i as int,
            ),
        decreases sections@.len() - i,
    {
        proof {
            assert(sections_view(sections@)[i as int] == sections@[i as int]@);
        }
        let is_code = match &sections[i].name {
            Some(n) => {
                let want: String = String::from_str(".text");
                n.eq(&want)
            },
            None => false,
        };
        if is_code {
            return Some(i);
        }
        i = i + 1;
    }
    None
}

/// Checks that path bytes are validly null-terminated and returns the bytes
/// before the terminator.
fn split_null_terminated(b: &Vec<u8>) -> (r: Option<Vec<u8>>)
    ensures
        match r {
            Some(content) => null_terminated(b@) && content@ == path_content(b@),
            None => !null_terminated(b@),
        },
{
    if b.len() == 0 {
        return None;
    }
    if b[b.len() - 1] != 0u8 {
        return None;
    }
    let mut content: Vec<u8> = Vec::new();
    let mut i: usize = 0;
    while i < b.len() - 1
        invariant
            b@.len() >= 1,
            b@.last() == 0u8,
            0 <= i <= b@.len() - 1,
            content@ == b@.subrange(0, i as int),
            forall|j: int| 0 <= j < i ==> b@[j] != 0u8,
        decreases b@.len() - 1 - i,
    {
        if b[i] == 0u8 {
            return None;
        }
        content.push(b[i]);
        i = i + 1;
    }
    assert(content@ =~= path_content(b@));
    Some(content)
}

/// What building an artifact from a parsed container must return: the
/// artifact over the first code section where everything is in order, else
/// the one error that says what is not. No code section is
/// `MissingSection`; a code section whose file range is empty or runs past
/// the artifact is `Malformed`; an absent, unterminated or undecodable
/// store path is `MissingDebugInfo`.
pub open spec fn artifact_post(
    bytes: Seq<u8>,
    c: ContainerV,
    r: Result<BinaryArtifact, FormatError>,
) -> bool {
    match r {
        Ok(a) => {
            &&& find_code_section(c.sections) == Some(a.code_index as int)
            &&& a.wf()
            &&& a.bytes@ == bytes
            &&& sections_view(a.sections@) == c.sections
            &&& debug_path_ok(c.debug_path)
            &&& a.debug_path@ == vstd::utf8::decode_utf8(path_content(c.debug_path.unwrap()))
        },
        Err(FormatError::MissingSection) => find_code_section(c.sections) is None,
        Err(FormatError::Malformed) => {
            &&& find_code_section(c.sections) is Some
            &&& !code_bounds_ok(
                c.sections[find_code_section(c.sections).unwrap()],
                bytes.len() as int,
            )
        },
        Err(FormatError::MissingDebugInfo) => {
            &&& find_code_section(c.sections) is Some
            &&& code_bounds_ok(c.sections[find_code_section(c.sections).unwrap()], bytes.len() as int)
            &&& !debug_path_ok(c.debug_path)
        },
    }
}

/// Builds the artifact from a parsed container, or says exactly why it
/// cannot; see [`artifact_post`].
pub fn artifact_of(bytes: Vec<u8>, raw: RawContainer) -> (r: Result<BinaryArtifact, FormatError>)
    ensures
        artifact_post(bytes@, raw@, r),
{
    let code_index = match locate_code_section(&raw.sections) {
        Some(i) => i,
        None => {
            return Err(FormatError::MissingSection);
        },
    };
    let sec = &raw.sections[code_index];
    proof {
        assert(raw@.sections[code_index as int] == sec@);
    }
    if sec.file_size == 0 {
        return Err(FormatError::Malformed);
    }
    if sec.file_offset as u64 + sec.file_size as u64 > bytes.len() as u64 {
        return Err(FormatError::Malformed);
    }
    let path_bytes = match raw.debug_path {
        Some(p) => p,
        None => {
            return Err(FormatError::MissingDebugInfo);
        },
    };
    let content = match split_null_terminated(&path_bytes) {
        Some(c) => c,
        None => {
            return Err(FormatError::MissingDebugInfo);
        },
    };
    let debug_path = match string_from_utf8(content) {
        Some(s) => s,
        None => {
            return Err(FormatError::MissingDebugInfo);
        },
    };
    Ok(BinaryArtifact { bytes, sections: raw.sections, code_index, debug_path })
}

/// Loads a binary artifact from the container's raw bytes: parses the
/// container, locates the code section, and extracts the debug store path.
/// A container the parser rejects is exactly `Malformed`; on a parsed
/// container the outcome is exactly [`artifact_post`] over its value. On
/// success the artifact is well formed: its code section's byte range is
/// non-empty and lies within the artifact.
pub fn load(bytes: Vec<u8>) -> (r: Result<BinaryArtifact, FormatError>)
    ensures
        match parsed_of(bytes@) {
            None => r == Err::<BinaryArtifact, FormatError>(FormatError::Malformed),
            Some(c) => artifact_post(bytes@, c, r),
        },
        r is Ok ==> r.unwrap().wf() && r.unwrap().bytes@ == bytes@,
{
    let raw = match parse_container(&bytes) {
        Some(raw) => raw,
        None => {
            return Err(FormatError::Malformed);
        },
    };
    artifact_of(bytes, raw)
}

} // verus!

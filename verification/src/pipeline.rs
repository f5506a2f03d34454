//! The pipeline's composition: per function record, the corrected runtime
//! address and the disassembly of its byte range within the code section;
//! and the stages chained in order — symbol extraction, load-offset
//! resolution, disassembly, report rendering. Each stage completes fully
//! before the next begins; the shared artifact is read-only throughout.

use vstd::prelude::*;
use vstd::slice::slice_subrange;

use crate::disasm::disas_spec;
use crate::disasm::disassemble;
use crate::disasm::instrs_view;
use crate::errors::DebugInfoError;
use crate::errors::ResolutionError;
use crate::loader::BinaryArtifact;
use crate::report::FunctionDisassembly;
use crate::report::FunctionOutcome;
use crate::report::emit;
use crate::report::emit_spec;
use crate::resolver::LoadOffset;
use crate::resolver::find_anchor;
use crate::resolver::resolution_post;
use crate::resolver::resolve;
use crate::symbols::FunctionRecord;
use crate::symbols::RecordV;
use crate::symbols::extract;
use crate::symbols::modules_dropped_from;
use crate::symbols::modules_records_from;
use crate::symbols::names_view;
use crate::symbols::records_view;
use crate::symbols::store_scan_of;

verus! {

/// Whether a record's address range lies within the code section of the
/// artifact: at or after the section's virtual address, and no further than
/// its data reaches.
pub open spec fn range_in_code(a: BinaryArtifact, rec: RecordV) -> bool {
    let sec = a.code_section();
    &&& sec.virtual_address <= rec.start
    &&& rec.start <= rec.end
    &&& rec.end <= sec.virtual_address + sec.file_size
}

/// Whether both ends of a record's range, corrected by the offset, stay
/// within the 64-bit address space.
pub open spec fn range_mappable(rec: RecordV, offset: LoadOffset) -> bool {
    &&& 0 <= rec.start + offset.value <= u64::MAX
    &&& 0 <= rec.end + offset.value <= u64::MAX
}

/// The bytes of one record's range within the artifact's code section.
pub open spec fn function_bytes(a: BinaryArtifact, rec: RecordV) -> Seq<u8> {
    let sec = a.code_section();
    a.bytes@.subrange(
        sec.file_offset + rec.start - sec.virtual_address,
        sec.file_offset + rec.end - sec.virtual_address,
    )
}

/// What one function's outcome must be: its bytes decoded at the corrected
/// runtime address where its range lies in the code section and maps into
/// the address space, and the reason otherwise.
pub open spec fn outcome_post(a: BinaryArtifact, offset: LoadOffset, rec: RecordV, f: FunctionDisassembly) -> bool {
    &&& f.name@ == rec.name
    &&& match f.outcome {
        FunctionOutcome::Disassembled(d) => {
            &&& range_in_code(a, rec)
            &&& range_mappable(rec, offset)
            &&& instrs_view(d.instructions@) == disas_spec(
                function_bytes(a, rec),
                (rec.start + offset.value) as u64,
            ).instrs
            &&& d.undecoded_tail as int == disas_spec(
                function_bytes(a, rec),
                (rec.start + offset.value) as u64,
            ).undecoded
        },
        FunctionOutcome::OutsideCode => !range_in_code(a, rec),
        FunctionOutcome::Unmappable => range_in_code(a, rec) && !range_mappable(rec, offset),
    }
}

/// Disassembles every function record against the artifact's code section,
/// in extraction order: one outcome per record. A record whose range lies
/// outside the code section, or whose corrected address falls outside the
/// address space, keeps its place with the reason, so nothing is silently
/// absorbed.
pub fn disassemble_functions(
    artifact: &BinaryArtifact,
    records: &Vec<FunctionRecord>,
    offset: &LoadOffset,
) -> (r: Vec<FunctionDisassembly>)
    requires
        artifact.wf(),
        offset.wf(),
    ensures
        r@.len() == records@.len(),
        forall|k: int|
            0 <= k < records@.len() ==> outcome_post(
                *artifact,
                *offset,
                records@[k]@,
                #[trigger] r@[k],
            ),
{
    let mut out: Vec<FunctionDisassembly> = Vec::new();
    let mut k: usize = 0;
    while k < records.len()
        invariant
            0 <= k <= records@.len(),
            artifact.wf(),
            offset.wf(),
            out@.len() == k,
            forall|j: int|
                0 <= j < k ==> outcome_post(*artifact, *offset, records@[j]@, #[trigger] out@[j]),
        decreases records@.len() - k,
    {
        let rec = &records[k];
        let sec = &artifact.sections[artifact.code_index];
        let va = sec.virtual_address as u64;
        let size = sec.file_size as u64;
        let fo = sec.file_offset as u64;
        let outcome: FunctionOutcome = if !(va <= rec.start && rec.start <= rec.end && rec.end
            <= va + size) {
            FunctionOutcome::OutsideCode
        } else {
            match (offset.apply(rec.start), offset.apply(rec.end)) {
                (Some(runtime_start), Some(runtime_end)) => {
                    let n = artifact.bytes.len();
                    proof {
                        assert(artifact.code_section() == artifact.sections@[
                            artifact.code_index as int
                        ]@);
                        assert(fo + size <= n as u64);
                        assert(fo + (rec.start - va) <= fo + (rec.end - va) <= n as u64);
                    }
                    let lo = (fo + (rec.start - va)) as usize;
                    let hi = (fo + (rec.end - va)) as usize;
                    let bytes = slice_subrange(artifact.bytes.as_slice(), lo, hi);
                    proof {
                        assert(bytes@ == function_bytes(*artifact, rec@));
                        assert(bytes@.len() == rec.end - rec.start);
                        assert(runtime_start as int == rec.start + offset.value);
                        assert(runtime_end as int == rec.end + offset.value);
                        assert(runtime_start + bytes@.len() == runtime_end as int <= u64::MAX);
                    }
                    FunctionOutcome::Disassembled(disassemble(bytes, runtime_start))
                },
                _ => FunctionOutcome::Unmappable,
            }
        };
        out.push(FunctionDisassembly { name: rec.name.clone(), outcome });
        k = k + 1;
    }
    out
}

/// A stage of the pipeline failed; the variant names the stage and carries
/// its cause. All failures stem from malformed static input, so a failed run
/// terminates before producing a report.
pub enum AnalysisError {
    /// The Symbol Extractor failed on the debug-symbol store.
    DebugInfo(DebugInfoError),
    /// The Load-Offset Resolver found no record matching the anchor name.
    Resolution(ResolutionError),
}

/// What a completed run yields: the extracted records, the resolved load
/// offset, the per-function outcomes in extraction order, the names of the
/// records the extractor dropped, and the rendered report text.
pub struct AnalysisReport {
    /// The extracted function records, in module enumeration order.
    pub records: Vec<FunctionRecord>,
    /// The load offset resolved from the anchor function, shared read-only
    /// by every function's disassembly.
    pub offset: LoadOffset,
    /// One outcome per extracted function record, in the same order.
    pub listings: Vec<FunctionDisassembly>,
    /// The names of the dropped procedure records.
    pub dropped: Vec<String>,
    /// The rendered report.
    pub text: String,
}

/// Runs the stages after loading, in order: extracts the function records
/// of the debug-symbol store, resolves the load offset from the anchor
/// function's observed runtime address, disassembles every record against
/// the artifact's code section, and renders the report. A store whose scan
/// fails is exactly `DebugInfo(OpenFailed)`; a scan with no record matching
/// the anchor name is exactly `Resolution(AnchorNotFound)`; otherwise the
/// run succeeds, and the report holds exactly the scan's records and
/// dropped names, the offset resolved over those records, one outcome per
/// record following [`outcome_post`], and the rendering of the listings.
pub fn analyze(
    artifact: &BinaryArtifact,
    store_bytes: Vec<u8>,
    anchor_name: &str,
    runtime_anchor_address: u64,
) -> (r: Result<AnalysisReport, AnalysisError>)
    requires
        artifact.wf(),
    ensures
        match store_scan_of(store_bytes@) {
            None => r == Err::<AnalysisReport, AnalysisError>(
                AnalysisError::DebugInfo(DebugInfoError::OpenFailed),
            ),
            Some(scan) => {
                if find_anchor(modules_records_from(scan, 0), anchor_name@) is None {
                    r == Err::<AnalysisReport, AnalysisError>(
                        AnalysisError::Resolution(ResolutionError::AnchorNotFound),
                    )
                } else {
                    match r {
                        Ok(rep) => {
                            &&& records_view(rep.records@) == modules_records_from(scan, 0)
                            &&& names_view(rep.dropped@) == modules_dropped_from(scan, 0)
                            &&& forall|k: int|
                                0 <= k < rep.records@.len() ==> (#[trigger] rep.records@[k]@).wf()
                            &&& rep.offset.wf()
                            &&& resolution_post(
                                records_view(rep.records@),
                                anchor_name@,
                                runtime_anchor_address,
                                Ok(rep.offset),
                            )
                            &&& rep.listings@.len() == rep.records@.len()
                            &&& forall|k: int|
                                0 <= k < rep.records@.len() ==> outcome_post(
                                    *artifact,
                                    rep.offset,
                                    rep.records@[k]@,
                                    #[trigger] rep.listings@[k],
                                )
                            &&& rep.text@ == emit_spec(rep.listings@)
                        },
                        Err(_) => false,
                    }
                }
            },
        },
{
    let extraction = match extract(&store_bytes) {
        Ok(e) => e,
        Err(e) => {
            return Err(AnalysisError::DebugInfo(e));
        },
    };
    let offset = match resolve(&extraction.records, anchor_name, runtime_anchor_address) {
        Ok(o) => o,
        Err(e) => {
            return Err(AnalysisError::Resolution(e));
        },
    };
    let listings = disassemble_functions(artifact, &extraction.records, &offset);
    let text = emit(&listings);
    Ok(AnalysisReport { records: extraction.records, offset, listings, dropped: extraction.dropped, text })
}

} // verus!

//! Load-Offset Resolver: derives, from one anchor function whose runtime
//! address was observed externally, the constant offset between link-time
//! and runtime address spaces. The offset is a single additive correction
//! applied uniformly to every function's range; the design assumes the whole
//! binary is relocated as one contiguous block, and is not valid where
//! per-section relocation differs.

use vstd::prelude::*;
use vstd::string::StrSliceExecFns;

use crate::errors::ResolutionError;
use crate::symbols::FunctionRecord;
use crate::symbols::RecordV;
use crate::symbols::records_view;

verus! {

/// The constant difference between runtime and link-time addresses:
/// `runtime_address - link_time_address` of the anchor function.
pub struct LoadOffset {
    /// The signed difference; both addresses fit in 64 bits, so it fits
    /// here.
    pub value: i128,
}

impl LoadOffset {
    /// Well-formedness: the difference of two 64-bit addresses.
    pub open spec fn wf(self) -> bool {
        -(u64::MAX as int) <= self.value as int <= u64::MAX as int
    }

    /// Applies the offset to a link-time address; `None` where the corrected
    /// address falls outside the 64-bit address space.
    pub fn apply(&self, link_address: u64) -> (r: Option<u64>)
        requires
            self.wf(),
        ensures
            match r {
                Some(v) => v == link_address + self.value,
                None => !(0 <= link_address + self.value <= u64::MAX),
            },
    {
        let sum: i128 = link_address as i128 + self.value;
        if 0 <= sum && sum <= u64::MAX as i128 {
            Some(sum as u64)
        } else {
            None
        }
    }
}

/// Whether `suffix` is a suffix of `name`.
pub open spec fn is_suffix_of(suffix: Seq<char>, name: Seq<char>) -> bool {
    &&& suffix.len() <= name.len()
    &&& name.subrange(name.len() - suffix.len(), name.len() as int) == suffix
}

/// Index of the first record at or after `i` whose name ends with the
/// anchor name, if any.
pub open spec fn find_anchor_from(records: Seq<RecordV>, anchor: Seq<char>, i: int) -> Option<int>
    decreases records.len() - i,
{
    if i < 0 || i >= records.len() {
        None
    } else if is_suffix_of(anchor, records[i].name) {
        Some(i)
    } else {
        find_anchor_from(records, anchor, i + 1)
    }
}

/// Index of the first record whose name ends with the anchor name, if any.
pub open spec fn find_anchor(records: Seq<RecordV>, anchor: Seq<char>) -> Option<int> {
    find_anchor_from(records, anchor, 0)
}

/// What resolution returns: the offset of the first record whose name ends
/// with the anchor name, or `AnchorNotFound` where no name does.
pub open spec fn resolution_post(
    records: Seq<RecordV>,
    anchor: Seq<char>,
    runtime_address: u64,
    r: Result<LoadOffset, ResolutionError>,
) -> bool {
    match find_anchor(records, anchor) {
        Some(i) => r is Ok && r.unwrap().value == runtime_address - records[i].start,
        None => r == Err::<LoadOffset, ResolutionError>(ResolutionError::AnchorNotFound),
    }
}

/// Whether `name` ends with `suffix`, comparing characters.
fn ends_with_name(name: &str, suffix: &str) -> (b: bool)
    ensures
        b == is_suffix_of(suffix@, name@),
{
    let n = name.unicode_len();
    let m = suffix.unicode_len();
    if m > n {
        return false;
    }
    let mut i: usize = 0;
    while i < m
        invariant
            m <= n,
            n == name@.len(),
            m == suffix@.len(),
            0 <= i <= m,
            forall|j: int| 0 <= j < i ==> name@[n - m + j] == suffix@[j],
        decreases m - i,
    {
        if name.get_char(n - m + i) != suffix.get_char(i) {
            proof {
                assert(name@.subrange(n - m, n as int)[i as int] == name@[n - m + i]);
            }
            return false;
        }
        i = i + 1;
    }
    proof {
        assert(name@.subrange(n - m, n as int) =~= suffix@);
    }
    true
}

/// Finds the first record whose name ends with `anchor_name` (a suffix
/// match, to tolerate mangled or prefixed names) and returns the offset
/// `runtime_anchor_address - record.start`; `AnchorNotFound` where no record
/// matches. The result is a function of the arguments alone, so repeated
/// resolution over the same record set yields the identical offset.
pub fn resolve(
    records: &Vec<FunctionRecord>,
    anchor_name: &str,
    runtime_anchor_address: u64,
) -> (r: Result<LoadOffset, ResolutionError>)
    ensures
        resolution_post(records_view(records@), anchor_name@, runtime_anchor_address, r),
        r is Ok ==> r.unwrap().wf(),
{
    let mut i: usize = 0;
    while i < records.len()
        invariant
            0 <= i <= records@.len(),
            records_view(records@).len() == records@.len(),
            find_anchor(records_view(records@), anchor_name@) == find_anchor_from(
                records_view(records@),
                anchor_name@,
                i as int,
            ),
        decreases records@.len() - i,
    {
        proof {
            assert(records_view(records@)[i as int] == records@[i as int]@);
        }
        if ends_with_name(records[i].name.as_str(), anchor_name) {
            let offset: i128 = runtime_anchor_address as i128 - records[i].start as i128;
            return Ok(LoadOffset { value: offset });
        }
        i = i + 1;
    }
    Err(ResolutionError::AnchorNotFound)
}

/// Law: load-offset resolution is deterministic. Any two outcomes of
/// resolution over the same record set, anchor name and runtime address are
/// identical.
pub proof fn lemma_resolution_deterministic(
    records: Seq<RecordV>,
    anchor: Seq<char>,
    runtime_address: u64,
    r1: Result<LoadOffset, ResolutionError>,
    r2: Result<LoadOffset, ResolutionError>,
)
    requires
        resolution_post(records, anchor, runtime_address, r1),
        resolution_post(records, anchor, runtime_address, r2),
    ensures
        r1 == r2,
{
    match find_anchor(records, anchor) {
        Some(i) => {
            assert(r1.unwrap() == r2.unwrap());
            assert(r1 == Ok::<LoadOffset, ResolutionError>(r1.unwrap()));
            assert(r2 == Ok::<LoadOffset, ResolutionError>(r2.unwrap()));
        },
        None => {},
    }
}

} // verus!

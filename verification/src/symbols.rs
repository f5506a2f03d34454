//! Symbol Extractor: enumerates the procedure records of the external
//! debug-symbol store and produces, in module order, one function record per
//! procedure whose position resolves to a valid, named address range.

use vstd::prelude::*;

use pdb::FallibleIterator;

use crate::errors::DebugInfoError;

verus! {

/// One procedure-kind record of a module's symbol stream, as plain values:
/// its name, its module-relative position, and its code length.
pub struct RawProcedure {
    /// The procedure's full name.
    pub name: String,
    /// Index of the section the position refers to.
    pub section: u16,
    /// Offset within that section.
    pub offset: u32,
    /// Length of the procedure's code, in bytes.
    pub length: u32,
}

/// The mathematical value of a [`RawProcedure`].
pub ghost struct RawProcV {
    /// The procedure's full name.
    pub name: Seq<char>,
    /// Index of the section the position refers to.
    pub section: u16,
    /// Offset within that section.
    pub offset: u32,
    /// Length of the procedure's code, in bytes.
    pub length: u32,
}

impl View for RawProcedure {
    type V = RawProcV;

    open spec fn view(&self) -> RawProcV {
        RawProcV {
            name: self.name@,
            section: self.section,
            offset: self.offset,
            length: self.length,
        }
    }
}

/// The views of a raw procedure list.
pub open spec fn raw_procs_view(procs: Seq<RawProcedure>) -> Seq<RawProcV> {
    procs.map_values(|p: RawProcedure| p@)
}

/// A procedure record after address resolution: its position has either
/// become an absolute link-time address or has none.
pub struct ResolvedProcedure {
    /// The procedure's full name.
    pub name: String,
    /// The absolute link-time address of the procedure's start, if the
    /// store's address map gave its position one.
    pub address: Option<u32>,
    /// Length of the procedure's code, in bytes.
    pub length: u32,
}

/// The mathematical value of a [`ResolvedProcedure`].
pub ghost struct ProcV {
    /// The procedure's full name.
    pub name: Seq<char>,
    /// The absolute link-time address of the procedure's start, if any.
    pub address: Option<u32>,
    /// Length of the procedure's code, in bytes.
    pub length: u32,
}

impl View for ResolvedProcedure {
    type V = ProcV;

    open spec fn view(&self) -> ProcV {
        ProcV { name: self.name@, address: self.address, length: self.length }
    }
}

/// The views of a resolved procedure list.
pub open spec fn procs_view(procs: Seq<ResolvedProcedure>) -> Seq<ProcV> {
    procs.map_values(|p: ResolvedProcedure| p@)
}

/// The views of a module list: one entry per module, `None` for a module
/// without a symbol stream.
pub open spec fn modules_view(modules: Seq<Option<Vec<ResolvedProcedure>>>) -> Seq<
    Option<Seq<ProcV>>,
> {
    modules.map_values(
        |o: Option<Vec<ResolvedProcedure>>|
            match o {
                Some(v) => Some(procs_view(v@)),
                None => None,
            },
    )
}

/// A procedure's name and address range in link-time address space.
pub struct FunctionRecord {
    /// The procedure's full name.
    pub name: String,
    /// First address of the range.
    pub start: u64,
    /// First address past the range.
    pub end: u64,
}

/// The mathematical value of a [`FunctionRecord`].
pub ghost struct RecordV {
    /// The procedure's full name.
    pub name: Seq<char>,
    /// First address of the range.
    pub start: int,
    /// First address past the range.
    pub end: int,
}

impl View for FunctionRecord {
    type V = RecordV;

    open spec fn view(&self) -> RecordV {
        RecordV { name: self.name@, start: self.start as int, end: self.end as int }
    }
}

impl RecordV {
    /// Every emitted record has a non-empty name and a non-empty range.
    pub open spec fn wf(self) -> bool {
        &&& self.name.len() > 0
        &&& 0 <= self.start < self.end <= u64::MAX
    }
}

/// What the symbol extraction emits: the accepted records, in module
/// enumeration order, and the names of the records it dropped.
pub struct Extraction {
    /// One record per procedure that resolved to a valid, named range.
    pub records: Vec<FunctionRecord>,
    /// The names of the dropped procedures, in the same order.
    pub dropped: Vec<String>,
}

#[verifier::external_type_specification]
#[verifier::external_body]
pub struct ExAddressMap<'s>(pdb::AddressMap<'s>);

#[verifier::external_type_specification]
#[verifier::external_body]
pub struct ExModuleInfo<'s>(pdb::ModuleInfo<'s>);

#[verifier::external_type_specification]
#[verifier::external_body]
pub struct ExPdbError(pdb::Error);

/// What opening the store and listing its modules yields on the given
/// bytes: `None` where the store cannot be opened, its address map cannot be
/// read, or its module list cannot be walked; otherwise one entry per
/// module, true where the module carries a symbol stream. Deterministic: a
/// function of the bytes alone.
pub uninterp spec fn store_layout_of(bytes: Seq<u8>) -> Option<Seq<bool>>;

/// What walking the symbol stream of the store's module number `index`
/// yields: `None` where the stream is malformed, else its procedure-kind
/// records in stream order. Deterministic: a function of the store bytes and
/// the module's position alone.
pub uninterp spec fn module_procedures_of(bytes: Seq<u8>, index: int) -> Option<Seq<RawProcV>>;

/// What translating a module-relative position through the store's address
/// map yields: the absolute link-time address, or `None` where the position
/// lies outside every mapped section. Deterministic: a function of the store
/// bytes and the position alone.
pub uninterp spec fn resolved_address_of(bytes: Seq<u8>, section: u16, offset: u32) -> Option<u32>;

/// One module of an opened store: its symbol stream handle, together with
/// the store's bytes and its own position, of which the stream's content is
/// a function.
struct StoreModule {
    /// The module's parsed information, holding its symbol stream.
    info: pdb::ModuleInfo<'static>,
    /// The module's position in the store's module list.
    index: usize,
    /// The store bytes this module was read from.
    source: std::rc::Rc<Vec<u8>>,
}

/// An opened store: its modules in store order (`None` for a module without
/// a symbol stream) and its address map, together with the store's bytes.
struct StoreCatalog {
    /// One entry per module, in store order.
    modules: Vec<Option<StoreModule>>,
    /// The store's address map.
    map: pdb::AddressMap<'static>,
    /// The store bytes the catalog was read from.
    source: std::rc::Rc<Vec<u8>>,
}

/// Relies on `pdb::PDB::open`, `pdb::PDB::address_map`,
/// `pdb::PDB::debug_information` and its module iterator, and
/// `pdb::PDB::module_info`, which returns `None` for a module that carries
/// no symbol stream. All of them read the byte source deterministically, so
/// success and the module layout are exactly [`store_layout_of`] the bytes.
#[verifier::external_body]
fn open_store(bytes: &Vec<u8>) -> (r: Result<StoreCatalog, pdb::Error>)
    ensures
        r is Ok <==> store_layout_of(bytes@) is Some,
        r is Ok ==> {
            let layout = store_layout_of(bytes@).unwrap();
            let c = r.unwrap();
            &&& c.source@ == bytes@
            &&& c.modules@.len() == layout.len()
            &&& forall|j: int|
                0 <= j < layout.len() ==> ((#[trigger] c.modules@[j]) is Some <==> layout[j])
            &&& forall|j: int|
                0 <= j < layout.len() && (#[trigger] c.modules@[j]) is Some
                    ==> c.modules@[j].unwrap().source@ == bytes@ && c.modules@[j].unwrap().index
                    == j
        },
{
    let source = std::rc::Rc::new(bytes.clone());
    let mut store = pdb::PDB::open(std::io::Cursor::new(bytes.clone()))?;
    let map = store.address_map()?;
    let dbi = store.debug_information()?;
    let mut iter = dbi.modules()?;
    let mut modules: Vec<Option<StoreModule>> = Vec::new();
    while let Some(module) = iter.next()? {
        let index = modules.len();
        modules.push(store.module_info(&module)?.map(|info| StoreModule {
            info,
            index,
            source: std::rc::Rc::clone(&source),
        }));
    }
    Ok(StoreCatalog { modules, map, source })
}

/// Relies on `pdb::ModuleInfo::symbols` and `pdb::Symbol::parse`: hands
/// back, in stream order, one entry per record of procedure kind
/// (`pdb::SymbolData::Procedure`), with its name, its module-relative
/// position, and its code length; records of every other kind are not
/// procedures and are passed over, as are records the store cannot parse.
/// The stream's content is a function of the store bytes and the module's
/// position, so the result is exactly [`module_procedures_of`] of them.
#[verifier::external_body]
fn module_procedures(m: &StoreModule) -> (r: Result<Vec<RawProcedure>, pdb::Error>)
    ensures
        r is Ok <==> module_procedures_of(m.source@, m.index as int) is Some,
        r is Ok ==> raw_procs_view(r.unwrap()@) == module_procedures_of(
            m.source@,
            m.index as int,
        ).unwrap(),
{
    let mut symbols = m.info.symbols()?;
    let mut out: Vec<RawProcedure> = Vec::new();
    while let Some(symbol) = symbols.next()? {
        if let Ok(pdb::SymbolData::Procedure(proc)) = symbol.parse() {
            out.push(RawProcedure {
                name: proc.name.to_string().into_owned(),
                section: proc.offset.section,
                offset: proc.offset.offset,
                length: proc.len,
            });
        }
    }
    Ok(out)
}

/// Relies on `pdb::PdbInternalSectionOffset::to_rva`: translates a
/// module-relative position through the store's address map to an absolute
/// address; `None` where the position lies outside every mapped section.
/// The map is read from the store bytes, so the result is exactly
/// [`resolved_address_of`] of them and the position.
#[verifier::external_body]
fn resolve_address(catalog: &StoreCatalog, section: u16, offset: u32) -> (r: Option<u32>)
    ensures
        r == resolved_address_of(catalog.source@, section, offset),
{
    let position = pdb::PdbInternalSectionOffset { offset, section };
    position.to_rva(&catalog.map).map(|rva| rva.0)
}

/// The resolved value of one raw procedure record.
pub open spec fn resolve_proc(bytes: Seq<u8>, p: RawProcV) -> ProcV {
    ProcV {
        name: p.name,
        address: resolved_address_of(bytes, p.section, p.offset),
        length: p.length,
    }
}

/// One module's entry in the store scan: `None` for a module without a
/// symbol stream, else its procedures with their positions resolved.
pub open spec fn scan_element(bytes: Seq<u8>, layout: Seq<bool>, j: int) -> Option<Seq<ProcV>> {
    if layout[j] {
        Some(
            module_procedures_of(bytes, j).unwrap().map_values(
                |p: RawProcV| resolve_proc(bytes, p),
            ),
        )
    } else {
        None
    }
}

/// The whole scan of a debug-symbol store: `None` where the store cannot be
/// opened or any module's symbol stream is malformed, else per module its
/// resolved procedures.
pub open spec fn store_scan_of(bytes: Seq<u8>) -> Option<Seq<Option<Seq<ProcV>>>> {
    match store_layout_of(bytes) {
        None => None,
        Some(layout) => {
            if exists|j: int|
                0 <= j < layout.len() && layout[j] && module_procedures_of(bytes, j) is None {
                None
            } else {
                Some(Seq::new(layout.len(), |j: int| scan_element(bytes, layout, j)))
            }
        },
    }
}

/// Whether a resolved procedure yields a record: its position has an
/// absolute address, its range is non-empty, and it has a name.
pub open spec fn procedure_accepted(p: ProcV) -> bool {
    &&& p.address is Some
    &&& p.length > 0
    &&& p.name.len() > 0
}

/// The record an accepted procedure yields.
pub open spec fn spec_record(p: ProcV) -> RecordV {
    RecordV { name: p.name, start: p.address.unwrap() as int, end: p.address.unwrap() + p.length }
}

/// Builds the function record of one resolved procedure.
/// `UnresolvedAddress` is the per-record failure: the procedure's position
/// resolved to no valid, named address range; the caller drops the record
/// and goes on, since partial symbol coverage is acceptable.
pub fn record_of_procedure(p: &ResolvedProcedure) -> (r: Result<FunctionRecord, DebugInfoError>)
    ensures
        procedure_accepted(p@) ==> r is Ok,
        r is Ok ==> procedure_accepted(p@) && r.unwrap()@ == spec_record(p@) && r.unwrap()@.wf(),
        r is Err ==> r == Err::<FunctionRecord, DebugInfoError>(DebugInfoError::UnresolvedAddress),
{
    let address = match p.address {
        Some(a) => a,
        None => {
            return Err(DebugInfoError::UnresolvedAddress);
        },
    };
    if p.length == 0 || p.name.as_str().unicode_len() == 0 {
        return Err(DebugInfoError::UnresolvedAddress);
    }
    Ok(FunctionRecord {
        name: p.name.clone(),
        start: address as u64,
        end: address as u64 + p.length as u64,
    })
}

/// The records that the procedures of one module yield, from position `i`.
pub open spec fn module_records_from(procs: Seq<ProcV>, i: int) -> Seq<RecordV>
    decreases procs.len() - i,
{
    if i < 0 || i >= procs.len() {
        Seq::empty()
    } else if procedure_accepted(procs[i]) {
        seq![spec_record(procs[i])] + module_records_from(procs, i + 1)
    } else {
        module_records_from(procs, i + 1)
    }
}

/// The names of the procedures of one module that yield no record, from
/// position `i`.
pub open spec fn module_dropped_from(procs: Seq<ProcV>, i: int) -> Seq<Seq<char>>
    decreases procs.len() - i,
{
    if i < 0 || i >= procs.len() {
        Seq::empty()
    } else if procedure_accepted(procs[i]) {
        module_dropped_from(procs, i + 1)
    } else {
        seq![procs[i].name] + module_dropped_from(procs, i + 1)
    }
}

/// The records that a sequence of modules yields, from module `j` on. A
/// module without a symbol stream (`None`) yields nothing and extraction
/// goes on with the next.
pub open spec fn modules_records_from(modules: Seq<Option<Seq<ProcV>>>, j: int) -> Seq<RecordV>
    decreases modules.len() - j,
{
    if j < 0 || j >= modules.len() {
        Seq::empty()
    } else {
        (match modules[j] {
            Some(procs) => module_records_from(procs, 0),
            None => Seq::empty(),
        }) + modules_records_from(modules, j + 1)
    }
}

/// The dropped names over a sequence of modules, from module `j` on.
pub open spec fn modules_dropped_from(modules: Seq<Option<Seq<ProcV>>>, j: int) -> Seq<Seq<char>>
    decreases modules.len() - j,
{
    if j < 0 || j >= modules.len() {
        Seq::empty()
    } else {
        (match modules[j] {
            Some(procs) => module_dropped_from(procs, 0),
            None => Seq::empty(),
        }) + modules_dropped_from(modules, j + 1)
    }
}

/// The views of a record list.
pub open spec fn records_view(records: Seq<FunctionRecord>) -> Seq<RecordV> {
    records.map_values(|r: FunctionRecord| r@)
}

/// The views of a name list.
pub open spec fn names_view(names: Seq<String>) -> Seq<Seq<char>> {
    names.map_values(|n: String| n@)
}

/// Collects the function records of the given modules, in module
/// enumeration order. A module without a symbol stream contributes nothing
/// and is skipped silently; a procedure without a valid, named range is
/// dropped, and its name is reported in `dropped`. Every emitted record is
/// well formed.
pub fn collect_records(modules: &Vec<Option<Vec<ResolvedProcedure>>>) -> (r: Extraction)
    ensures
        records_view(r.records@) == modules_records_from(modules_view(modules@), 0),
        names_view(r.dropped@) == modules_dropped_from(modules_view(modules@), 0),
        forall|k: int| 0 <= k < r.records@.len() ==> (#[trigger] r.records@[k]@).wf(),
{
    let ghost mv = modules_view(modules@);
    let mut records: Vec<FunctionRecord> = Vec::new();
    let mut dropped: Vec<String> = Vec::new();
    let mut j: usize = 0;
    while j < modules.len()
        invariant
            mv == modules_view(modules@),
            0 <= j <= modules@.len(),
            mv.len() == modules@.len(),
            modules_records_from(mv, 0) =~= records_view(records@) + modules_records_from(
                mv,
                j as int,
            ),
            modules_dropped_from(mv, 0) =~= names_view(dropped@) + modules_dropped_from(
                mv,
                j as int,
            ),
            forall|k: int| 0 <= k < records@.len() ==> (#[trigger] records@[k]@).wf(),
        decreases modules@.len() - j,
    {
        match &modules[j] {
            None => {
                proof {
                    assert(mv[j as int] is None);
                }
            },
            Some(procs) => {
                let ghost pv = procs_view(procs@);
                proof {
                    assert(mv[j as int] == Some(pv));
                }
                let mut i: usize = 0;
                while i < procs.len()
                    invariant
                        mv == modules_view(modules@),
                        pv == procs_view(procs@),
                        0 <= i <= procs@.len(),
                        pv.len() == procs@.len(),
                        0 <= j < modules@.len() && mv.len() == modules@.len(),
                        mv[j as int] == Some(pv),
                        modules_records_from(mv, 0) =~= records_view(records@)
                            + module_records_from(pv, i as int) + modules_records_from(mv, j + 1),
                        modules_dropped_from(mv, 0) =~= names_view(dropped@) + module_dropped_from(
                            pv,
                            i as int,
                        ) + modules_dropped_from(mv, j + 1),
                        forall|k: int| 0 <= k < records@.len() ==> (#[trigger] records@[k]@).wf(),
                    decreases procs@.len() - i,
                {
                    let p = &procs[i];
                    proof {
                        assert(pv[i as int] == p@);
                    }
                    let ghost recs_old = records@;
                    let ghost drops_old = dropped@;
                    match record_of_procedure(p) {
                        Ok(rec) => {
                            records.push(rec);
                            proof {
                                assert(records_view(records@) =~= records_view(recs_old) + seq![
                                    rec@,
                                ]);
                                assert(module_records_from(pv, i as int) == seq![
                                    spec_record(pv[i as int]),
                                ] + module_records_from(pv, i + 1));
                            }
                        },
                        Err(_) => {
                            dropped.push(p.name.clone());
                            proof {
                                assert(names_view(dropped@) =~= names_view(drops_old) + seq![
                                    p.name@,
                                ]);
                                assert(module_dropped_from(pv, i as int) == seq![
                                    pv[i as int].name,
                                ] + module_dropped_from(pv, i + 1));
                            }
                        },
                    }
                    i = i + 1;
                }
                proof {
                    assert(module_records_from(pv, i as int) =~= Seq::<RecordV>::empty());
                    assert(module_dropped_from(pv, i as int) =~= Seq::<Seq<char>>::empty());
                }
            },
        }
        j = j + 1;
    }
    proof {
        assert(modules_records_from(mv, j as int) =~= Seq::<RecordV>::empty());
        assert(modules_dropped_from(mv, j as int) =~= Seq::<Seq<char>>::empty());
    }
    Extraction { records, dropped }
}

/// Extracts the function records of the debug-symbol store given as raw
/// bytes: opens the store, walks every module's symbol stream (a module
/// without one is skipped), resolves each procedure's position, and collects
/// the records. The store's scan is a function of its bytes
/// ([`store_scan_of`]): where it fails — the store cannot be opened or a
/// symbol stream is malformed — the one result is `OpenFailed`, with no
/// partial record list; where it succeeds, the records and the dropped
/// names are exactly those of the scan, every record well formed.
/// Per-record resolution failures only drop that record.
pub fn extract(store_bytes: &Vec<u8>) -> (r: Result<Extraction, DebugInfoError>)
    ensures
        match store_scan_of(store_bytes@) {
            None => r == Err::<Extraction, DebugInfoError>(DebugInfoError::OpenFailed),
            Some(scan) => {
                &&& r is Ok
                &&& records_view(r.unwrap().records@) == modules_records_from(scan, 0)
                &&& names_view(r.unwrap().dropped@) == modules_dropped_from(scan, 0)
                &&& forall|k: int|
                    0 <= k < r.unwrap().records@.len() ==> (#[trigger] r.unwrap().records@[k]@).wf()
            },
        },
{
    let ghost sb = store_bytes@;
    let catalog = match open_store(store_bytes) {

        Ok(c) => c,
        Err(_) => {
            proof {
                assert(store_scan_of(sb) is None);
            }
            return Err(DebugInfoError::OpenFailed);
        },
    };
    let ghost layout = store_layout_of(sb).unwrap();
    let mut resolved: Vec<Option<Vec<ResolvedProcedure>>> = Vec::new();
    let mut j: usize = 0;
    while j < catalog.modules.len()
        invariant
            sb == store_bytes@,
            store_layout_of(sb) == Some(layout),
            catalog.source@ == sb,
            catalog.modules@.len() == layout.len(),
            forall|t: int|
                0 <= t < layout.len() ==> ((#[trigger] catalog.modules@[t]) is Some <==> layout[t]),
            forall|t: int|
                0 <= t < layout.len() && (#[trigger] catalog.modules@[t]) is Some
                    ==> catalog.modules@[t].unwrap().source@ == sb
                    && catalog.modules@[t].unwrap().index == t,
            0 <= j <= layout.len(),
            resolved@.len() == j,
            modules_view(resolved@).len() == j,
            forall|t: int|
                0 <= t < j ==> (layout[t] ==> (#[trigger] module_procedures_of(sb, t)) is Some),
            forall|t: int|
                0 <= t < j ==> #[trigger] modules_view(resolved@)[t] == scan_element(sb, layout, t),
        decreases layout.len() - j,
    {
        let ghost resolved_old = resolved@;
        match &catalog.modules[j] {
            None => {
                resolved.push(None);
                proof {
                    assert(!layout[j as int]);
                    assert(modules_view(resolved@)[j as int] is None);
                    assert(modules_view(resolved@)[j as int] == scan_element(sb, layout, j as int));
                    assert(forall|t: int|
                        0 <= t < j ==> #[trigger] modules_view(resolved@)[t] == modules_view(
                            resolved_old,
                        )[t]);
                }
            },
            Some(m) => {
                proof {
                    assert(layout[j as int]);
                    assert(m.source@ == sb && m.index == j);
                }
                let procs = match module_procedures(m) {
                    Ok(p) => p,
                    Err(_) => {
                        proof {
                            assert(module_procedures_of(sb, j as int) is None);
                            assert(exists|t: int|
                                0 <= t < layout.len() && layout[t] && module_procedures_of(
                                    sb,
                                    t,
                                ) is None) by {
                                assert(0 <= (j as int) && (j as int) < layout.len() && layout[
                                    j as int
                                ] && module_procedures_of(sb, j as int) is None);
                            }
                            assert(store_scan_of(sb) is None);
                        }
                        return Err(DebugInfoError::OpenFailed);
                    },
                };
                let ghost raw = module_procedures_of(sb, j as int).unwrap();
                proof {
                    assert(raw_procs_view(procs@) == raw);
                    assert(raw.len() == procs@.len());
                }
                let mut rp: Vec<ResolvedProcedure> = Vec::new();
                let mut i: usize = 0;
                while i < procs.len()
                    invariant
                        catalog.source@ == sb,
                        module_procedures_of(sb, j as int) is Some,
                        raw == module_procedures_of(sb, j as int).unwrap(),
                        raw_procs_view(procs@) == raw,
                        raw.len() == procs@.len(),
                        0 <= i <= procs@.len(),
                        rp@.len() == i,
                        procs_view(rp@).len() == i,
                        forall|t: int|
                            0 <= t < i ==> #[trigger] procs_view(rp@)[t] == resolve_proc(
                                sb,
                                raw[t],
                            ),
                    decreases procs@.len() - i,
                {
                    let ghost rp_old = rp@;
                    let p = &procs[i];
                    let address = resolve_address(&catalog, p.section, p.offset);
                    rp.push(ResolvedProcedure { name: p.name.clone(), address, length: p.length });
                    proof {
                        assert(raw_procs_view(procs@)[i as int] == p@);
                        assert(procs_view(rp@)[i as int] == rp@[i as int]@);
                        assert(procs_view(rp@)[i as int] == resolve_proc(sb, raw[i as int]));
                        assert(forall|t: int|
                            0 <= t < i ==> #[trigger] procs_view(rp@)[t] == procs_view(rp_old)[t]);
                    }
                    i = i + 1;
                }
                proof {
                    assert(procs_view(rp@) =~= raw.map_values(|q: RawProcV| resolve_proc(sb, q)));
                    assert(scan_element(sb, layout, j as int) == Some(procs_view(rp@)));
                }
                resolved.push(Some(rp));
                proof {
                    assert(modules_view(resolved@)[j as int] == Some(procs_view(rp@)));
                    assert(forall|t: int|
                        0 <= t < j ==> #[trigger] modules_view(resolved@)[t] == modules_view(
                            resolved_old,
                        )[t]);
                }
            },
        }
        j = j + 1;
    }
    proof {
        assert(!(exists|t: int|
            0 <= t < layout.len() && layout[t] && module_procedures_of(sb, t) is None));
        assert(store_scan_of(sb) is Some);
        assert(modules_view(resolved@) =~= store_scan_of(sb).unwrap());
    }
    let e = collect_records(&resolved);
    Ok(e)
}

} // verus!

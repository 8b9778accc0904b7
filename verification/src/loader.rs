//! Loading an ELF object: where each `PT_LOAD` segment is mapped, what part of it
//! is zero-filled, where the object's base goes, what each dynamic relocation
//! writes, which init and fini functions run, and which symbols the object exports.
//!
//! The mapping itself and the reads and writes of the mapped memory are the
//! caller's; every address and length it uses is computed here.
use vstd::prelude::*;
use vstd::arithmetic::power2::pow2;
use crate::elf::{LoadSegment, DynamicEntry, DynRelocation, DynSymbol, SymbolEntry, dyn_symbol_view};
use crate::elf::{read_symbols, elf_symbols, read_entry, elf_entry};
use crate::elf::{read_dynamic_symbol, read_dynamic_relocations, read_dynamic_string, elf_dynamic_symbol, elf_dynamic_relocations, elf_dynamic_string};

verus! {

// ---------------------------------------------------------------------------
// Alignment
// ---------------------------------------------------------------------------

/// `addr` rounded up by masking with `alignment`: the next multiple of
/// `alignment` when that is a power of two.
pub open spec fn spec_align_to_next(addr: usize, alignment: usize) -> usize {
    ((addr + alignment - 1) as usize) & !((alignment - 1) as usize)
}

/// Rounds `addr` up to `alignment` by masking.
pub fn align_to_next(addr: usize, alignment: usize) -> (r: usize)
    requires
        1 <= alignment,
        addr + alignment - 1 <= usize::MAX,
    ensures
        r == spec_align_to_next(addr, alignment),
{
    (addr + (alignment - 1)) & !(alignment - 1)
}

/// For an alignment that is a power of two, `2^k`, rounding gives the least
/// multiple of the alignment that is not below `addr`.
pub proof fn lemma_align_to_next(addr: usize, alignment: usize, k: usize)
    requires
        k < usize::BITS,
        alignment == 1usize << k,
        addr + alignment - 1 <= usize::MAX,
    ensures
        spec_align_to_next(addr, alignment) % alignment == 0,
        addr <= spec_align_to_next(addr, alignment),
        spec_align_to_next(addr, alignment) < addr + alignment,
{
    assert(alignment != 0 && alignment & ((alignment - 1) as usize) == 0) by (bit_vector)
        requires
            k < usize::BITS,
            alignment == 1usize << k,
    ;
    let m = (alignment - 1) as usize;
    let s = (addr + m) as usize;
    let r = spec_align_to_next(addr, alignment);
    assert(s == addr + m);
    assert(r & m == 0 && addr <= r && r < addr + alignment) by (bit_vector)
        requires
            alignment != 0,
            m == (alignment - 1) as usize,
            alignment & m == 0,
            s == (addr + m) as usize,
            addr <= s,
            r == s & !m,
    ;
    let q = r >> k;
    assert(r == q << k) by (bit_vector)
        requires
            k < usize::BITS,
            alignment == 1usize << k,
            m == (alignment - 1) as usize,
            r & m == 0,
            q == r >> k,
    ;
    vstd::bits::lemma_usize_pow2_no_overflow(k as nat);
    vstd::arithmetic::power2::lemma_pow2_pos(k as nat);
    vstd::bits::lemma_usize_shl_is_mul(1, k);
    vstd::bits::lemma_usize_shr_is_div(r, k);
    let p = pow2(k as nat) as int;
    assert(q * p <= r) by {
        vstd::arithmetic::div_mod::lemma_fundamental_div_mod(r as int, p);
        vstd::arithmetic::div_mod::lemma_mod_pos_bound(r as int, p);
        vstd::arithmetic::mul::lemma_mul_is_commutative(p, q as int);
    }
    vstd::bits::lemma_usize_shl_is_mul(q, k);
    vstd::arithmetic::div_mod::lemma_mod_multiples_basic(q as int, p);
}

/// `a` is a power of two.
pub open spec fn is_power_of_two(a: usize) -> bool {
    exists|k: usize| k < usize::BITS && a == 1usize << k
}

/// A power of two is at least 1.
pub proof fn lemma_power_of_two_positive(a: usize)
    requires
        is_power_of_two(a),
    ensures
        a >= 1,
{
    let k = choose|k: usize| k < usize::BITS && a == 1usize << k;
    assert(1usize << k != 0) by (bit_vector)
        requires
            k < usize::BITS,
    ;
}

/// Rounding to a power of two never goes down, and goes up by less than the
/// alignment.
pub proof fn lemma_align_to_power_of_two(addr: usize, alignment: usize)
    requires
        is_power_of_two(alignment),
        addr + alignment - 1 <= usize::MAX,
    ensures
        spec_align_to_next(addr, alignment) % alignment == 0,
        addr <= spec_align_to_next(addr, alignment),
        spec_align_to_next(addr, alignment) < addr + alignment,
{
    let k = choose|k: usize| k < usize::BITS && alignment == 1usize << k;
    lemma_align_to_next(addr, alignment, k);
}

// ---------------------------------------------------------------------------
// Errors
// ---------------------------------------------------------------------------

/// Why an object cannot be loaded.
#[derive(Clone, Copy, PartialEq, Eq, Structural, Debug)]
pub enum LoadError {
    /// `object` could not parse the file.
    Malformed,
    /// An address or size computed from the file does not fit in a machine word.
    Overflow,
    /// A segment's page would have to be mapped from before the start of the file;
    /// the value is the file offset it would need.
    MappingBeforeFile(i64),
    /// No segment has address 0, so the base alignment is unknown.
    NoBaseSegment,
    /// A relocation that is not an ELF relocation.
    NotElfRelocation,
    /// A relocation type the loader does not apply.
    UnsupportedRelocation(u32),
    /// A symbol relocation whose target is not a symbol.
    NonSymbolTarget,
    /// A symbol index that the dynamic symbol table does not hold.
    MissingSymbol,
    /// A name that the string table does not hold.
    MissingName,
}

// ---------------------------------------------------------------------------
// Segments
// ---------------------------------------------------------------------------

/// `PROT_READ` on Linux.
pub const PROT_READ: i32 = 1;
/// `PROT_WRITE` on Linux.
pub const PROT_WRITE: i32 = 2;

/// The memory protection a segment is mapped with: readable and writable as the
/// segment says. Code is never mapped executable: it is translated, not run.
pub open spec fn spec_prot(seg: LoadSegment) -> i32 {
    if seg.writable && seg.readable {
        3
    } else if seg.writable {
        PROT_WRITE
    } else if seg.readable {
        PROT_READ
    } else {
        0
    }
}

/// The alignment a segment is placed with: its own, but at least a page.
pub open spec fn segment_alignment(seg: LoadSegment, page_size: usize) -> usize {
    if (seg.align as usize) < page_size { page_size } else { seg.align as usize }
}

/// How a segment is mapped from the file.
#[derive(Clone, Copy, PartialEq, Eq, Structural, Debug)]
pub struct SegmentMapping {
    /// The start of the mapping: the segment's address rounded down to its alignment.
    pub aligned_addr: usize,
    /// The length of the mapping, from `aligned_addr` to the end of the segment.
    pub aligned_size: usize,
    /// How far into the mapping the segment starts.
    pub page_offset: usize,
    /// The protection to map with.
    pub prot: i32,
    /// The file offset the mapping starts at.
    pub map_offset: i64,
}

/// The mapping of `seg` for an object based at `base`.
pub open spec fn spec_plan_segment(seg: LoadSegment, base: usize, page_size: usize) -> Result<SegmentMapping, LoadError> {
    let alignment = segment_alignment(seg, page_size);
    let addr = base + (seg.address as usize);
    if addr > usize::MAX {
        Err(LoadError::Overflow)
    } else {
        let page_offset = (addr as usize) % alignment;
        let aligned_size = page_offset + (seg.size as usize);
        let map_offset = (seg.file_offset as i64) - (page_offset as i64);
        if aligned_size > usize::MAX || map_offset < i64::MIN || map_offset > i64::MAX {
            Err(LoadError::Overflow)
        } else if map_offset < 0 {
            Err(LoadError::MappingBeforeFile(map_offset as i64))
        } else {
            Ok(SegmentMapping {
                aligned_addr: (addr - page_offset) as usize,
                aligned_size: aligned_size as usize,
                page_offset: page_offset as usize,
                prot: spec_prot(seg),
                map_offset: map_offset as i64,
            })
        }
    }
}

/// Where and how `seg` is mapped when the object's base is `base`: the mapping
/// starts at the segment's address rounded down to its alignment, and the file
/// is mapped from as far before the segment's file offset.
pub fn plan_segment(seg: &LoadSegment, base: usize, page_size: usize) -> (r: Result<SegmentMapping, LoadError>)
    requires
        page_size >= 1,
    ensures
        r == spec_plan_segment(*seg, base, page_size),
        r matches Ok(m) ==> {
            &&& m.aligned_addr % segment_alignment(*seg, page_size) == 0
            &&& m.page_offset < segment_alignment(*seg, page_size)
            &&& m.aligned_addr + m.page_offset == base + (seg.address as usize)
            &&& m.aligned_size == m.page_offset + (seg.size as usize)
        },
{
    let own = seg.align as usize;
    let alignment = if own < page_size { page_size } else { own };
    let offset = seg.address as usize;
    if offset > usize::MAX - base {
        return Err(LoadError::Overflow);
    }
    let addr = base + offset;
    let page_offset = addr % alignment;
    assert(page_offset <= addr && page_offset < alignment && (addr - page_offset) % (alignment as int) == 0) by (nonlinear_arith)
        requires
            page_offset == addr % alignment,
            alignment > 0,
    {
        vstd::arithmetic::div_mod::lemma_fundamental_div_mod(addr as int, alignment as int);
        vstd::arithmetic::div_mod::lemma_mod_multiples_basic(addr as int / alignment as int, alignment as int);
        vstd::arithmetic::mul::lemma_mul_is_commutative(alignment as int, addr as int / alignment as int);
    }
    let size = seg.size as usize;
    if size > usize::MAX - page_offset {
        return Err(LoadError::Overflow);
    }
    let aligned_size = page_offset + size;
    let file_offset = seg.file_offset as i64;
    let back = page_offset as i64;
    let fits = if back >= 0 { file_offset >= i64::MIN + back } else { file_offset <= i64::MAX + back };
    if !fits {
        return Err(LoadError::Overflow);
    }
    let map_offset = file_offset - back;
    if map_offset < 0 {
        return Err(LoadError::MappingBeforeFile(map_offset));
    }
    let mut prot: i32 = 0;
    if seg.writable {
        prot = prot | PROT_WRITE;
    }
    if seg.readable {
        prot = prot | PROT_READ;
    }
    assert(0i32 | 2i32 == 2i32 && (0i32 | 2i32) | 1i32 == 3i32 && 0i32 | 1i32 == 1i32) by (bit_vector);
    Ok(SegmentMapping { aligned_addr: addr - page_offset, aligned_size, page_offset, prot, map_offset })
}

/// A range of addresses, `start` included, `end` not.
#[derive(Clone, Copy, PartialEq, Eq, Structural, Debug)]
pub struct AddrRange {
    pub start: usize,
    pub end: usize,
}

/// What follows the mapping of a segment: where the mapping ends, what is
/// zeroed, what is mapped anonymously, and what range holds code.
#[derive(Clone, Copy, PartialEq, Eq, Structural, Debug)]
pub struct SegmentFill {
    /// The end of the segment's memory, rounded up to a page.
    pub mapping_end: usize,
    /// The range from the end of the file's bytes to the end of their page,
    /// zeroed when the segment is larger in memory than in the file.
    pub zero: Option<AddrRange>,
    /// The pages past the file's last page, mapped anonymously and zeroed.
    pub anon: Option<AddrRange>,
    /// The range that holds the segment's code, when it is executable.
    pub exec_range: Option<AddrRange>,
}

/// What follows the mapping of `seg` at `mapped`.
pub open spec fn spec_plan_fill(seg: LoadSegment, mapping: SegmentMapping, mapped: usize, page_size: usize) -> Result<SegmentFill, LoadError> {
    let segment_end = mapped + mapping.aligned_size;
    if segment_end + page_size - 1 > usize::MAX {
        Err(LoadError::Overflow)
    } else {
        let mapping_end = spec_align_to_next(segment_end as usize, page_size);
        let exec_range = if seg.executable { Some(AddrRange { start: mapped, end: mapping_end }) } else { None };
        if seg.size > seg.file_size {
            let file_load_end = mapped + mapping.page_offset + (seg.file_size as usize);
            if file_load_end + page_size - 1 > usize::MAX {
                Err(LoadError::Overflow)
            } else {
                let page_break = spec_align_to_next(file_load_end as usize, page_size);
                Ok(SegmentFill {
                    mapping_end,
                    zero: Some(AddrRange { start: file_load_end as usize, end: page_break }),
                    anon: if page_break < mapping_end { Some(AddrRange { start: page_break, end: mapping_end }) } else { None },
                    exec_range,
                })
            }
        } else {
            Ok(SegmentFill { mapping_end, zero: None, anon: None, exec_range })
        }
    }
}

/// Once `seg` is mapped at `mapped` as `mapping` says: the end of its memory,
/// rounded up to a page; when the segment holds more than the file gives, the
/// rest of the file's last page to zero and the pages after it to map
/// anonymously; and, for code, the range to translate on demand.
pub fn plan_segment_fill(seg: &LoadSegment, mapping: &SegmentMapping, mapped: usize, page_size: usize) -> (r: Result<SegmentFill, LoadError>)
    requires
        is_power_of_two(page_size),
    ensures
        r == spec_plan_fill(*seg, *mapping, mapped, page_size),
        r matches Ok(f) ==> f.zero matches Some(z) ==> z.start <= z.end,
{
    proof {
        lemma_power_of_two_positive(page_size);
    }
    if mapping.aligned_size > usize::MAX - mapped {
        return Err(LoadError::Overflow);
    }
    let segment_end = mapped + mapping.aligned_size;
    if segment_end > usize::MAX - (page_size - 1) {
        return Err(LoadError::Overflow);
    }
    let mapping_end = align_to_next(segment_end, page_size);
    let exec_range = if seg.executable { Some(AddrRange { start: mapped, end: mapping_end }) } else { None };
    if seg.size > seg.file_size {
        let file_size = seg.file_size as usize;
        if mapping.page_offset > usize::MAX - mapped || file_size > usize::MAX - mapped - mapping.page_offset {
            return Err(LoadError::Overflow);
        }
        let file_load_end = mapped + mapping.page_offset + file_size;
        if file_load_end > usize::MAX - (page_size - 1) {
            return Err(LoadError::Overflow);
        }
        let page_break = align_to_next(file_load_end, page_size);
        proof {
            lemma_align_to_power_of_two(file_load_end, page_size);
        }
        let anon = if page_break < mapping_end { Some(AddrRange { start: page_break, end: mapping_end }) } else { None };
        Ok(SegmentFill { mapping_end, zero: Some(AddrRange { start: file_load_end, end: page_break }), anon, exec_range })
    } else {
        Ok(SegmentFill { mapping_end, zero: None, anon: None, exec_range })
    }
}

// ---------------------------------------------------------------------------
// The object's base
// ---------------------------------------------------------------------------

/// The end of a segment's memory.
pub open spec fn segment_end(seg: LoadSegment) -> int {
    seg.address + seg.size
}

/// The highest end of the segments' memory, 0 for none.
pub open spec fn max_segment_end(segs: Seq<LoadSegment>) -> int
    decreases segs.len(),
{
    if segs.len() == 0 {
        0
    } else {
        let rest = max_segment_end(segs.drop_last());
        if segment_end(segs.last()) > rest { segment_end(segs.last()) } else { rest }
    }
}

/// The index of the first segment at address 0.
pub open spec fn base_segment_index(segs: Seq<LoadSegment>) -> Option<int> {
    if exists|i: int| 0 <= i < segs.len() && segs[i].address == 0 {
        Some(choose|i: int| 0 <= i < segs.len() && segs[i].address == 0
            && forall|j: int| 0 <= j < i ==> segs[j].address != 0)
    } else {
        None
    }
}

/// The address range to reserve for an object, and the alignment of its base.
#[derive(Clone, Copy, PartialEq, Eq, Structural, Debug)]
pub struct BaseReservation {
    /// How many bytes to reserve: the object's extent rounded up to a page, plus
    /// room to align the base.
    pub size: usize,
    /// The alignment of the base: that of the segment at address 0, at least a page.
    pub alignment: usize,
}

/// The reservation for an object with segments `segs`.
pub open spec fn spec_base_reservation(segs: Seq<LoadSegment>, page_size: usize) -> Result<BaseReservation, LoadError> {
    match base_segment_index(segs) {
        None => Err(LoadError::NoBaseSegment),
        Some(b) => {
            let alignment = segment_alignment(segs[b], page_size);
            if exists|i: int| 0 <= i < segs.len() && segment_end(#[trigger] segs[i]) > u64::MAX {
                Err(LoadError::Overflow)
            } else {
                let unaligned_end = max_segment_end(segs) as u64 as usize;
                if unaligned_end + page_size - 1 > usize::MAX
                    || spec_align_to_next(unaligned_end, page_size) + alignment > usize::MAX {
                    Err(LoadError::Overflow)
                } else {
                    Ok(BaseReservation {
                        size: (spec_align_to_next(unaligned_end, page_size) + alignment - page_size) as usize,
                        alignment,
                    })
                }
            }
        },
    }
}

proof fn lemma_max_segment_end(segs: Seq<LoadSegment>)
    ensures
        0 <= max_segment_end(segs),
        forall|i: int| 0 <= i < segs.len() ==> segment_end(#[trigger] segs[i]) <= max_segment_end(segs),
        segs.len() > 0 ==> exists|i: int| 0 <= i < segs.len() && segment_end(#[trigger] segs[i]) == max_segment_end(segs),
    decreases segs.len(),
{
    if segs.len() > 0 {
        let rest = segs.drop_last();
        let n = segs.len() - 1;
        lemma_max_segment_end(rest);
        assert forall|i: int| 0 <= i < n implies segs[i] == rest[i] by {}
        if segment_end(segs[n]) > max_segment_end(rest) || n == 0 {
            assert(segment_end(segs[n]) == max_segment_end(segs));
        } else {
            let j = choose|j: int| 0 <= j < n && segment_end(#[trigger] rest[j]) == max_segment_end(rest);
            assert(segs[j] == rest[j]);
            assert(segment_end(segs[j]) == max_segment_end(segs));
        }
    }
}

/// The highest end of the segments' memory; `None` when one does not fit in 64 bits.
fn highest_end(segs: &Vec<LoadSegment>) -> (r: Option<u64>)
    ensures
        r is None <==> exists|i: int| 0 <= i < segs.len() && segment_end(#[trigger] segs@[i]) > u64::MAX,
        r matches Some(e) ==> e == max_segment_end(segs@),
{
    let mut end: u64 = 0;
    let mut i: usize = 0;
    while i < segs.len()
        invariant
            i <= segs.len(),
            end == max_segment_end(segs@.take(i as int)),
            forall|j: int| 0 <= j < i ==> segment_end(#[trigger] segs@[j]) <= u64::MAX,
        decreases segs.len() - i,
    {
        assert(segs@.take(i as int + 1).drop_last() == segs@.take(i as int));
        if segs[i].size > u64::MAX - segs[i].address {
            assert(segment_end(segs@[i as int]) > u64::MAX);
            return None;
        }
        let e = segs[i].address + segs[i].size;
        if e > end {
            end = e;
        }
        i = i + 1;
    }
    assert(segs@.take(segs.len() as int) == segs@);
    Some(end)
}

/// How much address space to reserve for an object with segments `segs`, and
/// how to align its base: the base takes the alignment of the first segment at
/// address 0 (at least a page), and the reservation covers the highest segment
/// end, rounded up to a page, plus the alignment less a page.
pub fn base_reservation(segs: &Vec<LoadSegment>, page_size: usize) -> (r: Result<BaseReservation, LoadError>)
    requires
        is_power_of_two(page_size),
    ensures
        r == spec_base_reservation(segs@, page_size),
        r matches Ok(res) ==> res.alignment >= page_size,
        r matches Ok(res) ==> max_segment_end(segs@) <= usize::MAX
            ==> forall|i: int| 0 <= i < segs.len() ==> segment_end(#[trigger] segs@[i]) <= res.size,
{
    proof {
        lemma_power_of_two_positive(page_size);
    }
    let mut b: usize = 0;
    while b < segs.len() && segs[b].address != 0
        invariant
            b <= segs.len(),
            forall|j: int| 0 <= j < b ==> segs@[j].address != 0,
        decreases segs.len() - b,
    {
        b = b + 1;
    }
    if b == segs.len() {
        return Err(LoadError::NoBaseSegment);
    }
    assert(base_segment_index(segs@) == Some(b as int));
    let own = segs[b].align as usize;
    let alignment = if own < page_size { page_size } else { own };
    let end = match highest_end(segs) {
        None => return Err(LoadError::Overflow),
        Some(e) => e,
    };
    let unaligned_end = end as usize;
    if unaligned_end > usize::MAX - (page_size - 1) {
        return Err(LoadError::Overflow);
    }
    let rounded = align_to_next(unaligned_end, page_size);
    if alignment > usize::MAX - rounded {
        return Err(LoadError::Overflow);
    }
    proof {
        lemma_max_segment_end(segs@);
        lemma_align_to_power_of_two(unaligned_end, page_size);
    }
    Ok(BaseReservation { size: rounded + alignment - page_size, alignment })
}

// ---------------------------------------------------------------------------
// Relocations
// ---------------------------------------------------------------------------

/// `R_AARCH64_GLOB_DAT`: the address of a symbol, for the GOT.
pub const R_AARCH64_GLOB_DAT: u32 = 1025;
/// `R_AARCH64_JUMP_SLOT`: the address of a function, for the PLT.
pub const R_AARCH64_JUMP_SLOT: u32 = 1026;
/// `R_AARCH64_RELATIVE`: the object's base plus the addend.
pub const R_AARCH64_RELATIVE: u32 = 1027;

/// What one dynamic relocation does to the loaded object.
#[derive(Clone, Debug)]
pub enum RelocAction {
    /// Write `value` at `at`.
    Write { at: usize, value: u64 },
    /// Write the address of the symbol `name` at `at`.
    Bind { at: usize, name: Vec<u8> },
    /// Nothing: the relocation is against a weak symbol.
    Skip,
}

/// A `RelocAction` with the symbol name as a sequence.
pub enum RelocActionView {
    Write { at: usize, value: u64 },
    Bind { at: usize, name: Seq<u8> },
    Skip,
}

impl View for RelocAction {
    type V = RelocActionView;

    open spec fn view(&self) -> RelocActionView {
        match self {
            RelocAction::Write { at, value } => RelocActionView::Write { at: *at, value: *value },
            RelocAction::Bind { at, name } => RelocActionView::Bind { at: *at, name: name@ },
            RelocAction::Skip => RelocActionView::Skip,
        }
    }
}

/// The address `offset` bytes into an object based at `base`.
pub open spec fn spec_place(base: usize, offset: u64) -> Option<usize> {
    if base + (offset as usize) > usize::MAX { None } else { Some((base + (offset as usize)) as usize) }
}

/// What `rel` does to an object loaded at `base`, with `symbol` the dynamic
/// symbol it names (its name, if any, and whether it is weak), if that was found.
pub open spec fn spec_relocation_with(rel: DynRelocation, symbol: Option<(Option<Seq<u8>>, bool)>, base: usize) -> Result<RelocActionView, LoadError> {
    match rel.r_type {
        None => Err(LoadError::NotElfRelocation),
        Some(t) => {
            if t == R_AARCH64_RELATIVE {
                let value = (base as u64) + (rel.addend as u64);
                if value > u64::MAX {
                    Err(LoadError::Overflow)
                } else {
                    match spec_place(base, rel.offset) {
                        None => Err(LoadError::Overflow),
                        Some(at) => Ok(RelocActionView::Write { at, value: value as u64 }),
                    }
                }
            } else if t == R_AARCH64_GLOB_DAT || t == R_AARCH64_JUMP_SLOT {
                match rel.symbol {
                    None => Err(LoadError::NonSymbolTarget),
                    Some(_) => match symbol {
                        None => Err(LoadError::MissingSymbol),
                        Some((name, weak)) => {
                            if weak {
                                Ok(RelocActionView::Skip)
                            } else {
                                match name {
                                    None => Err(LoadError::MissingName),
                                    Some(n) => match spec_place(base, rel.offset) {
                                        None => Err(LoadError::Overflow),
                                        Some(at) => Ok(RelocActionView::Bind { at, name: n }),
                                    },
                                }
                            }
                        },
                    },
                }
            } else {
                Err(LoadError::UnsupportedRelocation(t))
            }
        },
    }
}

/// The dynamic symbol of `data` that `rel` names.
pub open spec fn symbol_of(data: Seq<u8>, rel: DynRelocation) -> Option<(Option<Seq<u8>>, bool)> {
    match rel.symbol {
        Some(index) => elf_dynamic_symbol(data, index),
        None => None,
    }
}

/// What `rel` does to the object `data` loaded at `base`.
pub open spec fn spec_relocation(data: Seq<u8>, rel: DynRelocation, base: usize) -> Result<RelocActionView, LoadError> {
    spec_relocation_with(rel, symbol_of(data, rel), base)
}

/// The address `offset` bytes into an object based at `base`, if it is one.
pub fn place(base: usize, offset: u64) -> (r: Option<usize>)
    ensures
        r == spec_place(base, offset),
{
    let off = offset as usize;
    if off > usize::MAX - base { None } else { Some(base + off) }
}

/// Whether `rel` is a GOT or PLT relocation, which names a symbol.
fn names_symbol(rel: &DynRelocation) -> (r: bool)
    ensures
        r == (rel.r_type matches Some(t) && (t == R_AARCH64_GLOB_DAT || t == R_AARCH64_JUMP_SLOT)),
{
    match rel.r_type {
        Some(t) => t == R_AARCH64_GLOB_DAT || t == R_AARCH64_JUMP_SLOT,
        None => false,
    }
}

/// What the dynamic relocation `rel` does to an object loaded at `base`, with
/// `symbol` the dynamic symbol it names, if found: a relative relocation writes
/// the base plus the addend; a GOT or PLT relocation writes the address of its
/// symbol, unless the symbol is weak; other relocations are not supported.
pub fn apply_relocation(rel: &DynRelocation, symbol: Option<DynSymbol>, base: usize) -> (r: Result<RelocAction, LoadError>)
    ensures
        match r {
            Ok(a) => spec_relocation_with(*rel, symbol_view(symbol), base) == Ok::<RelocActionView, LoadError>(a@),
            Err(e) => spec_relocation_with(*rel, symbol_view(symbol), base) == Err::<RelocActionView, LoadError>(e),
        },
{
    let t = match rel.r_type {
        None => return Err(LoadError::NotElfRelocation),
        Some(t) => t,
    };
    if t == R_AARCH64_RELATIVE {
        let addend = rel.addend as u64;
        if addend > u64::MAX - (base as u64) {
            return Err(LoadError::Overflow);
        }
        let value = (base as u64) + addend;
        match place(base, rel.offset) {
            None => Err(LoadError::Overflow),
            Some(at) => Ok(RelocAction::Write { at, value }),
        }
    } else if t == R_AARCH64_GLOB_DAT || t == R_AARCH64_JUMP_SLOT {
        if rel.symbol.is_none() {
            return Err(LoadError::NonSymbolTarget);
        }
        let sym = match symbol {
            None => return Err(LoadError::MissingSymbol),
            Some(s) => s,
        };
        if sym.weak {
            return Ok(RelocAction::Skip);
        }
        let name = match sym.name {
            None => return Err(LoadError::MissingName),
            Some(n) => n,
        };
        match place(base, rel.offset) {
            None => Err(LoadError::Overflow),
            Some(at) => Ok(RelocAction::Bind { at, name }),
        }
    } else {
        Err(LoadError::UnsupportedRelocation(t))
    }
}

/// The view of a symbol that may be missing.
pub open spec fn symbol_view(symbol: Option<DynSymbol>) -> Option<(Option<Seq<u8>>, bool)> {
    match symbol {
        Some(s) => Some(dyn_symbol_view(s)),
        None => None,
    }
}

/// What the dynamic relocation `rel` of the object `data`, loaded at `base`,
/// does (see `apply_relocation`); the symbol it names is read from `data`.
pub fn relocation_action(data: &[u8], rel: &DynRelocation, base: usize) -> (r: Result<RelocAction, LoadError>)
    ensures
        match r {
            Ok(a) => spec_relocation(data@, *rel, base) == Ok::<RelocActionView, LoadError>(a@),
            Err(e) => spec_relocation(data@, *rel, base) == Err::<RelocActionView, LoadError>(e),
        },
{
    let symbol = match rel.symbol {
        Some(index) => if names_symbol(rel) { read_dynamic_symbol(data, index) } else { None },
        None => None,
    };
    apply_relocation(rel, symbol, base)
}

/// The actions of `rels` in order, or the error of the first that fails.
pub open spec fn spec_relocations(data: Seq<u8>, rels: Seq<DynRelocation>, base: usize) -> Result<Seq<RelocActionView>, LoadError>
    decreases rels.len(),
{
    if rels.len() == 0 {
        Ok(Seq::empty())
    } else {
        match spec_relocations(data, rels.drop_last(), base) {
            Err(e) => Err(e),
            Ok(done) => match spec_relocation(data, rels.last(), base) {
                Err(e) => Err(e),
                Ok(a) => Ok(done.push(a)),
            },
        }
    }
}

/// The actions of all dynamic relocations of `data` loaded at `base`.
pub open spec fn spec_relocation_actions(data: Seq<u8>, base: usize) -> Result<Seq<RelocActionView>, LoadError> {
    match elf_dynamic_relocations(data) {
        None => Err(LoadError::Malformed),
        Some(rels) => spec_relocations(data, rels, base),
    }
}

/// What the dynamic relocations of the object `data`, loaded at `base`, do, in
/// the order the file lists them; the error of the first one that cannot be
/// applied.
pub fn relocation_actions(data: &[u8], base: usize) -> (r: Result<Vec<RelocAction>, LoadError>)
    ensures
        match r {
            Ok(v) => spec_relocation_actions(data@, base) == Ok::<Seq<RelocActionView>, LoadError>(v@.map_values(|a: RelocAction| a@)),
            Err(e) => spec_relocation_actions(data@, base) == Err::<Seq<RelocActionView>, LoadError>(e),
        },
{
    let rels = match read_dynamic_relocations(data) {
        None => return Err(LoadError::Malformed),
        Some(v) => v,
    };
    let mut out: Vec<RelocAction> = Vec::new();
    let mut i: usize = 0;
    assert(rels@.take(0) =~= Seq::<DynRelocation>::empty());
    assert(out@.map_values(|a: RelocAction| a@) =~= Seq::<RelocActionView>::empty());
    while i < rels.len()
        invariant
            i <= rels.len(),
            elf_dynamic_relocations(data@) == Some(rels@),
            spec_relocations(data@, rels@.take(i as int), base) == Ok::<Seq<RelocActionView>, LoadError>(out@.map_values(|a: RelocAction| a@)),
        decreases rels.len() - i,
    {
        assert(rels@.take(i as int + 1).drop_last() == rels@.take(i as int));
        let a = relocation_action(data, &rels[i], base);
        match a {
            Err(e) => {
                proof {
                    lemma_relocations_fail(data@, rels@, base, i as int);
                }
                return Err(e);
            },
            Ok(a) => {
                let ghost before = out@;
                out.push(a);
                assert(out@.map_values(|a: RelocAction| a@) == before.map_values(|a: RelocAction| a@).push(a@));
            },
        }
        i = i + 1;
    }
    assert(rels@.take(rels.len() as int) == rels@);
    Ok(out)
}

/// Once a relocation fails, so do the relocations that include it, with its error.
proof fn lemma_relocations_fail(data: Seq<u8>, rels: Seq<DynRelocation>, base: usize, i: int)
    requires
        0 <= i < rels.len(),
        spec_relocations(data, rels.take(i), base) is Ok,
        spec_relocation(data, rels[i], base) is Err,
    ensures
        spec_relocations(data, rels, base) == Err::<Seq<RelocActionView>, LoadError>(
            spec_relocation(data, rels[i], base)->Err_0,
        ),
    decreases rels.len() - i,
{
    if i + 1 == rels.len() {
        assert(rels.drop_last() == rels.take(i));
    } else {
        assert(rels.drop_last().take(i) == rels.take(i));
        lemma_relocations_fail(data, rels.drop_last(), base, i);
    }
}

// ---------------------------------------------------------------------------
// Init and fini functions
// ---------------------------------------------------------------------------

/// `DT_NEEDED`: the name of a library the object needs.
pub const DT_NEEDED: i64 = 1;
/// `DT_INIT`: the address of an init function.
pub const DT_INIT: i64 = 12;
/// `DT_FINI`: the address of a fini function.
pub const DT_FINI: i64 = 13;
/// `DT_INIT_ARRAY`: the address of the array of init functions.
pub const DT_INIT_ARRAY: i64 = 25;
/// `DT_FINI_ARRAY`: the address of the array of fini functions.
pub const DT_FINI_ARRAY: i64 = 26;
/// `DT_INIT_ARRAYSZ`: the size in bytes of the array of init functions.
pub const DT_INIT_ARRAYSZ: i64 = 27;
/// `DT_FINI_ARRAYSZ`: the size in bytes of the array of fini functions.
pub const DT_FINI_ARRAYSZ: i64 = 28;

/// An array of function addresses in the loaded object.
#[derive(Clone, Copy, PartialEq, Eq, Structural, Debug)]
pub struct FnArray {
    /// Where the array is.
    pub address: u64,
    /// How many addresses it holds.
    pub count: u64,
}

/// The functions to run when the object is loaded and when it is unloaded.
pub struct InitFini {
    /// The `DT_INIT` functions, the last entry first; the init array follows them.
    pub init: Vec<u64>,
    /// The `DT_FINI` functions, the last entry first; the fini array follows them.
    pub fini: Vec<u64>,
    /// The init array, when both its address and its size are given.
    pub init_array: Option<FnArray>,
    /// The fini array, when both its address and its size are given.
    pub fini_array: Option<FnArray>,
}

/// The addresses (base plus value) of the entries tagged `tag`, the last first.
pub open spec fn tagged_addresses_reversed(entries: Seq<DynamicEntry>, tag: i64, base: u64) -> Seq<u64>
    decreases entries.len(),
{
    if entries.len() == 0 {
        Seq::empty()
    } else {
        let rest = tagged_addresses_reversed(entries.drop_last(), tag, base);
        if entries.last().tag == tag {
            seq![(base + entries.last().val) as u64] + rest
        } else {
            rest
        }
    }
}

/// The value of the last entry tagged `tag`.
pub open spec fn last_value(entries: Seq<DynamicEntry>, tag: i64) -> Option<u64>
    decreases entries.len(),
{
    if entries.len() == 0 {
        None
    } else if entries.last().tag == tag {
        Some(entries.last().val)
    } else {
        last_value(entries.drop_last(), tag)
    }
}

/// The array whose address and size are given by the last entries tagged
/// `ptr_tag` and `size_tag`.
pub open spec fn spec_fn_array(entries: Seq<DynamicEntry>, base: u64, ptr_tag: i64, size_tag: i64) -> Option<FnArray> {
    match (last_value(entries, size_tag), last_value(entries, ptr_tag)) {
        (Some(size), Some(ptr)) => Some(FnArray { address: (base + ptr) as u64, count: size / 8 }),
        _ => None,
    }
}

/// Every entry's value, added to `base`, fits in 64 bits.
pub open spec fn values_fit(entries: Seq<DynamicEntry>, base: u64) -> bool {
    forall|i: int| 0 <= i < entries.len() ==> base + (#[trigger] entries[i]).val <= u64::MAX
}

/// The init and fini functions named by the dynamic entries `entries` of an
/// object loaded at `base`: the `DT_INIT` (`DT_FINI`) functions, each new one put
/// first, and the array given by the last `DT_INIT_ARRAY` (`DT_FINI_ARRAY`) and
/// `DT_INIT_ARRAYSZ` (`DT_FINI_ARRAYSZ`) entries, of 8-byte addresses. Every
/// entry's value is taken as an address, so one that does not fit fails.
pub fn init_fini_layout(entries: &Vec<DynamicEntry>, base: u64) -> (r: Result<InitFini, LoadError>)
    ensures
        r is Err <==> !values_fit(entries@, base),
        r matches Err(e) ==> e == LoadError::Overflow,
        r matches Ok(f) ==> {
            &&& f.init@ == tagged_addresses_reversed(entries@, DT_INIT, base)
            &&& f.fini@ == tagged_addresses_reversed(entries@, DT_FINI, base)
            &&& f.init_array == spec_fn_array(entries@, base, DT_INIT_ARRAY, DT_INIT_ARRAYSZ)
            &&& f.fini_array == spec_fn_array(entries@, base, DT_FINI_ARRAY, DT_FINI_ARRAYSZ)
        },
{
    let mut init: Vec<u64> = Vec::new();
    let mut fini: Vec<u64> = Vec::new();
    let mut init_size: Option<u64> = None;
    let mut fini_size: Option<u64> = None;
    let mut init_ptr: Option<u64> = None;
    let mut fini_ptr: Option<u64> = None;
    let mut i: usize = 0;
    while i < entries.len()
        invariant
            i <= entries.len(),
            values_fit(entries@.take(i as int), base),
            init@ == tagged_addresses_reversed(entries@.take(i as int), DT_INIT, base),
            fini@ == tagged_addresses_reversed(entries@.take(i as int), DT_FINI, base),
            init_size == last_value(entries@.take(i as int), DT_INIT_ARRAYSZ),
            fini_size == last_value(entries@.take(i as int), DT_FINI_ARRAYSZ),
            init_ptr == last_value(entries@.take(i as int), DT_INIT_ARRAY),
            fini_ptr == last_value(entries@.take(i as int), DT_FINI_ARRAY),
        decreases entries.len() - i,
    {
        let ghost prefix = entries@.take(i as int + 1);
        assert(prefix.drop_last() == entries@.take(i as int));
        assert(prefix.last() == entries@[i as int]);
        let d = entries[i];
        if d.val > u64::MAX - base {
            assert(!values_fit(entries@, base)) by {
                assert(base + entries@[i as int].val > u64::MAX);
            }
            return Err(LoadError::Overflow);
        }
        let addr_val = base + d.val;
        if d.tag == DT_INIT {
            let ghost before = init@;
            init.insert(0, addr_val);
            assert(init@ == seq![addr_val] + before);
        } else if d.tag == DT_FINI {
            let ghost before = fini@;
            fini.insert(0, addr_val);
            assert(fini@ == seq![addr_val] + before);
        } else if d.tag == DT_INIT_ARRAY {
            init_ptr = Some(d.val);
        } else if d.tag == DT_FINI_ARRAY {
            fini_ptr = Some(d.val);
        } else if d.tag == DT_INIT_ARRAYSZ {
            init_size = Some(d.val);
        } else if d.tag == DT_FINI_ARRAYSZ {
            fini_size = Some(d.val);
        }
        i = i + 1;
        assert(values_fit(entries@.take(i as int), base)) by {
            assert forall|j: int| 0 <= j < i implies base + (#[trigger] entries@.take(i as int)[j]).val <= u64::MAX by {
                if j < i - 1 {
                    assert(entries@.take(i as int)[j] == entries@.take(i - 1)[j]);
                }
            }
        }
    }
    assert(entries@.take(entries.len() as int) == entries@);
    proof {
        lemma_last_value_fits(entries@, base, DT_INIT_ARRAY);
        lemma_last_value_fits(entries@, base, DT_FINI_ARRAY);
    }
    let init_array = match (init_size, init_ptr) {
        (Some(size), Some(ptr)) => Some(FnArray { address: base + ptr, count: size / 8 }),
        _ => None,
    };
    let fini_array = match (fini_size, fini_ptr) {
        (Some(size), Some(ptr)) => Some(FnArray { address: base + ptr, count: size / 8 }),
        _ => None,
    };
    Ok(InitFini { init, fini, init_array, fini_array })
}

proof fn lemma_last_value_fits(entries: Seq<DynamicEntry>, base: u64, tag: i64)
    requires
        values_fit(entries, base),
    ensures
        last_value(entries, tag) matches Some(v) ==> base + v <= u64::MAX,
    decreases entries.len(),
{
    if entries.len() > 0 {
        assert(base + entries[entries.len() - 1].val <= u64::MAX);
        let rest = entries.drop_last();
        assert forall|i: int| 0 <= i < rest.len() implies base + (#[trigger] rest[i]).val <= u64::MAX by {
            assert(rest[i] == entries[i]);
        }
        lemma_last_value_fits(rest, base, tag);
    }
}

// ---------------------------------------------------------------------------
// Exported symbols
// ---------------------------------------------------------------------------

/// `SHN_UNDEF`: the symbol is not defined here.
pub const SHN_UNDEF: u16 = 0;
/// `STB_GLOBAL`.
pub const STB_GLOBAL: u8 = 1;
/// `STB_WEAK`.
pub const STB_WEAK: u8 = 2;
/// `STV_DEFAULT`.
pub const STV_DEFAULT: u8 = 0;

/// The symbol is defined here, global or weak, and of default visibility.
pub open spec fn is_exported(s: SymbolEntry) -> bool {
    s.shndx != SHN_UNDEF && (s.bind == STB_GLOBAL || s.bind == STB_WEAK) && s.other == STV_DEFAULT
}

/// A symbol an object makes available to others.
#[derive(Clone, Debug)]
pub struct Export {
    pub name: Vec<u8>,
    /// The symbol's address in the loaded object.
    pub address: usize,
}

/// The exports of `syms` for an object at `base`, in table order, or the error of
/// the first exported symbol without a name or with an address out of range.
pub open spec fn spec_exports(syms: Seq<SymbolEntry>, base: usize) -> Result<Seq<(Seq<u8>, usize)>, LoadError>
    decreases syms.len(),
{
    if syms.len() == 0 {
        Ok(Seq::empty())
    } else {
        match spec_exports(syms.drop_last(), base) {
            Err(e) => Err(e),
            Ok(done) => {
                let s = syms.last();
                if !is_exported(s) {
                    Ok(done)
                } else {
                    match s.name {
                        None => Err(LoadError::MissingName),
                        Some(n) => match spec_place(base, s.value) {
                            None => Err(LoadError::Overflow),
                            Some(a) => Ok(done.push((n@, a))),
                        },
                    }
                }
            },
        }
    }
}

/// The view of an export: its name and address.
pub open spec fn export_view(e: Export) -> (Seq<u8>, usize) {
    (e.name@, e.address)
}

/// The symbols of the object `data` that others may use once it is loaded at
/// `base` (see `exports_from`), from its symbol table.
pub fn exported_symbols(data: &[u8], base: usize) -> (r: Result<Vec<Export>, LoadError>)
    ensures
        match r {
            Ok(v) => elf_symbols(data@) matches Some(syms)
                && spec_exports(syms, base) == Ok::<Seq<(Seq<u8>, usize)>, LoadError>(v@.map_values(|e: Export| export_view(e))),
            Err(e) => match elf_symbols(data@) {
                None => e == LoadError::Malformed,
                Some(syms) => spec_exports(syms, base) == Err::<Seq<(Seq<u8>, usize)>, LoadError>(e),
            },
        },
{
    match read_symbols(data) {
        None => Err(LoadError::Malformed),
        Some(syms) => exports_from(&syms, base),
    }
}

/// The symbols among `syms` that others may use once their object is loaded at
/// `base`: those defined in it, global or weak, of default visibility, each at
/// the base plus its value; the error of the first such symbol without a name or
/// with an address out of range.
pub fn exports_from(syms: &Vec<SymbolEntry>, base: usize) -> (r: Result<Vec<Export>, LoadError>)
    ensures
        match r {
            Ok(v) => spec_exports(syms@, base) == Ok::<Seq<(Seq<u8>, usize)>, LoadError>(v@.map_values(|e: Export| export_view(e))),
            Err(e) => spec_exports(syms@, base) == Err::<Seq<(Seq<u8>, usize)>, LoadError>(e),
        },
{
    let mut out: Vec<Export> = Vec::new();
    let mut i: usize = 0;
    assert(syms@.take(0) =~= Seq::<SymbolEntry>::empty());
    assert(out@.map_values(|e: Export| export_view(e)) =~= Seq::<(Seq<u8>, usize)>::empty());
    while i < syms.len()
        invariant
            i <= syms.len(),
            spec_exports(syms@.take(i as int), base) == Ok::<Seq<(Seq<u8>, usize)>, LoadError>(out@.map_values(|e: Export| export_view(e))),
        decreases syms.len() - i,
    {
        let ghost prefix = syms@.take(i as int + 1);
        assert(prefix.drop_last() == syms@.take(i as int));
        assert(prefix.last() == syms@[i as int]);
        let s = &syms[i];
        if s.shndx != SHN_UNDEF && (s.bind == STB_GLOBAL || s.bind == STB_WEAK) && s.other == STV_DEFAULT {
            let name = match &s.name {
                None => {
                    proof {
                        lemma_exports_fail(syms@, base, i as int);
                    }
                    return Err(LoadError::MissingName);
                },
                Some(n) => n.clone(),
            };
            assert(name@ =~= s.name->Some_0@);
            let address = match place(base, s.value) {
                None => {
                    proof {
                        lemma_exports_fail(syms@, base, i as int);
                    }
                    return Err(LoadError::Overflow);
                },
                Some(a) => a,
            };
            let ghost before = out@;
            out.push(Export { name, address });
            assert(out@.map_values(|e: Export| export_view(e)) =~= before.map_values(|e: Export| export_view(e)).push((s.name->Some_0@, address)));
        }
        i = i + 1;
    }
    assert(syms@.take(syms.len() as int) == syms@);
    Ok(out)
}

/// Once an exported symbol fails, so does every longer table, with its error.
proof fn lemma_exports_fail(syms: Seq<SymbolEntry>, base: usize, i: int)
    requires
        0 <= i < syms.len(),
        spec_exports(syms.take(i), base) is Ok,
        spec_exports(syms.take(i + 1), base) is Err,
    ensures
        spec_exports(syms, base) == spec_exports(syms.take(i + 1), base),
    decreases syms.len() - i,
{
    if i + 1 == syms.len() {
        assert(syms.take(i + 1) == syms);
    } else {
        assert(syms.drop_last().take(i) == syms.take(i));
        assert(syms.drop_last().take(i + 1) == syms.take(i + 1));
        lemma_exports_fail(syms.drop_last(), base, i);
    }
}

// ---------------------------------------------------------------------------
// Needed libraries
// ---------------------------------------------------------------------------

/// The values of the `DT_NEEDED` entries among `entries`, in order.
pub open spec fn needed_vals(entries: Seq<DynamicEntry>) -> Seq<u64>
    decreases entries.len(),
{
    if entries.len() == 0 {
        Seq::empty()
    } else {
        needed_vals(entries.drop_last()) + if entries.last().tag == DT_NEEDED {
            seq![entries.last().val]
        } else {
            Seq::empty()
        }
    }
}

/// The string-table offsets of the names of the libraries that `entries` (the
/// dynamic entries of an object) say it needs: the values of its `DT_NEEDED`
/// entries, in order.
pub fn needed_values(entries: &Vec<DynamicEntry>) -> (r: Vec<u64>)
    ensures
        r@ == needed_vals(entries@),
{
    let mut out: Vec<u64> = Vec::new();
    let mut i: usize = 0;
    assert(entries@.take(0) =~= Seq::<DynamicEntry>::empty());
    while i < entries.len()
        invariant
            i <= entries.len(),
            out@ == needed_vals(entries@.take(i as int)),
        decreases entries.len() - i,
    {
        let ghost prefix = entries@.take(i as int + 1);
        assert(prefix.drop_last() == entries@.take(i as int));
        assert(prefix.last() == entries@[i as int]);
        let ghost before = out@;
        if entries[i].tag == DT_NEEDED {
            out.push(entries[i].val);
        }
        assert(out@ =~= needed_vals(prefix));
        i = i + 1;
    }
    assert(entries@.take(entries.len() as int) == entries@);
    out
}

/// The dynamic strings of `data` at `vals`, in order, or the error of the first
/// that is missing.
pub open spec fn dynamic_strings(data: Seq<u8>, vals: Seq<u64>) -> Result<Seq<Seq<u8>>, LoadError>
    decreases vals.len(),
{
    if vals.len() == 0 {
        Ok(Seq::empty())
    } else {
        match dynamic_strings(data, vals.drop_last()) {
            Err(e) => Err(e),
            Ok(done) => match elf_dynamic_string(data, vals.last()) {
                None => Err(LoadError::MissingName),
                Some(n) => Ok(done.push(n)),
            },
        }
    }
}

/// The names of the libraries the object `data` with dynamic entries `entries` needs.
pub open spec fn spec_needed(data: Seq<u8>, entries: Seq<DynamicEntry>) -> Result<Seq<Seq<u8>>, LoadError> {
    dynamic_strings(data, needed_vals(entries))
}

/// The names of the libraries the object `data` needs: the strings of its
/// `DT_NEEDED` entries among `entries`, in order.
pub fn needed_libraries(data: &[u8], entries: &Vec<DynamicEntry>) -> (r: Result<Vec<Vec<u8>>, LoadError>)
    ensures
        match r {
            Ok(v) => spec_needed(data@, entries@) == Ok::<Seq<Seq<u8>>, LoadError>(v@.map_values(|n: Vec<u8>| n@)),
            Err(e) => spec_needed(data@, entries@) == Err::<Seq<Seq<u8>>, LoadError>(e),
        },
{
    let vals = needed_values(entries);
    let mut out: Vec<Vec<u8>> = Vec::new();
    let mut i: usize = 0;
    assert(vals@.take(0) =~= Seq::<u64>::empty());
    assert(out@.map_values(|n: Vec<u8>| n@) =~= Seq::<Seq<u8>>::empty());
    while i < vals.len()
        invariant
            i <= vals.len(),
            vals@ == needed_vals(entries@),
            dynamic_strings(data@, vals@.take(i as int)) == Ok::<Seq<Seq<u8>>, LoadError>(out@.map_values(|n: Vec<u8>| n@)),
        decreases vals.len() - i,
    {
        let ghost prefix = vals@.take(i as int + 1);
        assert(prefix.drop_last() == vals@.take(i as int));
        assert(prefix.last() == vals@[i as int]);
        match read_dynamic_string(data, vals[i]) {
            None => {
                proof {
                    lemma_strings_fail(data@, vals@, i as int);
                }
                return Err(LoadError::MissingName);
            },
            Some(n) => {
                let ghost before = out@;
                let ghost name = n@;
                out.push(n);
                assert(out@.map_values(|n: Vec<u8>| n@) =~= before.map_values(|n: Vec<u8>| n@).push(name));
            },
        }
        i = i + 1;
    }
    assert(vals@.take(vals.len() as int) == vals@);
    Ok(out)
}

proof fn lemma_strings_fail(data: Seq<u8>, vals: Seq<u64>, i: int)
    requires
        0 <= i < vals.len(),
        dynamic_strings(data, vals.take(i)) is Ok,
        dynamic_strings(data, vals.take(i + 1)) is Err,
    ensures
        dynamic_strings(data, vals) == dynamic_strings(data, vals.take(i + 1)),
    decreases vals.len() - i,
{
    if i + 1 == vals.len() {
        assert(vals.take(i + 1) == vals);
    } else {
        assert(vals.drop_last().take(i) == vals.take(i));
        assert(vals.drop_last().take(i + 1) == vals.take(i + 1));
        lemma_strings_fail(data, vals.drop_last(), i);
    }
}

/// `path` ends with `name`.
pub open spec fn ends_with(path: Seq<u8>, name: Seq<u8>) -> bool {
    name.len() <= path.len() && path.subrange(path.len() - name.len(), path.len() as int) == name
}

/// Whether a library called `name` is among those loaded from `paths`: whether a
/// path ends with the name.
pub fn is_loaded(paths: &Vec<Vec<u8>>, name: &[u8]) -> (r: bool)
    ensures
        r == exists|i: int| 0 <= i < paths.len() && ends_with(#[trigger] paths@[i]@, name@),
{
    let mut i: usize = 0;
    while i < paths.len()
        invariant
            i <= paths.len(),
            forall|j: int| 0 <= j < i ==> !ends_with(#[trigger] paths@[j]@, name@),
        decreases paths.len() - i,
    {
        if path_ends_with(&paths[i], name) {
            return true;
        }
        i = i + 1;
    }
    false
}

/// Whether `path` ends with `name`.
pub fn path_ends_with(path: &Vec<u8>, name: &[u8]) -> (r: bool)
    ensures
        r == ends_with(path@, name@),
{
    if name.len() > path.len() {
        return false;
    }
    let start = path.len() - name.len();
    let mut i: usize = 0;
    while i < name.len()
        invariant
            i <= name.len(),
            start == path.len() - name.len(),
            forall|j: int| 0 <= j < i ==> path@[start + j] == name@[j],
        decreases name.len() - i,
    {
        if path[start + i] != name[i] {
            assert(path@.subrange(start as int, path.len() as int)[i as int] != name@[i as int]);
            return false;
        }
        i = i + 1;
    }
    assert(path@.subrange(start as int, path.len() as int) =~= name@);
    true
}

// ---------------------------------------------------------------------------
// The global symbol table
// ---------------------------------------------------------------------------

/// The map a list of bindings denotes: each binding replaces earlier ones of
/// the same name.
pub open spec fn bindings_map(s: Seq<(Vec<u8>, usize)>) -> Map<Seq<u8>, usize>
    decreases s.len(),
{
    if s.len() == 0 {
        Map::empty()
    } else {
        bindings_map(s.drop_last()).insert(s.last().0@, s.last().1)
    }
}

/// The symbols that loaded objects and libraries make available, by name.
pub struct SymbolPool {
    bindings: Vec<(Vec<u8>, usize)>,
}

impl View for SymbolPool {
    type V = Map<Seq<u8>, usize>;

    closed spec fn view(&self) -> Map<Seq<u8>, usize> {
        bindings_map(self.bindings@)
    }
}

proof fn lemma_bindings_skip(s: Seq<(Vec<u8>, usize)>, n: int, k: Seq<u8>)
    requires
        0 <= n <= s.len(),
        forall|j: int| n <= j < s.len() ==> (#[trigger] s[j]).0@ != k,
    ensures
        bindings_map(s).dom().contains(k) == bindings_map(s.take(n)).dom().contains(k),
        bindings_map(s.take(n)).dom().contains(k) ==> bindings_map(s)[k] == bindings_map(s.take(n))[k],
    decreases s.len() - n,
{
    if n == s.len() {
        assert(s.take(n) == s);
    } else {
        let rest = s.drop_last();
        assert(rest.take(n) == s.take(n));
        assert forall|j: int| n <= j < rest.len() implies (#[trigger] rest[j]).0@ != k by {
            assert(rest[j] == s[j]);
        }
        assert(s[s.len() - 1].0@ != k);
        lemma_bindings_skip(rest, n, k);
    }
}

/// Whether the byte strings `a` and `b` are equal.
pub fn bytes_equal(a: &[u8], b: &[u8]) -> (r: bool)
    ensures
        r == (a@ == b@),
{
    if a.len() != b.len() {
        return false;
    }
    let mut i: usize = 0;
    while i < a.len()
        invariant
            i <= a.len(),
            a.len() == b.len(),
            forall|j: int| 0 <= j < i ==> a@[j] == b@[j],
        decreases a.len() - i,
    {
        if a[i] != b[i] {
            return false;
        }
        i = i + 1;
    }
    assert(a@ =~= b@);
    true
}

impl SymbolPool {
    /// An empty table.
    pub fn new() -> (r: SymbolPool)
        ensures
            r@ == Map::<Seq<u8>, usize>::empty(),
    {
        SymbolPool { bindings: Vec::new() }
    }

    /// The address bound to `name`, if any.
    pub fn lookup(&self, name: &[u8]) -> (r: Option<usize>)
        ensures
            r == (if self@.dom().contains(name@) { Some(self@[name@]) } else { None::<usize> }),
    {
        let mut i: usize = self.bindings.len();
        while i > 0
            invariant
                i <= self.bindings.len(),
                forall|j: int| i <= j < self.bindings.len() ==> (#[trigger] self.bindings@[j]).0@ != name@,
            decreases i,
        {
            if bytes_equal(self.bindings[i - 1].0.as_slice(), name) {
                proof {
                    let s = self.bindings@;
                    lemma_bindings_skip(s, i as int, name@);
                    assert(s.take(i as int).drop_last() == s.take(i - 1));
                    assert(s.take(i as int).last() == s[i - 1]);
                }
                return Some(self.bindings[i - 1].1);
            }
            i = i - 1;
        }
        proof {
            lemma_bindings_skip(self.bindings@, 0, name@);
            assert(self.bindings@.take(0).len() == 0);
        }
        None
    }

    /// Binds `name` to `address`, replacing an earlier binding of the name.
    pub fn insert(&mut self, name: Vec<u8>, address: usize)
        ensures
            final(self)@ == old(self)@.insert(name@, address),
    {
        let ghost before = self.bindings@;
        self.bindings.push((name, address));
        assert(self.bindings@.drop_last() == before);
    }

    /// Binds each export in turn.
    pub fn insert_exports(&mut self, exports: &Vec<Export>)
        ensures
            final(self)@ == with_bindings(old(self)@, exports@.map_values(|e: Export| export_view(e))),
    {
        let ghost start = self@;
        let mut i: usize = 0;
        while i < exports.len()
            invariant
                i <= exports.len(),
                self@ == with_bindings(start, exports@.map_values(|e: Export| export_view(e)).take(i as int)),
            decreases exports.len() - i,
        {
            let ghost all = exports@.map_values(|e: Export| export_view(e));
            assert(all.take(i as int + 1).drop_last() == all.take(i as int));
            let e = &exports[i];
            let name = e.name.clone();
            assert(name@ =~= e.name@);
            self.insert(name, e.address);
            i = i + 1;
        }
        assert(exports@.map_values(|e: Export| export_view(e)).take(exports.len() as int)
            == exports@.map_values(|e: Export| export_view(e)));
    }
}

/// The next step in resolving a symbol name.
#[derive(Clone, Copy, PartialEq, Eq, Structural, Debug)]
pub enum ResolveStep {
    /// The name is bound to this address.
    Bound(usize),
    /// Ask the wrapped library with this index; an address it gives is bound to the name.
    AskLibrary(usize),
    /// No binding, and every wrapped library was asked.
    Unresolved,
}

impl SymbolPool {
    /// What to do next to resolve `name` when the first `libs_tried` of `lib_count`
    /// wrapped libraries did not have it: the name's binding, if it has one; else ask
    /// the next library; else give up.
    pub fn resolve_step(&self, name: &[u8], libs_tried: usize, lib_count: usize) -> (r: ResolveStep)
        ensures
            r == (if self@.dom().contains(name@) {
                ResolveStep::Bound(self@[name@])
            } else if libs_tried < lib_count {
                ResolveStep::AskLibrary(libs_tried)
            } else {
                ResolveStep::Unresolved
            }),
    {
        match self.lookup(name) {
            Some(addr) => ResolveStep::Bound(addr),
            None => if libs_tried < lib_count { ResolveStep::AskLibrary(libs_tried) } else { ResolveStep::Unresolved },
        }
    }
}

/// `m` with each of `s` bound in turn.
pub open spec fn with_bindings(m: Map<Seq<u8>, usize>, s: Seq<(Seq<u8>, usize)>) -> Map<Seq<u8>, usize>
    decreases s.len(),
{
    if s.len() == 0 {
        m
    } else {
        with_bindings(m, s.drop_last()).insert(s.last().0, s.last().1)
    }
}

/// After binding a name, looking it up gives the address it was bound to, and
/// every other name keeps its binding, or its absence.
pub proof fn lemma_symbol_pool_read_after_write(
    before: Map<Seq<u8>, usize>,
    after: Map<Seq<u8>, usize>,
    name: Seq<u8>,
    address: usize,
    other: Seq<u8>,
)
    requires
        after == before.insert(name, address),
    ensures
        after.dom().contains(name),
        after[name] == address,
        other != name ==> (after.dom().contains(other) == before.dom().contains(other)),
        other != name && before.dom().contains(other) ==> after[other] == before[other],
{
}

/// A symbol that an object defines (global or weak, default visibility) is found, once
/// the object's exports are bound into any table, at the object's base plus the
/// symbol's value, unless a later exported symbol of the table has the same name.
pub proof fn lemma_defined_symbol_found(syms: Seq<SymbolEntry>, base: usize, m: Map<Seq<u8>, usize>, k: int)
    requires
        spec_exports(syms, base) is Ok,
        0 <= k < syms.len(),
        is_exported(syms[k]),
        syms[k].name is Some,
        forall|j: int| k < j < syms.len() && is_exported(#[trigger] syms[j]) && syms[j].name is Some
            ==> syms[j].name->Some_0@ != syms[k].name->Some_0@,
    ensures
        ({
            let name = syms[k].name->Some_0@;
            let table = with_bindings(m, spec_exports(syms, base)->Ok_0);
            &&& spec_place(base, syms[k].value) is Some
            &&& table.dom().contains(name)
            &&& table[name] == spec_place(base, syms[k].value)->Some_0
        }),
    decreases syms.len(),
{
    let d = syms.drop_last();
    let last = syms.last();
    let name = syms[k].name->Some_0@;
    assert(spec_exports(d, base) is Ok);
    let done = spec_exports(d, base)->Ok_0;
    if k == syms.len() - 1 {
        assert(last == syms[k]);
        let e = (name, spec_place(base, syms[k].value)->Some_0);
        assert(spec_exports(syms, base)->Ok_0 == done.push(e));
        assert(done.push(e).drop_last() == done);
    } else {
        assert forall|j: int| k < j < d.len() && is_exported(#[trigger] d[j]) && d[j].name is Some
            implies d[j].name->Some_0@ != d[k].name->Some_0@ by {
            assert(d[j] == syms[j]);
        }
        assert(d[k] == syms[k]);
        lemma_defined_symbol_found(d, base, m, k);
        if is_exported(last) {
            assert(last == syms[syms.len() - 1]);
            let e = (last.name->Some_0@, spec_place(base, last.value)->Some_0);
            assert(spec_exports(syms, base)->Ok_0 == done.push(e));
            assert(done.push(e).drop_last() == done);
            assert(e.0 != name);
        }
    }
}

// ---------------------------------------------------------------------------
// Entry point
// ---------------------------------------------------------------------------

/// Where execution of the object `data`, loaded at `base`, starts: its entry
/// point relative to the base.
pub fn entry_point(data: &[u8], base: usize) -> (r: Result<usize, LoadError>)
    ensures
        match elf_entry(data@) {
            None => r == Err::<usize, LoadError>(LoadError::Malformed),
            Some(e) => match spec_place(base, e) {
                None => r == Err::<usize, LoadError>(LoadError::Overflow),
                Some(a) => r == Ok::<usize, LoadError>(a),
            },
        },
{
    match read_entry(data) {
        None => Err(LoadError::Malformed),
        Some(e) => match place(base, e) {
            None => Err(LoadError::Overflow),
            Some(a) => Ok(a),
        },
    }
}

} // verus!

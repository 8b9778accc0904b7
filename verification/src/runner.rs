//! Bookkeeping of translated code: which AArch64 address ranges are executable, which
//! 512-byte chunks have been translated and where their x86_64 code lies, and the
//! mapping between AArch64 and x86_64 code addresses in both directions.
use vstd::prelude::*;
use std::collections::HashMap;

verus! {

broadcast use vstd::std_specs::hash::group_hash_axioms;

/// Size in bytes of the AArch64 code translated as one unit.
pub const CHUNK_SIZE: usize = 512;
/// Number of AArch64 instructions in a chunk.
pub const CHUNK_INSTRS: usize = 128;
/// Size in bytes of each executable allocation that translated code is placed in.
pub const EXECUTABLE_ALLOC_SIZE: usize = 16384;
/// Size in bytes of the shadow stack of return addresses.
pub const SHADOW_STACK_SIZE: usize = 4096;

/// A range `[start, end)` of AArch64 code.
#[derive(Clone, Copy, PartialEq, Eq, Structural, Debug)]
pub struct ExecutableRange {
    pub start: usize,
    pub end: usize,
}

/// The translation of one chunk.
pub struct CompiledChunk {
    /// For each AArch64 instruction of the chunk, the byte offset of its translation
    /// in the x86_64 code.
    pub instr_map: Vec<u16>,
    /// Address of the x86_64 code.
    pub addr: usize,
    /// Length in bytes of the x86_64 code.
    pub len: usize,
    /// Index of the first instruction of the end-of-chunk epilogue.
    pub epilogue_offset: u16,
}

impl CompiledChunk {
    /// One offset per instruction, in the order of the instructions, each within the
    /// code, and the code within the address space.
    pub open spec fn wf(&self) -> bool {
        &&& self.instr_map@.len() == CHUNK_INSTRS
        &&& self.addr + self.len <= usize::MAX
        &&& forall|i: int| 0 <= i < CHUNK_INSTRS ==> #[trigger] self.instr_map@[i] <= self.len
        &&& forall|i: int, j: int| 0 <= i <= j < CHUNK_INSTRS ==> #[trigger] self.instr_map@[i] <= #[trigger] self.instr_map@[j]
    }

    /// Whether the chunk is well formed, as `wf` says.
    pub fn is_well_formed(&self) -> (r: bool)
        ensures
            r == self.wf(),
    {
        if self.instr_map.len() != CHUNK_INSTRS || self.len > usize::MAX - self.addr {
            return false;
        }
        let mut i: usize = 0;
        while i < CHUNK_INSTRS
            invariant
                i <= CHUNK_INSTRS,
                self.instr_map@.len() == CHUNK_INSTRS,
                forall|j: int| 0 <= j < i ==> #[trigger] self.instr_map@[j] <= self.len,
                forall|a: int, b: int| 0 <= a <= b < i ==> #[trigger] self.instr_map@[a] <= #[trigger] self.instr_map@[b],
            decreases CHUNK_INSTRS - i,
        {
            if self.instr_map[i] as usize > self.len {
                return false;
            }
            if i > 0 && self.instr_map[i - 1] > self.instr_map[i] {
                return false;
            }
            proof {
                assert forall|a: int, b: int| 0 <= a <= b < i + 1 implies
                    #[trigger] self.instr_map@[a] <= #[trigger] self.instr_map@[b] by {
                    if b == i && a < i {
                        assert(self.instr_map@[a] <= self.instr_map@[i - 1]);
                    }
                }
            }
            i = i + 1;
        }
        true
    }

    /// Whether the x86_64 address `addr` lies in this chunk's code.
    pub open spec fn contains(&self, addr: usize) -> bool {
        self.addr <= addr < self.addr + self.len
    }
}

/// Translated code and the AArch64 code it comes from.
///
/// AArch64 memory is never made executable: its ranges are recorded here, and code in
/// them is translated to x86_64 when it is about to run.
pub struct ExecPool {
    pub exec_ranges: Vec<ExecutableRange>,
    pub executable_map: HashMap<usize, CompiledChunk>,
    /// The chunk addresses in `executable_map`, in the order they were translated.
    pub chunk_order: Vec<usize>,
    pub fully_used_allocs: Vec<usize>,
    /// The allocation currently filled with translated code (0 before the first).
    pub current_alloc: usize,
    pub current_alloc_utilization: usize,
}

/// What `get_exec` found for an AArch64 address.
#[derive(Clone, Copy, PartialEq, Eq, Structural, Debug)]
pub enum ExecLookup {
    /// The address is not in emulated AArch64 code; it is used as it is.
    NotExecutable,
    /// The address of its translation.
    Found(usize),
    /// Its chunk, at this address, has to be translated first.
    NeedsCompile(usize),
}

/// The largest index `j` with `m[j] <= off`, or -1.
pub open spec fn spec_last_le(m: Seq<u16>, off: int) -> int
    decreases m.len(),
{
    if m.len() == 0 {
        -1
    } else if m.last() <= off {
        m.len() - 1
    } else {
        spec_last_le(m.drop_last(), off)
    }
}

impl ExecPool {
    /// Every recorded chunk is well formed, at a chunk-aligned address, and listed
    /// once in `chunk_order`.
    pub open spec fn wf(&self) -> bool {
        &&& self.chunk_order@.no_duplicates()
        &&& forall|k: usize| #[trigger] self.executable_map@.contains_key(k) <==> self.chunk_order@.contains(k)
        &&& forall|k: usize| #[trigger] self.executable_map@.contains_key(k) ==> {
            &&& self.executable_map@[k].wf()
            &&& k % CHUNK_SIZE == 0
        }
    }

    /// Whether an AArch64 address is in one of the executable ranges.
    pub open spec fn spec_is_executable(&self, ptr: usize) -> bool {
        exists|i: int| 0 <= i < self.exec_ranges@.len()
            && #[trigger] self.exec_ranges@[i].start <= ptr < self.exec_ranges@[i].end
    }

    /// An empty pool.
    pub fn new() -> (r: ExecPool)
        ensures
            r.wf(),
            r.exec_ranges@ == Seq::<ExecutableRange>::empty(),
            r.executable_map@ == Map::<usize, CompiledChunk>::empty(),
            r.fully_used_allocs@ == Seq::<usize>::empty(),
            r.current_alloc == 0,
            r.current_alloc_utilization == 0,
    {
        ExecPool {
            exec_ranges: Vec::new(),
            executable_map: HashMap::new(),
            chunk_order: Vec::new(),
            fully_used_allocs: Vec::new(),
            current_alloc: 0,
            current_alloc_utilization: 0,
        }
    }

    /// Whether `ptr` is emulated AArch64 code.
    pub fn is_executable(&self, ptr: usize) -> (r: bool)
        ensures r == self.spec_is_executable(ptr),
    {
        let mut i: usize = 0;
        while i < self.exec_ranges.len()
            invariant
                0 <= i <= self.exec_ranges@.len(),
                forall|j: int| 0 <= j < i ==> !(#[trigger] self.exec_ranges@[j].start <= ptr < self.exec_ranges@[j].end),
            decreases self.exec_ranges@.len() - i,
        {
            let r = self.exec_ranges[i];
            if r.start <= ptr && ptr < r.end {
                return true;
            }
            i += 1;
        }
        false
    }

    /// Records `[start, end)` as executable AArch64 code.
    pub fn define_exec_range(&mut self, start: usize, end: usize)
        ensures
            final(self).exec_ranges@ == old(self).exec_ranges@.push(ExecutableRange { start, end }),
            final(self).executable_map@ == old(self).executable_map@,
            final(self).chunk_order@ == old(self).chunk_order@,
            final(self).fully_used_allocs@ == old(self).fully_used_allocs@,
            final(self).current_alloc == old(self).current_alloc,
            final(self).current_alloc_utilization == old(self).current_alloc_utilization,
    {
        self.exec_ranges.push(ExecutableRange { start, end });
    }

    /// The address of the translation of `ptr` within a translated chunk.
    pub open spec fn spec_native_in_chunk(&self, ptr: usize) -> usize {
        let chunk_offset = ptr % CHUNK_SIZE;
        let c = self.executable_map@[(ptr - chunk_offset) as usize];
        (c.addr + c.instr_map@[(chunk_offset / 4) as int]) as usize
    }

    /// What `get_exec` finds for `ptr`.
    pub open spec fn spec_get_exec(&self, ptr: usize) -> ExecLookup {
        let chunk_addr = (ptr - ptr % CHUNK_SIZE) as usize;
        if !self.spec_is_executable(ptr) {
            ExecLookup::NotExecutable
        } else if self.executable_map@.contains_key(chunk_addr) {
            ExecLookup::Found(self.spec_native_in_chunk(ptr))
        } else {
            ExecLookup::NeedsCompile(chunk_addr)
        }
    }

    /// Translates an AArch64 code address to the address of its x86_64 translation, or
    /// reports that its chunk is not translated yet. An address outside the executable
    /// ranges is not emulated code.
    pub fn get_exec(&self, ptr: usize) -> (r: ExecLookup)
        requires self.wf(),
        ensures r == self.spec_get_exec(ptr),
    {
        if !self.is_executable(ptr) {
            return ExecLookup::NotExecutable;
        }
        let chunk_offset = ptr % CHUNK_SIZE;
        let chunk_addr = ptr - chunk_offset;
        match self.executable_map.get(&chunk_addr) {
            Some(chunk) => {
                let instr_idx = chunk_offset / 4;
                let byte_idx = chunk.instr_map[instr_idx] as usize;
                ExecLookup::Found(chunk.addr + byte_idx)
            }
            None => ExecLookup::NeedsCompile(chunk_addr),
        }
    }

    /// Records the translation of the chunk at `chunk_addr`.
    pub fn insert_chunk(&mut self, chunk_addr: usize, chunk: CompiledChunk)
        requires
            old(self).wf(),
            chunk.wf(),
            chunk_addr % CHUNK_SIZE == 0,
        ensures
            final(self).wf(),
            final(self).executable_map@ == old(self).executable_map@.insert(chunk_addr, chunk),
            final(self).chunk_order@ == if old(self).executable_map@.contains_key(chunk_addr) {
                old(self).chunk_order@
            } else {
                old(self).chunk_order@.push(chunk_addr)
            },
            final(self).exec_ranges@ == old(self).exec_ranges@,
            final(self).fully_used_allocs@ == old(self).fully_used_allocs@,
            final(self).current_alloc == old(self).current_alloc,
            final(self).current_alloc_utilization == old(self).current_alloc_utilization,
    {
        let present = self.executable_map.contains_key(&chunk_addr);
        if !present {
            self.chunk_order.push(chunk_addr);
        }
        self.executable_map.insert(chunk_addr, chunk);
        proof {
            assert forall|k: usize| #[trigger] self.executable_map@.contains_key(k) <==> self.chunk_order@.contains(k) by {
                if !present {
                    assert(old(self).chunk_order@.push(chunk_addr).contains(k) <==> (old(self).chunk_order@.contains(k) || k == chunk_addr)) by {
                        if old(self).chunk_order@.push(chunk_addr).contains(k) {
                            let j = choose|j: int| 0 <= j < old(self).chunk_order@.len() + 1 && old(self).chunk_order@.push(chunk_addr)[j] == k;
                            if j < old(self).chunk_order@.len() {
                                assert(old(self).chunk_order@[j] == k);
                            }
                        }
                        if old(self).chunk_order@.contains(k) {
                            let j = choose|j: int| 0 <= j < old(self).chunk_order@.len() && old(self).chunk_order@[j] == k;
                            assert(old(self).chunk_order@.push(chunk_addr)[j] == k);
                        }
                        if k == chunk_addr {
                            assert(old(self).chunk_order@.push(chunk_addr)[old(self).chunk_order@.len() as int] == k);
                        }
                    }
                }
            }
            if !present {
                assert forall|i: int, j: int| 0 <= i < j < self.chunk_order@.len() implies self.chunk_order@[i] != self.chunk_order@[j] by {
                    if j == self.chunk_order@.len() - 1 {
                        assert(old(self).chunk_order@.contains(self.chunk_order@[i]));
                    }
                }
            }
        }
    }

    /// The position in `chunk_order` of the first chunk whose code contains `addr`
    /// (at or after position `from`), or -1.
    pub open spec fn spec_first_chunk(&self, addr: usize, from: int) -> int
        decreases self.chunk_order@.len() - from,
    {
        if from < 0 || from >= self.chunk_order@.len() {
            -1
        } else if self.executable_map@[self.chunk_order@[from]].contains(addr) {
            from
        } else {
            self.spec_first_chunk(addr, from + 1)
        }
    }

    /// The AArch64 address whose translation contains the x86_64 address `addr`: in the
    /// first translated chunk whose code contains it, the last instruction whose
    /// translation starts at or before it. `None` when no chunk contains it, or when
    /// every instruction of that chunk starts after it.
    pub open spec fn spec_from_exec(&self, addr: usize) -> Option<usize> {
        let k = self.spec_first_chunk(addr, 0);
        if k < 0 {
            None
        } else {
            let arm = self.chunk_order@[k];
            let c = self.executable_map@[arm];
            let j = spec_last_le(c.instr_map@, addr - c.addr);
            if j < 0 { None } else { Some((arm + j * 4) as usize) }
        }
    }

    /// Translates an x86_64 code address back to the AArch64 code address whose
    /// translation contains it (see `spec_from_exec`).
    #[verifier::loop_isolation(false)]
    pub fn from_exec(&self, addr: usize) -> (r: Option<usize>)
        requires self.wf(),
        ensures r == self.spec_from_exec(addr),
    {
        let mut k: usize = 0;
        while k < self.chunk_order.len()
            invariant
                self.wf(),
                0 <= k <= self.chunk_order@.len(),
                self.spec_first_chunk(addr, 0) == self.spec_first_chunk(addr, k as int),
            decreases self.chunk_order@.len() - k,
        {
            let chunk_arm_addr = self.chunk_order[k];
            assert(self.chunk_order@.contains(chunk_arm_addr));
            let chunk = self.executable_map.get(&chunk_arm_addr).unwrap();
            let chunk_addr = chunk.addr;
            if addr >= chunk_addr && addr < chunk_addr + chunk.len {
                let chunk_offset = addr - chunk_addr;
                // Work backwards from the end of the chunk until an instruction starts at
                // or before the offset: an AArch64 instruction can map to several x86_64
                // instructions.
                let mut j: usize = chunk.instr_map.len();
                assert(chunk.instr_map@.subrange(0, j as int) =~= chunk.instr_map@);
                proof { lemma_chunk_addr_room(chunk_arm_addr); }
                while j > 0
                    invariant
                        0 <= j <= chunk.instr_map@.len(),
                        spec_last_le(chunk.instr_map@, chunk_offset as int)
                            == spec_last_le(chunk.instr_map@.subrange(0, j as int), chunk_offset as int),
                    decreases j,
                {
                    assert(chunk.instr_map@.subrange(0, j as int).drop_last() =~= chunk.instr_map@.subrange(0, j - 1));
                    if chunk_offset >= chunk.instr_map[j - 1] as usize {
                        return Some(chunk_arm_addr + (j - 1) * 4);
                    }
                    j -= 1;
                }
                assert(chunk.instr_map@.subrange(0, 0) =~= Seq::<u16>::empty());
                return None;
            }
            k += 1;
        }
        None
    }

    /// Makes `new_alloc` the allocation that translated code goes into, retiring the
    /// current one (if any).
    pub fn alloc_new_region(&mut self, new_alloc: usize)
        ensures
            final(self).fully_used_allocs@ == if old(self).current_alloc != 0 {
                old(self).fully_used_allocs@.push(old(self).current_alloc)
            } else {
                old(self).fully_used_allocs@
            },
            final(self).current_alloc == new_alloc,
            final(self).current_alloc_utilization == 0,
            final(self).exec_ranges@ == old(self).exec_ranges@,
            final(self).executable_map@ == old(self).executable_map@,
            final(self).chunk_order@ == old(self).chunk_order@,
    {
        if self.current_alloc != 0 {
            self.fully_used_allocs.push(self.current_alloc);
        }
        self.current_alloc = new_alloc;
        self.current_alloc_utilization = 0;
    }
}


/// A chunk-aligned address leaves room for the addresses of all instructions of its
/// chunk.
pub proof fn lemma_chunk_addr_room(a: usize)
    requires a % CHUNK_SIZE == 0,
    ensures a + CHUNK_SIZE - 1 <= usize::MAX,
{
    assert(usize::MAX == 0xffff_ffff || usize::MAX == 0xffff_ffff_ffff_ffff);
    let m = usize::MAX as int;
    assert(m % 512 == 511);
    assert(a + 511 <= m) by (nonlinear_arith)
        requires a % 512 == 0, a <= m, m % 512 == 511;
}


/// Recording a range makes exactly the addresses in it executable in addition to
/// those that were before.
pub proof fn lemma_define_exec_range(before: ExecPool, after: ExecPool, start: usize, end: usize, a: usize)
    requires after.exec_ranges@ == before.exec_ranges@.push(ExecutableRange { start, end }),
    ensures after.spec_is_executable(a) <==> (before.spec_is_executable(a) || (start <= a < end)),
{
    let n = before.exec_ranges@.len() as int;
    if after.spec_is_executable(a) {
        let i = choose|i: int| 0 <= i < after.exec_ranges@.len()
            && #[trigger] after.exec_ranges@[i].start <= a < after.exec_ranges@[i].end;
        if i < n {
            assert(before.exec_ranges@[i] == after.exec_ranges@[i]);
        }
    }
    if before.spec_is_executable(a) {
        let i = choose|i: int| 0 <= i < before.exec_ranges@.len()
            && #[trigger] before.exec_ranges@[i].start <= a < before.exec_ranges@[i].end;
        assert(after.exec_ranges@[i] == before.exec_ranges@[i]);
    }
    if start <= a < end {
        assert(after.exec_ranges@[n].start <= a < after.exec_ranges@[n].end);
    }
}

proof fn lemma_first_chunk(pool: ExecPool, n: usize, from: int, p: int)
    requires
        0 <= from <= p < pool.chunk_order@.len(),
        pool.executable_map@[pool.chunk_order@[p]].contains(n),
        forall|q: int| from <= q < p ==> !pool.executable_map@[#[trigger] pool.chunk_order@[q]].contains(n),
    ensures pool.spec_first_chunk(n, from) == p,
    decreases p - from,
{
    if from < p {
        lemma_first_chunk(pool, n, from + 1, p);
    }
}

proof fn lemma_last_le_ordered(m: Seq<u16>, i: int)
    requires
        0 <= i < m.len(),
        forall|a: int, b: int| 0 <= a <= b < m.len() ==> #[trigger] m[a] <= #[trigger] m[b],
        i + 1 < m.len() ==> m[i] < m[i + 1],
    ensures spec_last_le(m, m[i] as int) == i,
    decreases m.len(),
{
    if i < m.len() - 1 {
        assert(m[i] < m[i + 1] <= m[m.len() - 1]);
        let d = m.drop_last();
        assert(d[i] == m[i]);
        if i + 1 < d.len() {
            assert(d[i + 1] == m[i + 1]);
        }
        lemma_last_le_ordered(d, i);
    }
}

/// The translations of two different chunks never overlap.
pub open spec fn chunks_disjoint(pool: ExecPool) -> bool {
    forall|k1: usize, k2: usize|
        #![trigger pool.executable_map@[k1], pool.executable_map@[k2]]
        pool.executable_map@.contains_key(k1) && pool.executable_map@.contains_key(k2) && k1 != k2
            ==> pool.executable_map@[k1].addr + pool.executable_map@[k1].len <= pool.executable_map@[k2].addr
                || pool.executable_map@[k2].addr + pool.executable_map@[k2].len <= pool.executable_map@[k1].addr
}

/// Going from an AArch64 address to its translation and back gives the address of the
/// instruction it lies in, provided that the translations of chunks do not overlap and
/// that this instruction's translation is not empty: it starts before the next
/// instruction's, and within the chunk's code.
pub proof fn lemma_from_exec_inverts_get_exec(pool: ExecPool, a: usize)
    requires
        pool.wf(),
        chunks_disjoint(pool),
        pool.spec_get_exec(a) is Found,
        ({
            let c = pool.executable_map@[(a - a % CHUNK_SIZE) as usize];
            let idx = ((a % CHUNK_SIZE) / 4) as int;
            &&& idx + 1 < CHUNK_INSTRS ==> c.instr_map@[idx] < c.instr_map@[idx + 1]
            &&& c.instr_map@[idx] < c.len
        }),
    ensures pool.spec_from_exec(pool.spec_native_in_chunk(a)) == Some((a - a % 4) as usize),
{
    let ca = (a - a % CHUNK_SIZE) as usize;
    let c = pool.executable_map@[ca];
    let idx = ((a % CHUNK_SIZE) / 4) as int;
    let n = pool.spec_native_in_chunk(a);
    assert(pool.chunk_order@.contains(ca));
    let p = choose|p: int| 0 <= p < pool.chunk_order@.len() && pool.chunk_order@[p] == ca;
    assert(c.contains(n));
    assert forall|q: int| 0 <= q < p implies !pool.executable_map@[#[trigger] pool.chunk_order@[q]].contains(n) by {
        let k = pool.chunk_order@[q];
        assert(pool.chunk_order@.contains(k));
        assert(k != ca);
        let ck = pool.executable_map@[k];
        assert(ck.addr + ck.len <= c.addr || c.addr + c.len <= ck.addr);
    }
    lemma_first_chunk(pool, n, 0, p);
    lemma_last_le_ordered(c.instr_map@, idx);
    assert((a % 512) / 4 * 4 == a % 512 - a % 4) by (nonlinear_arith);
    assert(a % 512 <= a) by (nonlinear_arith);
}

// ---------------------------------------------------------------------------
// Calls into translated code
// ---------------------------------------------------------------------------

/// Length in bytes of the `mov rax, imm64; call rax` with which translated code
/// calls a native handler.
pub const HANDLER_CALL_LEN: usize = 12;

/// The address of the handler call whose return address is `ret`.
pub fn call_site(ret: usize) -> (r: usize)
    ensures
        r == (if ret >= HANDLER_CALL_LEN { ret - HANDLER_CALL_LEN } else { ret - HANDLER_CALL_LEN + usize::MAX + 1 }),
{
    ret.wrapping_sub(HANDLER_CALL_LEN)
}

/// The padding, in 8-byte words, pushed before the arguments of an entry call so
/// that the stack stays 16-byte aligned: the terminators, the count and the
/// argument pointers take `32 + 8 * argc` bytes with the padding word itself.
pub fn argv_padding(argc: usize) -> (r: usize)
    ensures
        r == argc % 2,
        (32 + 8 * argc + 8 * r) % 16 == 0,
{
    let r = if argc % 2 == 1 { 1 } else { 0 };
    assert((32 + 8 * argc + 8 * r) % 16 == 0) by (nonlinear_arith)
        requires
            r == argc % 2,
    ;
    r
}

/// The top of a shadow stack allocated at `alloc`: its end.
pub fn shadow_stack_top(alloc: usize) -> (r: usize)
    ensures
        r == (if alloc + SHADOW_STACK_SIZE > usize::MAX { alloc + SHADOW_STACK_SIZE - usize::MAX - 1 } else { alloc + SHADOW_STACK_SIZE }),
{
    alloc.wrapping_add(SHADOW_STACK_SIZE)
}

/// Where a shadow-stack push puts its two words, and the new top.
#[derive(Clone, Copy, PartialEq, Eq, Structural, Debug)]
pub struct ShadowPush {
    /// The new top of the stack.
    pub sp: usize,
    /// Where the guest (AArch64) return address goes.
    pub arm_slot: usize,
    /// Where the native return address goes.
    pub native_slot: usize,
}

/// A push on the shadow stack whose top is `sp`: the top moves down by 16 bytes;
/// the native return address goes at the new top and the guest one 8 bytes above.
pub fn shadow_push(sp: usize) -> (r: ShadowPush)
    ensures
        r.sp == (if sp >= 16 { sp - 16 } else { sp - 16 + usize::MAX + 1 }),
        r.native_slot == r.sp,
        r.arm_slot == (if r.sp + 8 > usize::MAX { r.sp + 8 - usize::MAX - 1 } else { r.sp + 8 }),
{
    let new_sp = sp.wrapping_sub(16);
    ShadowPush { sp: new_sp, arm_slot: new_sp.wrapping_add(8), native_slot: new_sp }
}

} // verus!

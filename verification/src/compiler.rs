//! Translation of one 512-byte chunk of AArch64 code: instruction by instruction, then
//! an epilogue that continues into the next chunk; and the placement of the encoded
//! result in executable memory.
use vstd::prelude::*;
use crate::arm::{Instruction, Op};
use crate::x86::{X86Instr, Assembler, spec_ip_at, lemma_ip_marks_label};
use crate::instr_utils::{make_call, spec_make_call};
use crate::branch::Callbacks;
use crate::runner::{ExecPool, CompiledChunk, CHUNK_INSTRS, EXECUTABLE_ALLOC_SIZE};
use crate::{arith, load_store, pauth};
use crate::encoding::encoder_offsets_ok;

verus! {

/// What `compile_instr` emits for a decoded instruction (`None`: undecodable), with `l`
/// the next free label id: the load/store translation, else the arithmetic one, else
/// nothing for pointer authentication, else a call of the unimplemented-instruction
/// handler.
pub open spec fn spec_compile_one(instr: Option<Instruction>, callbacks: Callbacks, l: u64) -> Seq<X86Instr> {
    match instr {
        None => spec_make_call(callbacks.invalid_arm_instr),
        Some(i) => {
            let ls = load_store::spec_load_store_instr(&i);
            let ar = arith::spec_arith(&i, l);
            if ls.0 {
                ls.1
            } else if ar.0 {
                ar.1
            } else if pauth::is_pauth_op(i.op) {
                seq![]
            } else {
                ar.1 + spec_make_call(callbacks.unimplemented_arm_instr)
            }
        },
    }
}

/// The number of labels `compile_instr` places for an instruction.
pub open spec fn labels_of(instr: Option<Instruction>) -> nat {
    match instr {
        Some(i) => if i.op == Op::CCMP { 2 } else { 0 },
        None => 0,
    }
}

/// The labels that `compile_instr` places for an instruction, given the next free label
/// id `l` and the number `n` of instructions before it: a CCMP places its two labels,
/// nothing else places any.
pub open spec fn spec_instr_labels(instr: Option<Instruction>, l: u64, n: nat) -> Seq<(u64, usize)> {
    match instr {
        Some(i) => if i.op == Op::CCMP { arith::spec_cond_compare_labels(&i, l, n) } else { seq![] },
        None => seq![],
    }
}

/// The pointer authentication hints (FEAT_PAuth): adding a PAC (PACIA, PACIB, PACDA,
/// PACDB and their SP, Z, 1716 and ZA/ZB forms), authenticating one (AUT...) and
/// stripping one (XPACD, XPACI, XPACLRI).
pub open spec fn is_pac_hint(op: Op) -> bool {
    op == Op::PACIASP || op == Op::PACIAZ || op == Op::PACIA1716 || op == Op::PACIBSP
        || op == Op::PACIBZ || op == Op::PACIB1716 || op == Op::PACIA || op == Op::PACDA
        || op == Op::PACIB || op == Op::PACDB || op == Op::PACIZA || op == Op::PACDZA
        || op == Op::PACIZB || op == Op::PACDZB
        || op == Op::AUTIASP || op == Op::AUTIAZ || op == Op::AUTIA1716 || op == Op::AUTIBSP
        || op == Op::AUTIBZ || op == Op::AUTIB1716 || op == Op::AUTIA || op == Op::AUTDA
        || op == Op::AUTIB || op == Op::AUTDB || op == Op::AUTIZA || op == Op::AUTDZA
        || op == Op::AUTIZB || op == Op::AUTDZB
        || op == Op::XPACD || op == Op::XPACI || op == Op::XPACLRI
}

/// Pointers are never signed, so every pointer authentication hint translates to no
/// code at all: in particular no call of the unimplemented-instruction handler.
pub proof fn lemma_pac_hints_compile_to_nothing(instr: Instruction, callbacks: Callbacks, l: u64)
    requires is_pac_hint(instr.op),
    ensures spec_compile_one(Some(instr), callbacks, l) == Seq::<X86Instr>::empty(),
{
    assert(load_store::ls_kind(instr.op) is None && instr.op != Op::STP && instr.op != Op::LDP);
    assert(!load_store::spec_load_store_instr(&instr).0);
    assert(!arith::spec_arith(&instr, l).0);
    assert(pauth::is_pauth_op(instr.op));
}

/// The decoded instructions that `compile_instr` accepts.
pub open spec fn instr_ok(instr: Option<Instruction>) -> bool {
    match instr {
        Some(i) => load_store::load_store_ok(&i) && arith::arith_ok(&i),
        None => true,
    }
}

/// Translates one decoded instruction (`None`: undecodable) into `ass`.
pub fn compile_instr(arm_instr: &Option<Instruction>, ass: &mut Assembler, callbacks: &Callbacks)
    requires
        instr_ok(*arm_instr),
        old(ass).next_label + 2 <= u64::MAX,
    ensures
        final(ass).instrs@ == old(ass).instrs@ + spec_compile_one(*arm_instr, *callbacks, old(ass).next_label),
        final(ass).next_label == old(ass).next_label + labels_of(*arm_instr),
        final(ass).labels@ == old(ass).labels@
            + spec_instr_labels(*arm_instr, old(ass).next_label, old(ass).instrs@.len()),
{
    let ghost before = *ass;
    match arm_instr {
        None => {
            make_call(ass, callbacks.invalid_arm_instr);
        }
        Some(arm_instr) => {
            // Load and store instructions
            if load_store::compile_instr(arm_instr, ass) {
                return;
            }
            // Arithmetic and logic instructions
            if arith::compile_instr(arm_instr, ass) {
                return;
            }
            // Pointer authentication instructions (FEAT_PAuth)
            if pauth::compile_instr(arm_instr, ass) {
                assert(ass.instrs@ =~= before.instrs@ + seq![]);
                return;
            }
            make_call(ass, callbacks.unimplemented_arm_instr);
            assert(ass.instrs@ =~= before.instrs@
                + spec_compile_one(Some(*arm_instr), *callbacks, before.next_label));
        }
    }
}

/// The number of CCMP instructions in `s`.
pub open spec fn label_count(s: Seq<Option<Instruction>>) -> nat
    decreases s.len(),
{
    if s.len() == 0 { 0 } else { label_count(s.drop_last()) + labels_of(s.last()) }
}

/// The code of a sequence of instructions, translated one after the other with label
/// ids counted from 1.
pub open spec fn spec_chunk_code(s: Seq<Option<Instruction>>, callbacks: Callbacks) -> Seq<X86Instr>
    decreases s.len(),
{
    if s.len() == 0 {
        seq![]
    } else {
        spec_chunk_code(s.drop_last(), callbacks)
            + spec_compile_one(s.last(), callbacks, (1 + label_count(s.drop_last())) as u64)
    }
}

/// The labels of a sequence of instructions translated one after the other with label
/// ids counted from 1: each label id with the index of the x86_64 instruction it names.
pub open spec fn spec_chunk_labels(s: Seq<Option<Instruction>>, callbacks: Callbacks) -> Seq<(u64, usize)>
    decreases s.len(),
{
    if s.len() == 0 {
        seq![]
    } else {
        spec_chunk_labels(s.drop_last(), callbacks) + spec_instr_labels(s.last(),
            (1 + label_count(s.drop_last())) as u64, spec_chunk_code(s.drop_last(), callbacks).len())
    }
}

/// Every label of a chunk is placed once, at an instruction of the chunk's code (in
/// increasing order), with an id below the next free one, and that instruction is
/// marked with the label's id: so each branch to a label has exactly one target.
pub proof fn lemma_chunk_labels_placed(s: Seq<Option<Instruction>>, callbacks: Callbacks)
    requires
        s.len() <= CHUNK_INSTRS,
        spec_chunk_code(s, callbacks).len() < usize::MAX,
    ensures
        spec_chunk_labels(s, callbacks).len() == label_count(s),
        forall|i: int| 0 <= i < spec_chunk_labels(s, callbacks).len() ==> {
            &&& 1 <= (#[trigger] spec_chunk_labels(s, callbacks)[i]).0 < 1 + label_count(s)
            &&& spec_chunk_labels(s, callbacks)[i].1 < spec_chunk_code(s, callbacks).len()
        },
        forall|i: int, j: int| 0 <= i < j < spec_chunk_labels(s, callbacks).len() ==>
            (#[trigger] spec_chunk_labels(s, callbacks)[i]).0 != (#[trigger] spec_chunk_labels(s, callbacks)[j]).0
            && spec_chunk_labels(s, callbacks)[i].1 < spec_chunk_labels(s, callbacks)[j].1,
        forall|k: int| 0 <= k < spec_chunk_labels(s, callbacks).len() ==>
            spec_ip_at(spec_chunk_labels(s, callbacks), (#[trigger] spec_chunk_labels(s, callbacks)[k]).1 as int)
                == spec_chunk_labels(s, callbacks)[k].0,
    decreases s.len(),
{
    if s.len() > 0 {
        let d = s.drop_last();
        lemma_chunk_labels_placed(d, callbacks);
        lemma_label_count_bound(d);
        let l = (1 + label_count(d)) as u64;
        let n = spec_chunk_code(d, callbacks).len();
        let prev = spec_chunk_labels(d, callbacks);
        let one = spec_instr_labels(s.last(), l, n);
        let all = spec_chunk_labels(s, callbacks);
        assert(all == prev + one);
        if s.last() is Some && s.last()->Some_0.op == Op::CCMP {
            let i = s.last()->Some_0;
            assert(!load_store::spec_load_store_instr(&i).0);
            assert(spec_compile_one(s.last(), callbacks, l) == arith::spec_translate_cond_compare(&i, l));
            assert(spec_chunk_code(s, callbacks).len() == n + spec_compile_one(s.last(), callbacks, l).len());
            assert(one.len() == 2);
            assert(one[0].0 == l + 1 && one[1].0 == l);
            assert(one[0].1 < n + spec_compile_one(s.last(), callbacks, l).len());
            assert(one[1].1 < n + spec_compile_one(s.last(), callbacks, l).len());
        } else {
            assert(one.len() == 0);
        }
        assert forall|i: int| 0 <= i < all.len() implies {
            &&& 1 <= (#[trigger] all[i]).0 < 1 + label_count(s)
            &&& all[i].1 < spec_chunk_code(s, callbacks).len()
        } by {
            if i < prev.len() {
                assert(all[i] == prev[i]);
            } else {
                assert(all[i] == one[i - prev.len()]);
            }
        }
        assert forall|i: int, j: int| 0 <= i < j < all.len() implies
            (#[trigger] all[i]).0 != (#[trigger] all[j]).0 && all[i].1 < all[j].1 by {
            if j < prev.len() {
                assert(all[i] == prev[i] && all[j] == prev[j]);
            } else if i < prev.len() {
                assert(all[i] == prev[i]);
                assert(all[j] == one[j - prev.len()]);
            } else {
                assert(all[i] == one[i - prev.len()]);
                assert(all[j] == one[j - prev.len()]);
            }
        }
    }
    assert forall|k: int| 0 <= k < spec_chunk_labels(s, callbacks).len() implies
        spec_ip_at(spec_chunk_labels(s, callbacks), (#[trigger] spec_chunk_labels(s, callbacks)[k]).1 as int)
            == spec_chunk_labels(s, callbacks)[k].0 by {
        lemma_ip_marks_label(spec_chunk_labels(s, callbacks), k);
    }
}

/// The code of a prefix of a sequence of instructions is a prefix of its code.
proof fn lemma_chunk_code_prefix(s: Seq<Option<Instruction>>, callbacks: Callbacks, i: int, j: int)
    requires 0 <= i <= j <= s.len(),
    ensures
        spec_chunk_code(s.take(i), callbacks).len() <= spec_chunk_code(s.take(j), callbacks).len(),
    decreases j - i,
{
    if i < j {
        let t = s.take(j);
        assert(t.drop_last() =~= s.take(j - 1));
        lemma_chunk_code_prefix(s, callbacks, i, j - 1);
    }
}

proof fn lemma_label_count_bound(s: Seq<Option<Instruction>>)
    ensures label_count(s) <= 2 * s.len(),
    decreases s.len(),
{
    if s.len() > 0 {
        lemma_label_count_bound(s.drop_last());
    }
}

/// A chunk's translation before encoding.
pub struct ChunkCode {
    pub ass: Assembler,
    /// For each AArch64 instruction, the index of its first x86_64 instruction.
    pub x86_idxs: Vec<usize>,
    /// Index of the first instruction of the end-of-chunk epilogue.
    pub epilogue_offset: u16,
}

/// Translates the decoded instructions of a chunk, in order, followed by a call of the
/// end-of-chunk handler; records where each instruction's translation starts.
pub fn compile_chunk(arm_instrs: &Vec<Option<Instruction>>, callbacks: &Callbacks) -> (r: Option<ChunkCode>)
    requires
        arm_instrs@.len() <= CHUNK_INSTRS,
        forall|i: int| 0 <= i < arm_instrs@.len() ==> instr_ok(#[trigger] arm_instrs@[i]),
    ensures
        (r is Some) <==> spec_chunk_code(arm_instrs@, *callbacks).len() <= u16::MAX,
        r matches Some(c) ==> {
            &&& c.ass.instrs@ == spec_chunk_code(arm_instrs@, *callbacks) + spec_make_call(callbacks.end_of_chunk)
            &&& c.epilogue_offset == spec_chunk_code(arm_instrs@, *callbacks).len()
            &&& c.ass.labels@ == spec_chunk_labels(arm_instrs@, *callbacks)
            &&& c.ass.next_label == 1 + label_count(arm_instrs@)
            &&& c.ass.labels_in_range()
            &&& c.x86_idxs@.len() == arm_instrs@.len()
            &&& forall|j: int| 0 <= j < arm_instrs@.len() ==>
                #[trigger] c.x86_idxs@[j] == spec_chunk_code(arm_instrs@.take(j), *callbacks).len()
            &&& x86_idxs_ordered(c.x86_idxs@)
            &&& forall|j: int| 0 <= j < arm_instrs@.len() ==> #[trigger] c.x86_idxs@[j] <= c.epilogue_offset
        },
{
    let mut ass = Assembler::new();
    let mut x86_idxs: Vec<usize> = Vec::new();
    let mut k: usize = 0;
    while k < arm_instrs.len()
        invariant
            0 <= k <= arm_instrs@.len(),
            arm_instrs@.len() <= CHUNK_INSTRS,
            forall|i: int| 0 <= i < arm_instrs@.len() ==> instr_ok(#[trigger] arm_instrs@[i]),
            ass.instrs@ == spec_chunk_code(arm_instrs@.take(k as int), *callbacks),
            ass.next_label == 1 + label_count(arm_instrs@.take(k as int)),
            ass.labels@ == spec_chunk_labels(arm_instrs@.take(k as int), *callbacks),
            x86_idxs@.len() == k,
            forall|j: int| 0 <= j < k ==>
                #[trigger] x86_idxs@[j] == spec_chunk_code(arm_instrs@.take(j), *callbacks).len(),
        decreases arm_instrs@.len() - k,
    {
        proof { lemma_label_count_bound(arm_instrs@.take(k as int)); }
        x86_idxs.push(ass.len());
        compile_instr(&arm_instrs[k], &mut ass, callbacks);
        proof {
            let t = arm_instrs@.take(k + 1);
            assert(t.drop_last() =~= arm_instrs@.take(k as int));
            assert(t.last() == arm_instrs@[k as int]);
        }
        k += 1;
    }
    assert(arm_instrs@.take(arm_instrs@.len() as int) =~= arm_instrs@);
    let n = ass.len();
    if n > 0xFFFF {
        return None;
    }
    let epilogue_offset = n as u16;
    proof {
        assert(arm_instrs@.take(0) =~= Seq::<Option<Instruction>>::empty());
        assert forall|i: int, j: int| 0 <= i <= j < arm_instrs@.len() implies
            #[trigger] x86_idxs@[i] <= #[trigger] x86_idxs@[j] <= epilogue_offset by {
            lemma_chunk_code_prefix(arm_instrs@, *callbacks, i, j);
            lemma_chunk_code_prefix(arm_instrs@, *callbacks, j, arm_instrs@.len() as int);
        }
        lemma_chunk_labels_placed(arm_instrs@, *callbacks);
    }
    make_call(&mut ass, callbacks.end_of_chunk);
    Some(ChunkCode { ass, x86_idxs, epilogue_offset })
}

/// The offset of each AArch64 instruction's translation in the encoded code: the
/// encoded offset of its first x86_64 instruction, or the code length when it has none
/// before the end.
pub open spec fn spec_instr_offset(x86_idx: usize, offsets: Seq<u32>, code_len: usize) -> int {
    if x86_idx == offsets.len() { code_len as int } else { offsets[x86_idx as int] as int }
}

/// The first x86_64 instruction indices of a chunk's instructions, as `compile_chunk`
/// records them: starting at 0 and never decreasing.
pub open spec fn x86_idxs_ordered(x86_idxs: Seq<usize>) -> bool {
    &&& x86_idxs.len() > 0 ==> x86_idxs[0] == 0
    &&& forall|i: int, j: int| 0 <= i <= j < x86_idxs.len() ==> #[trigger] x86_idxs[i] <= #[trigger] x86_idxs[j]
}

/// The offsets of ordered instruction indices into ordered encoder offsets, where all
/// of them fit in 16 bits, are ordered, start at 0 and stay within the code.
proof fn lemma_instr_offsets_ordered(x86_idxs: Seq<usize>, offsets: Seq<u32>, code_len: usize)
    requires
        instr_map_ok(x86_idxs, offsets),
        x86_idxs_ordered(x86_idxs),
        encoder_offsets_ok(offsets, code_len),
        forall|i: int| 0 <= i < CHUNK_INSTRS ==> #[trigger] spec_instr_offset(x86_idxs[i], offsets, code_len) <= u16::MAX,
    ensures
        offsets.len() > 0 ==> spec_instr_offset(x86_idxs[0], offsets, code_len) == 0,
        forall|i: int, j: int| 0 <= i <= j < CHUNK_INSTRS ==>
            #[trigger] spec_instr_offset(x86_idxs[i], offsets, code_len)
                <= #[trigger] spec_instr_offset(x86_idxs[j], offsets, code_len),
        forall|i: int| 0 <= i < CHUNK_INSTRS ==>
            #[trigger] spec_instr_offset(x86_idxs[i], offsets, code_len) <= code_len,
{
    assert(spec_instr_offset(x86_idxs[0], offsets, code_len) <= u16::MAX);
    assert forall|i: int, j: int| 0 <= i <= j < CHUNK_INSTRS implies
        #[trigger] spec_instr_offset(x86_idxs[i], offsets, code_len)
            <= #[trigger] spec_instr_offset(x86_idxs[j], offsets, code_len) by {
        assert(x86_idxs[i] <= x86_idxs[j]);
        assert(x86_idxs[j] <= offsets.len());
        assert(spec_instr_offset(x86_idxs[i], offsets, code_len) <= u16::MAX);
        assert(spec_instr_offset(x86_idxs[j], offsets, code_len) <= u16::MAX);
        if x86_idxs[i] < offsets.len() {
            assert(offsets[x86_idxs[i] as int] <= code_len);
        }
    }
    assert forall|i: int| 0 <= i < CHUNK_INSTRS implies
        #[trigger] spec_instr_offset(x86_idxs[i], offsets, code_len) <= code_len by {
        assert(x86_idxs[i] <= offsets.len());
        assert(spec_instr_offset(x86_idxs[i], offsets, code_len) <= u16::MAX);
        if x86_idxs[i] < offsets.len() {
            assert(offsets[x86_idxs[i] as int] <= code_len);
        }
    }
}

/// The inputs for which `finalize_instr_map` has an offset for every instruction
/// of a chunk.
pub open spec fn instr_map_ok(x86_idxs: Seq<usize>, offsets: Seq<u32>) -> bool {
    &&& x86_idxs.len() >= CHUNK_INSTRS
    &&& forall|i: int| 0 <= i < CHUNK_INSTRS ==> #[trigger] x86_idxs[i] <= offsets.len()
}

/// Builds a chunk's `instr_map` from the encoder's instruction offsets; `None` when an
/// offset does not fit in 16 bits (a chunk offset overflow).
pub fn finalize_instr_map(x86_idxs: &Vec<usize>, new_instruction_offsets: &Vec<u32>, code_len: usize) -> (r: Option<Vec<u16>>)
    requires instr_map_ok(x86_idxs@, new_instruction_offsets@),
    ensures
        (r is Some) <==> forall|i: int| 0 <= i < CHUNK_INSTRS ==>
            #[trigger] spec_instr_offset(x86_idxs@[i], new_instruction_offsets@, code_len) <= u16::MAX,
        r matches Some(m) ==> m@.len() == CHUNK_INSTRS && forall|i: int| 0 <= i < CHUNK_INSTRS ==>
            #[trigger] m@[i] == spec_instr_offset(x86_idxs@[i], new_instruction_offsets@, code_len),
{
    let mut instr_map: Vec<u16> = Vec::new();
    let mut arm_idx: usize = 0;
    while arm_idx < CHUNK_INSTRS
        invariant
            0 <= arm_idx <= CHUNK_INSTRS,
            instr_map_ok(x86_idxs@, new_instruction_offsets@),
            instr_map@.len() == arm_idx,
            forall|i: int| 0 <= i < arm_idx ==>
                #[trigger] instr_map@[i] == spec_instr_offset(x86_idxs@[i], new_instruction_offsets@, code_len),
        decreases CHUNK_INSTRS - arm_idx,
    {
        let x86_idx = x86_idxs[arm_idx];
        let offset: usize = if x86_idx == new_instruction_offsets.len() {
            code_len
        } else {
            new_instruction_offsets[x86_idx] as usize
        };
        if offset > 0xFFFF {
            proof {
                assert(spec_instr_offset(x86_idxs@[arm_idx as int], new_instruction_offsets@, code_len) > u16::MAX);
            }
            return None;
        }
        instr_map.push(offset as u16);
        arm_idx += 1;
    }
    assert forall|i: int| 0 <= i < CHUNK_INSTRS implies
        #[trigger] spec_instr_offset(x86_idxs@[i], new_instruction_offsets@, code_len) <= u16::MAX by {
        assert(instr_map@[i] == spec_instr_offset(x86_idxs@[i], new_instruction_offsets@, code_len));
    }
    Some(instr_map)
}

impl ExecPool {
    /// Whether `code_len` more bytes overflow the current allocation.
    pub open spec fn spec_exceeds_alloc(&self, code_len: usize) -> bool {
        code_len + self.current_alloc_utilization > EXECUTABLE_ALLOC_SIZE
    }

    /// Whether translated code of `code_len` bytes needs a new allocation (also when
    /// there is none yet).
    pub fn needs_new_region(&self, code_len: usize) -> (r: bool)
        ensures r == (self.current_alloc == 0 || self.spec_exceeds_alloc(code_len)),
    {
        self.current_alloc == 0 || code_len as u128 + self.current_alloc_utilization as u128 > EXECUTABLE_ALLOC_SIZE as u128
    }

    /// Where the next translated code is placed: just past the code already placed in
    /// the current allocation.
    pub fn next_code_addr(&self) -> (r: usize)
        requires self.current_alloc + self.current_alloc_utilization <= usize::MAX,
        ensures r == self.current_alloc + self.current_alloc_utilization,
    {
        self.current_alloc + self.current_alloc_utilization
    }

    /// Records that `code_len` bytes of translated code were placed at `next_code_addr`,
    /// so that the next code is placed after them. The placement check (`needs_new_region`)
    /// counts the utilization; without this step it would stay 0 and every chunk of an
    /// allocation would be placed at its start, over the one before.
    pub fn record_placement(&mut self, code_len: usize)
        requires old(self).current_alloc_utilization + code_len <= EXECUTABLE_ALLOC_SIZE,
        ensures
            final(self).current_alloc_utilization == old(self).current_alloc_utilization + code_len,
            final(self).current_alloc == old(self).current_alloc,
            final(self).fully_used_allocs@ == old(self).fully_used_allocs@,
            final(self).exec_ranges@ == old(self).exec_ranges@,
            final(self).executable_map@ == old(self).executable_map@,
            final(self).chunk_order@ == old(self).chunk_order@,
    {
        self.current_alloc_utilization = self.current_alloc_utilization + code_len;
    }
}

/// The translated chunk placed at `addr`, from the encoder's results.
pub fn finalize_chunk(
    x86_idxs: &Vec<usize>,
    new_instruction_offsets: &Vec<u32>,
    code_len: usize,
    addr: usize,
    epilogue_offset: u16,
) -> (r: Option<CompiledChunk>)
    requires instr_map_ok(x86_idxs@, new_instruction_offsets@),
    ensures
        (r is Some) <==> forall|i: int| 0 <= i < CHUNK_INSTRS ==>
            #[trigger] spec_instr_offset(x86_idxs@[i], new_instruction_offsets@, code_len) <= u16::MAX,
        r matches Some(c) ==> {
            &&& c.addr == addr
            &&& c.len == code_len
            &&& c.epilogue_offset == epilogue_offset
            &&& c.instr_map@.len() == CHUNK_INSTRS
            &&& forall|i: int| 0 <= i < CHUNK_INSTRS ==>
                #[trigger] c.instr_map@[i] == spec_instr_offset(x86_idxs@[i], new_instruction_offsets@, code_len)
            &&& (x86_idxs_ordered(x86_idxs@) && encoder_offsets_ok(new_instruction_offsets@, code_len)) ==> {
                &&& new_instruction_offsets@.len() > 0 ==> c.instr_map@[0] == 0
                &&& forall|i: int, j: int| 0 <= i <= j < CHUNK_INSTRS ==>
                    #[trigger] c.instr_map@[i] <= #[trigger] c.instr_map@[j]
                &&& forall|i: int| 0 <= i < CHUNK_INSTRS ==> #[trigger] c.instr_map@[i] <= code_len
                &&& addr + code_len <= usize::MAX ==> c.wf()
            }
        },
{
    proof {
        if x86_idxs_ordered(x86_idxs@) && encoder_offsets_ok(new_instruction_offsets@, code_len)
            && forall|i: int| 0 <= i < CHUNK_INSTRS ==>
                #[trigger] spec_instr_offset(x86_idxs@[i], new_instruction_offsets@, code_len) <= u16::MAX {
            lemma_instr_offsets_ordered(x86_idxs@, new_instruction_offsets@, code_len);
        }
    }
    match finalize_instr_map(x86_idxs, new_instruction_offsets, code_len) {
        Some(instr_map) => Some(CompiledChunk { instr_map, addr, len: code_len, epilogue_offset }),
        None => None,
    }
}

} // verus!

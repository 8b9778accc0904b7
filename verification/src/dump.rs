//! The layout of a translation listing: the AArch64 instructions of a chunk in
//! order, each beside the x86_64 instruction its translation starts with, and
//! the x86_64 instructions between them on lines of their own.
use vstd::prelude::*;
use iced_x86::{Decoder, DecoderOptions};

verus! {

/// One line of a listing: an AArch64 instruction (by index in the chunk), an
/// x86_64 instruction (by index in the decoded code), or both.
#[derive(Clone, Copy, PartialEq, Eq, Structural, Debug)]
pub struct DumpRow {
    pub arm: Option<usize>,
    pub x86: Option<usize>,
}

/// The offset of x86_64 instruction `j`; past the last decoded instruction, the
/// end of the code.
pub open spec fn x86_off(offsets: Seq<usize>, code_len: usize, j: int) -> int {
    if 0 <= j < offsets.len() { offsets[j] as int } else { code_len as int }
}

/// Lines for the x86_64 instructions `from..to`, alone.
pub open spec fn x86_run(from: int, to: int) -> Seq<DumpRow> {
    Seq::new(if to > from { (to - from) as nat } else { 0 }, |i: int| DumpRow { arm: None, x86: Some((from + i) as usize) })
}

/// `i` is the first x86_64 instruction from `from` on whose offset reaches `cur`.
pub open spec fn is_first_reaching(offsets: Seq<usize>, code_len: usize, from: int, cur: int, i: int) -> bool {
    &&& from <= i
    &&& x86_off(offsets, code_len, i) >= cur
    &&& forall|l: int| from <= l < i ==> x86_off(offsets, code_len, l) < cur
}

/// The first x86_64 instruction from `from` on whose offset reaches `cur`.
pub open spec fn first_reaching(offsets: Seq<usize>, code_len: usize, from: int, cur: int) -> int {
    choose|i: int| is_first_reaching(offsets, code_len, from, cur, i)
}

/// The lines for the first `k` AArch64 instructions (at least one), and the last
/// x86_64 instruction listed: the first instruction is beside the first x86_64
/// one; each next one is alone when the last listed x86_64 instruction starts at
/// its offset, and otherwise beside the first later x86_64 instruction that
/// reaches its offset, after the ones before that, alone.
pub open spec fn listing(instr_map: Seq<u16>, offsets: Seq<usize>, code_len: usize, k: nat) -> (Seq<DumpRow>, int)
    decreases k,
{
    if k <= 1 {
        (seq![DumpRow { arm: Some(0), x86: Some(0) }], 0)
    } else {
        let (rows, j) = listing(instr_map, offsets, code_len, (k - 1) as nat);
        let cur = instr_map[k - 1] as int;
        if x86_off(offsets, code_len, j) == cur {
            (rows.push(DumpRow { arm: Some((k - 1) as usize), x86: None }), j)
        } else {
            let j2 = first_reaching(offsets, code_len, j + 1, cur);
            (rows + x86_run(j + 1, j2) + seq![DumpRow { arm: Some((k - 1) as usize), x86: Some(j2 as usize) }], j2)
        }
    }
}

/// The listing of a chunk of `arm_count` AArch64 instructions: their lines, then
/// the remaining decoded x86_64 instructions, alone.
pub open spec fn spec_dump_rows(instr_map: Seq<u16>, offsets: Seq<usize>, code_len: usize, arm_count: nat) -> Seq<DumpRow> {
    let (rows, j) = listing(instr_map, offsets, code_len, arm_count);
    rows + x86_run(j + 1, offsets.len() as int)
}

proof fn lemma_first_reaching_unique(offsets: Seq<usize>, code_len: usize, from: int, cur: int, i: int)
    requires
        is_first_reaching(offsets, code_len, from, cur, i),
    ensures
        first_reaching(offsets, code_len, from, cur) == i,
{
    let c = first_reaching(offsets, code_len, from, cur);
    assert(is_first_reaching(offsets, code_len, from, cur, c));
    if c < i {
        assert(x86_off(offsets, code_len, c) < cur);
    } else if i < c {
        assert(x86_off(offsets, code_len, i) < cur);
    }
}

/// The offset of x86_64 instruction `j`, the end of the code past the last.
fn x86_offset(offsets: &Vec<usize>, code_len: usize, j: usize) -> (r: usize)
    ensures
        r == x86_off(offsets@, code_len, j as int),
{
    if j < offsets.len() { offsets[j] } else { code_len }
}

/// The lines of the listing of a translated chunk of `arm_count` AArch64
/// instructions, with `instr_map` the offset of each one's translation and
/// `offsets` those of the decoded x86_64 instructions, in a code of `code_len`
/// bytes: each AArch64 instruction beside the first x86_64 instruction at or past
/// its offset, the x86_64 instructions in between on lines of their own, and
/// the rest of the x86_64 code after the last AArch64 instruction.
pub fn dump_rows(instr_map: &Vec<u16>, offsets: &Vec<usize>, code_len: usize, arm_count: usize) -> (r: Vec<DumpRow>)
    requires
        1 <= arm_count <= instr_map.len(),
        forall|m: int| 0 <= m < instr_map.len() ==> instr_map@[m] <= code_len,
        offsets.len() + arm_count <= usize::MAX,
    ensures
        r@ == spec_dump_rows(instr_map@, offsets@, code_len, arm_count as nat),
{
    let n = offsets.len();
    let mut rows: Vec<DumpRow> = vec![DumpRow { arm: Some(0), x86: Some(0) }];
    let mut j: usize = 0;
    let mut k: usize = 1;
    assert(rows@ =~= listing(instr_map@, offsets@, code_len, 1).0);
    while k < arm_count
        invariant
            1 <= k <= arm_count,
            arm_count <= instr_map.len(),
            forall|m: int| 0 <= m < instr_map.len() ==> instr_map@[m] <= code_len,
            n == offsets.len(),
            n + arm_count <= usize::MAX,
            j + 1 <= n + k,
            rows@ == listing(instr_map@, offsets@, code_len, k as nat).0,
            j as int == listing(instr_map@, offsets@, code_len, k as nat).1,
        decreases arm_count - k,
    {
        let cur = instr_map[k] as usize;
        let ghost prev = listing(instr_map@, offsets@, code_len, k as nat);
        assert(listing(instr_map@, offsets@, code_len, (k + 1) as nat).0 == {
            let (rows0, j0) = prev;
            if x86_off(offsets@, code_len, j0) == cur as int {
                rows0.push(DumpRow { arm: Some(k), x86: None })
            } else {
                let j2 = first_reaching(offsets@, code_len, j0 + 1, cur as int);
                rows0 + x86_run(j0 + 1, j2) + seq![DumpRow { arm: Some(k), x86: Some(j2 as usize) }]
            }
        });
        if x86_offset(offsets, code_len, j) == cur {
            rows.push(DumpRow { arm: Some(k), x86: None });
        } else {
            let ghost before = rows@;
            let ghost from = j + 1;
            j = j + 1;
            assert(before + x86_run(from, j as int) =~= before);
            while x86_offset(offsets, code_len, j) < cur
                invariant
                    from <= j,
                    j <= n || j == from,
                    from <= n + k,
                    n == offsets.len(),
                    cur <= code_len,
                    forall|l: int| from <= l < j ==> x86_off(offsets@, code_len, l) < cur,
                    rows@ == before + x86_run(from, j as int),
                decreases n - j,
            {
                rows.push(DumpRow { arm: None, x86: Some(j) });
                assert(rows@ =~= before + x86_run(from, j + 1));
                j = j + 1;
            }
            proof {
                lemma_first_reaching_unique(offsets@, code_len, from, cur as int, j as int);
            }
            rows.push(DumpRow { arm: Some(k), x86: Some(j) });
        }
        k = k + 1;
    }
    let ghost done = rows@;
    let ghost last = j as int;
    j = j + 1;
    assert(done + x86_run(last + 1, j as int) =~= done);
    while j < n
        invariant
            last + 1 <= j,
            j <= n || j == last + 1,
            n == offsets.len(),
            rows@ == done + x86_run(last + 1, j as int),
        decreases n - j,
    {
        rows.push(DumpRow { arm: None, x86: Some(j) });
        assert(rows@ =~= done + x86_run(last + 1, j + 1));
        j = j + 1;
    }
    assert(rows@ =~= done + x86_run(last + 1, n as int));
    rows
}

/// The AArch64 instructions of `rows`, in order.
pub open spec fn arm_column(rows: Seq<DumpRow>) -> Seq<usize>
    decreases rows.len(),
{
    if rows.len() == 0 {
        Seq::empty()
    } else {
        arm_column(rows.drop_last()) + match rows.last().arm {
            Some(a) => seq![a],
            None => Seq::empty(),
        }
    }
}

/// The x86_64 instructions of `rows`, in order.
pub open spec fn x86_column(rows: Seq<DumpRow>) -> Seq<usize>
    decreases rows.len(),
{
    if rows.len() == 0 {
        Seq::empty()
    } else {
        x86_column(rows.drop_last()) + match rows.last().x86 {
            Some(a) => seq![a],
            None => Seq::empty(),
        }
    }
}

/// The indices `0..n`.
pub open spec fn indices(n: int) -> Seq<usize> {
    Seq::new(if n > 0 { n as nat } else { 0 }, |i: int| i as usize)
}

proof fn lemma_columns_append(a: Seq<DumpRow>, b: Seq<DumpRow>)
    ensures
        arm_column(a + b) == arm_column(a) + arm_column(b),
        x86_column(a + b) == x86_column(a) + x86_column(b),
    decreases b.len(),
{
    if b.len() == 0 {
        assert(a + b == a);
        assert(arm_column(a) + arm_column(b) == arm_column(a));
        assert(x86_column(a) + x86_column(b) == x86_column(a));
    } else {
        lemma_columns_append(a, b.drop_last());
        assert((a + b).drop_last() == a + b.drop_last());
        assert((a + b).last() == b.last());
        let tail_arm = match b.last().arm { Some(x) => seq![x], None => Seq::<usize>::empty() };
        let tail_x86 = match b.last().x86 { Some(x) => seq![x], None => Seq::<usize>::empty() };
        assert(arm_column(a) + arm_column(b.drop_last()) + tail_arm == arm_column(a) + (arm_column(b.drop_last()) + tail_arm));
        assert(x86_column(a) + x86_column(b.drop_last()) + tail_x86 == x86_column(a) + (x86_column(b.drop_last()) + tail_x86));
    }
}

proof fn lemma_single_row_columns(r: DumpRow)
    ensures
        arm_column(seq![r]) == (match r.arm { Some(a) => seq![a], None => Seq::<usize>::empty() }),
        x86_column(seq![r]) == (match r.x86 { Some(a) => seq![a], None => Seq::<usize>::empty() }),
{
    let s = seq![r];
    assert(s.drop_last() =~= Seq::<DumpRow>::empty());
    assert(s.last() == r);
    assert(arm_column(Seq::<DumpRow>::empty()) == Seq::<usize>::empty());
    assert(x86_column(Seq::<DumpRow>::empty()) == Seq::<usize>::empty());
    assert(Seq::<usize>::empty() + (match r.arm { Some(a) => seq![a], None => Seq::<usize>::empty() })
        =~= (match r.arm { Some(a) => seq![a], None => Seq::<usize>::empty() }));
    assert(Seq::<usize>::empty() + (match r.x86 { Some(a) => seq![a], None => Seq::<usize>::empty() })
        =~= (match r.x86 { Some(a) => seq![a], None => Seq::<usize>::empty() }));
}

proof fn lemma_run_columns(from: int, to: int)
    requires
        0 <= from,
        to <= usize::MAX + 1,
    ensures
        arm_column(x86_run(from, to)) == Seq::<usize>::empty(),
        x86_column(x86_run(from, to)) == Seq::new(if to > from { (to - from) as nat } else { 0 }, |i: int| (from + i) as usize),
    decreases if to > from { to - from } else { 0 },
{
    if to > from {
        lemma_run_columns(from, to - 1);
        assert(x86_run(from, to).drop_last() == x86_run(from, to - 1));
        assert(x86_column(x86_run(from, to)) =~= Seq::new((to - from) as nat, |i: int| (from + i) as usize));
    } else {
        assert(x86_run(from, to) =~= Seq::<DumpRow>::empty());
    }
}

proof fn lemma_listing_columns(instr_map: Seq<u16>, offsets: Seq<usize>, code_len: usize, k: nat)
    requires
        1 <= k <= instr_map.len(),
        forall|m: int| 0 <= m < instr_map.len() ==> instr_map[m] <= code_len,
        offsets.len() + k <= usize::MAX,
    ensures
        arm_column(listing(instr_map, offsets, code_len, k).0) == indices(k as int),
        x86_column(listing(instr_map, offsets, code_len, k).0) == indices(listing(instr_map, offsets, code_len, k).1 + 1),
        0 <= listing(instr_map, offsets, code_len, k).1 < offsets.len() + k,
    decreases k,
{
    let (rows, j) = listing(instr_map, offsets, code_len, k);
    if k == 1 {
        let r = seq![DumpRow { arm: Some(0usize), x86: Some(0usize) }];
        lemma_single_row_columns(DumpRow { arm: Some(0usize), x86: Some(0usize) });
        assert(arm_column(r) =~= indices(1));
        assert(x86_column(r) =~= indices(1));
    } else {
        lemma_listing_columns(instr_map, offsets, code_len, (k - 1) as nat);
        let (rows0, j0) = listing(instr_map, offsets, code_len, (k - 1) as nat);
        let cur = instr_map[k - 1] as int;
        let last_arm = DumpRow { arm: Some((k - 1) as usize), x86: None };
        if x86_off(offsets, code_len, j0) == cur {
            assert(rows == rows0.push(last_arm));
            assert(rows.drop_last() == rows0);
            assert(arm_column(rows) =~= indices(k as int));
            assert(x86_column(rows) =~= x86_column(rows0));
        } else {
            let from = j0 + 1;
            let w = if from > offsets.len() { from } else { offsets.len() as int };
            lemma_first_reaching_exists(offsets, code_len, from, cur, w);
            let j2 = first_reaching(offsets, code_len, from, cur);
            assert(is_first_reaching(offsets, code_len, from, cur, j2));
            assert(j2 <= w) by {
                if j2 > w {
                    assert(x86_off(offsets, code_len, w) < cur);
                }
            }
            let run = x86_run(from, j2);
            let tail = seq![DumpRow { arm: Some((k - 1) as usize), x86: Some(j2 as usize) }];
            assert(rows == rows0 + run + tail);
            lemma_columns_append(rows0 + run, tail);
            lemma_columns_append(rows0, run);
            lemma_run_columns(from, j2);
            lemma_single_row_columns(DumpRow { arm: Some((k - 1) as usize), x86: Some(j2 as usize) });
            assert(arm_column(tail) =~= seq![(k - 1) as usize]);
            assert(x86_column(tail) =~= seq![j2 as usize]);
            assert(arm_column(rows) =~= indices(k as int));
            assert(x86_column(rows) =~= indices(j2 + 1));
        }
    }
}

proof fn lemma_first_reaching_exists(offsets: Seq<usize>, code_len: usize, from: int, cur: int, w: int)
    requires
        from <= w,
        x86_off(offsets, code_len, w) >= cur,
    ensures
        exists|i: int| is_first_reaching(offsets, code_len, from, cur, i),
    decreases w - from,
{
    if x86_off(offsets, code_len, from) >= cur {
        assert(is_first_reaching(offsets, code_len, from, cur, from));
    } else {
        let next = from + 1;
        lemma_first_reaching_exists(offsets, code_len, next, cur, w);
        let i = choose|i: int| is_first_reaching(offsets, code_len, next, cur, i);
        assert(is_first_reaching(offsets, code_len, from, cur, i));
    }
}

/// A listing shows the AArch64 instructions `0..arm_count` once each, in order,
/// and the x86_64 instructions from the first on, once each, in order, through
/// every decoded one.
pub proof fn lemma_dump_lists_each_instruction_once(instr_map: Seq<u16>, offsets: Seq<usize>, code_len: usize, arm_count: nat)
    requires
        1 <= arm_count <= instr_map.len(),
        forall|m: int| 0 <= m < instr_map.len() ==> instr_map[m] <= code_len,
        offsets.len() + arm_count <= usize::MAX,
    ensures
        arm_column(spec_dump_rows(instr_map, offsets, code_len, arm_count)) == indices(arm_count as int),
        exists|m: int| m >= offsets.len()
            && x86_column(spec_dump_rows(instr_map, offsets, code_len, arm_count)) == indices(m),
{
    lemma_listing_columns(instr_map, offsets, code_len, arm_count);
    let (rows, j) = listing(instr_map, offsets, code_len, arm_count);
    let n = offsets.len() as int;
    let run = x86_run(j + 1, n);
    lemma_columns_append(rows, run);
    lemma_run_columns(j + 1, n);
    assert(arm_column(rows) + arm_column(run) =~= arm_column(rows));
    let m = if j + 1 > n { j + 1 } else { n };
    assert(x86_column(rows) + x86_column(run) =~= indices(m));
}

/// What `iced_x86::Decoder` gives for 64-bit `code`: for each instruction it decodes,
/// one after the other to the end of the code, its offset and whether it is invalid.
pub uninterp spec fn iced_decoded(code: Seq<u8>) -> Seq<(usize, bool)>;

/// Calls `iced_x86::Decoder::iter` on 64-bit `code` placed at address 0: each decoded
/// instruction's offset (its address) and whether it is invalid. The decoder reads at
/// least one byte for each instruction, so there are at most as many as bytes.
#[verifier::external_body]
fn decode_x86(code: &[u8]) -> (r: Vec<(usize, bool)>)
    ensures
        r@ == iced_decoded(code@),
        r@.len() <= code@.len(),
{
    let mut decoder = Decoder::with_ip(64, code, 0, DecoderOptions::NONE);
    decoder.iter().map(|i| (i.ip() as usize, i.is_invalid())).collect()
}

/// The offsets of the decoded instructions before the first invalid one.
pub open spec fn valid_offsets(d: Seq<(usize, bool)>) -> Seq<usize>
    decreases d.len(),
{
    if d.len() == 0 || d[0].1 {
        Seq::empty()
    } else {
        seq![d[0].0] + valid_offsets(d.drop_first())
    }
}

/// The offsets of the x86_64 instructions decoded from `code`, up to the first invalid one.
pub fn x86_instr_offsets(code: &[u8]) -> (r: Vec<usize>)
    ensures
        r@ == valid_offsets(iced_decoded(code@)),
        r@.len() <= code@.len(),
{
    let d = decode_x86(code);
    let mut out: Vec<usize> = Vec::new();
    let mut k: usize = 0;
    assert(d@.skip(0) =~= d@);
    assert(out@ + valid_offsets(d@.skip(0)) =~= valid_offsets(d@));
    while k < d.len() && !d[k].1
        invariant
            k <= d@.len(),
            out@.len() == k,
            out@ + valid_offsets(d@.skip(k as int)) == valid_offsets(d@),
        decreases d@.len() - k,
    {
        proof {
            let t = d@.skip(k as int);
            assert(t[0] == d@[k as int]);
            assert(t.drop_first() =~= d@.skip(k + 1));
            assert(out@.push(d@[k as int].0) + valid_offsets(d@.skip(k + 1)) =~= out@ + valid_offsets(t));
        }
        out.push(d[k].0);
        k = k + 1;
    }
    proof {
        let t = d@.skip(k as int);
        assert(t.len() == 0 || t[0].1);
        assert(out@ + valid_offsets(t) =~= out@);
    }
    out
}

/// The lines of the listing of a translated chunk of `arm_count` AArch64 instructions
/// whose translation is `code`, with `instr_map` the offset of each one's translation:
/// the listing of `dump_rows` over the instructions decoded from the code.
pub fn dump_listing(instr_map: &Vec<u16>, code: &[u8], arm_count: usize) -> (r: Vec<DumpRow>)
    requires
        1 <= arm_count <= instr_map.len(),
        forall|m: int| 0 <= m < instr_map.len() ==> instr_map@[m] <= code@.len(),
        code@.len() + arm_count <= usize::MAX,
    ensures
        r@ == spec_dump_rows(instr_map@, valid_offsets(iced_decoded(code@)), code@.len() as usize, arm_count as nat),
{
    let offsets = x86_instr_offsets(code);
    dump_rows(instr_map, &offsets, code.len(), arm_count)
}

} // verus!

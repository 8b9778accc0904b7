use xob64::runner::{
    argv_padding, call_site, shadow_push, shadow_stack_top, CompiledChunk, ExecLookup, ExecPool, ShadowPush, CHUNK_INSTRS,
};

fn chunk(addr: usize, len: usize, step: u16) -> CompiledChunk {
    CompiledChunk { instr_map: (0..CHUNK_INSTRS as u16).map(|i| i * step).collect(), addr, len, epilogue_offset: 0 }
}

#[test]
fn is_executable_checks_the_recorded_ranges() {
    let mut pool = ExecPool::new();
    assert!(!pool.is_executable(0x40_0000));
    pool.define_exec_range(0x40_0000, 0x40_2000);
    assert!(pool.is_executable(0x40_0000));
    assert!(pool.is_executable(0x40_1fff));
    assert!(!pool.is_executable(0x40_2000));
    assert!(!pool.is_executable(0x3f_ffff));
}

#[test]
fn get_exec_asks_for_a_chunk_then_finds_it() {
    let mut pool = ExecPool::new();
    pool.define_exec_range(0x40_0000, 0x40_2000);
    assert_eq!(pool.get_exec(0x50_0000), ExecLookup::NotExecutable);
    assert_eq!(pool.get_exec(0x40_0204), ExecLookup::NeedsCompile(0x40_0200));
    let c = chunk(0x7000_0000, 128 * 6, 6);
    assert!(c.is_well_formed());
    pool.insert_chunk(0x40_0200, c);
    assert_eq!(pool.get_exec(0x40_0204), ExecLookup::Found(0x7000_0006));
    assert_eq!(pool.get_exec(0x40_0200), ExecLookup::Found(0x7000_0000));
}

#[test]
fn from_exec_inverts_get_exec() {
    let mut pool = ExecPool::new();
    pool.define_exec_range(0x40_0000, 0x40_2000);
    pool.insert_chunk(0x40_0000, chunk(0x7000_0000, 128 * 6, 6));
    pool.insert_chunk(0x40_0200, chunk(0x7000_1000, 128 * 3, 3));
    for arm in [0x40_0000usize, 0x40_0004, 0x40_01fc, 0x40_0200, 0x40_0210] {
        match pool.get_exec(arm) {
            ExecLookup::Found(native) => assert_eq!(pool.from_exec(native), Some(arm)),
            other => panic!("unexpected {:?}", other),
        }
    }
    // Inside an instruction's translation.
    assert_eq!(pool.from_exec(0x7000_0007), Some(0x40_0004));
    // Outside every chunk.
    assert_eq!(pool.from_exec(0x6000_0000), None);
}

#[test]
fn a_chunk_with_an_offset_past_its_code_is_not_well_formed() {
    let mut c = chunk(0x1000, 100, 0);
    assert!(c.is_well_formed());
    c.instr_map[5] = 101;
    assert!(!c.is_well_formed());
    c.instr_map.pop();
    assert!(!c.is_well_formed());
}

#[test]
fn alloc_new_region_retires_the_current_allocation() {
    let mut pool = ExecPool::new();
    assert!(pool.needs_new_region(1));
    pool.alloc_new_region(0x9000_0000);
    assert_eq!(pool.fully_used_allocs, Vec::<usize>::new());
    assert_eq!(pool.next_code_addr(), 0x9000_0000);
    assert!(!pool.needs_new_region(16384));
    assert!(pool.needs_new_region(16385));
    pool.alloc_new_region(0xa000_0000);
    assert_eq!(pool.fully_used_allocs, vec![0x9000_0000]);
    assert_eq!(pool.current_alloc, 0xa000_0000);
}

#[test]
fn handler_call_sites() {
    assert_eq!(call_site(0x1000), 0x1000 - 12);
    assert_eq!(call_site(4), usize::MAX - 7);
}

#[test]
fn argv_padding_keeps_the_stack_aligned() {
    for argc in 0..10usize {
        let p = argv_padding(argc);
        assert_eq!(p, argc % 2);
        assert_eq!((32 + 8 * argc + 8 * p) % 16, 0);
    }
}

#[test]
fn shadow_stack_pushes_grow_down() {
    let top = shadow_stack_top(0x10_0000);
    assert_eq!(top, 0x10_1000);
    let p = shadow_push(top);
    assert_eq!(p, ShadowPush { sp: 0x10_0ff0, arm_slot: 0x10_0ff8, native_slot: 0x10_0ff0 });
    assert_eq!(shadow_push(8).sp, usize::MAX - 7);
}

use xob64::dump::{dump_rows, DumpRow};

fn row(arm: Option<usize>, x86: Option<usize>) -> DumpRow {
    DumpRow { arm, x86 }
}

#[test]
fn dump_rows_pairs_each_instruction_with_its_translation() {
    // Three AArch64 instructions translated to x86_64 instructions at offsets 0, 3, 5, 9, 12:
    // the first starts at 0, the second at 5, the third also at 5 (it emits nothing).
    let rows = dump_rows(&vec![0, 5, 5], &vec![0, 3, 5, 9, 12], 14, 3);
    assert_eq!(
        rows,
        vec![
            row(Some(0), Some(0)),
            row(None, Some(1)),
            row(Some(1), Some(2)),
            row(Some(2), None),
            row(None, Some(3)),
            row(None, Some(4)),
        ]
    );
}

#[test]
fn dump_rows_with_one_instruction_each() {
    let rows = dump_rows(&vec![0, 2, 4], &vec![0, 2, 4], 6, 3);
    assert_eq!(rows, vec![row(Some(0), Some(0)), row(Some(1), Some(1)), row(Some(2), Some(2))]);
}

#[test]
fn from_exec_skips_instructions_with_empty_translations() {
    let mut pool = ExecPool::new();
    pool.define_exec_range(0x40_0000, 0x40_0200);
    // Instruction 1 translates to nothing: it shares its offset with instruction 2.
    let mut instr_map: Vec<u16> = (0..CHUNK_INSTRS as u16).map(|i| i * 4).collect();
    instr_map[1] = 8;
    let c = CompiledChunk { instr_map, addr: 0x7000_0000, len: 128 * 4, epilogue_offset: 0 };
    assert!(c.is_well_formed());
    pool.insert_chunk(0x40_0000, c);
    assert_eq!(pool.get_exec(0x40_0008), ExecLookup::Found(0x7000_0008));
    assert_eq!(pool.from_exec(0x7000_0008), Some(0x40_0008));
    assert_eq!(pool.get_exec(0x40_0004), ExecLookup::Found(0x7000_0008));
    assert_eq!(pool.from_exec(0x7000_0000), Some(0x40_0000));
}

#[test]
fn placed_code_advances_the_next_address() {
    let mut pool = ExecPool::new();
    pool.alloc_new_region(0x9000_0000);
    assert_eq!(pool.next_code_addr(), 0x9000_0000);
    pool.record_placement(0x120);
    assert_eq!(pool.next_code_addr(), 0x9000_0120);
    assert!(!pool.needs_new_region(16384 - 0x120));
    assert!(pool.needs_new_region(16384 - 0x11f));
    pool.alloc_new_region(0xa000_0000);
    assert_eq!(pool.next_code_addr(), 0xa000_0000);
}

use xob64::dump::{dump_listing, x86_instr_offsets};

#[test]
fn x86_instr_offsets_stop_at_the_first_invalid_instruction() {
    let code = [0x48, 0xB8, 1, 2, 3, 4, 5, 6, 7, 8, 0xFF, 0xD0];
    assert_eq!(x86_instr_offsets(&code), vec![0, 10]);
    // 0x06 (push es) does not exist in 64-bit code.
    assert_eq!(x86_instr_offsets(&[0x90, 0x06, 0x90]), vec![0]);
    assert_eq!(x86_instr_offsets(&[]), Vec::<usize>::new());
}

#[test]
fn dump_listing_lays_out_the_decoded_code() {
    // nop; mov rax, imm64; call rax
    let code = [0x90, 0x48, 0xB8, 1, 2, 3, 4, 5, 6, 7, 8, 0xFF, 0xD0];
    let rows = dump_listing(&vec![0, 1], &code, 2);
    assert_eq!(rows, vec![row(Some(0), Some(0)), row(Some(1), Some(1)), row(None, Some(2))]);
    let rows = dump_listing(&vec![0, 11], &code, 2);
    assert_eq!(rows, vec![row(Some(0), Some(0)), row(None, Some(1)), row(Some(1), Some(2))]);
}

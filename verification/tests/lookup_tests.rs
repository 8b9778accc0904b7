use xob64::elf::DynamicEntry;
use xob64::elf_lookup::{
    bit_is_set, gnu_hash, gnu_hash_layout, lookup_tables, GnuHashLayout, GnuHashTable, GnuHashTableHeader, LookupTables,
    SymbolFinder, TablesError, DT_GNU_HASH, DT_NULL, DT_STRTAB, DT_SYMTAB,
};
use xob64::proxy::{create_lib_proxy, SHADOW_STACK_MISS, SHADOW_STACK_MISS_INDEX};
use xob64::wrapped::{classify_symbol, find_override, get_overrides, is_utf8, LibSymbol, Override};
use xob64::x86::{OpKind, CALL_RM64, JMP_RM64, JNE_REL32_64, MOV_R64_IMM64, RAX, RSP, SUB_RM64_IMM8};

#[test]
fn gnu_hash_of_known_names() {
    assert_eq!(gnu_hash(b""), 5381);
    assert_eq!(gnu_hash(b"printf"), 359345080);
    assert_eq!(gnu_hash(b"puts"), 2090629905);
    assert_eq!(gnu_hash(b"malloc"), 221883709);
}

#[test]
fn bit_is_set_tests_one_bit() {
    assert!(bit_is_set(0b1010, 1));
    assert!(!bit_is_set(0b1010, 2));
    assert!(bit_is_set(1u64 << 63, 63));
    assert!(!bit_is_set(0, 0));
}

#[test]
fn gnu_hash_layout_follows_the_header() {
    let h = GnuHashTableHeader { nbuckets: 3, symoffset: 1, bloom_size: 2, bloom_shift: 6 };
    assert_eq!(gnu_hash_layout(0x1000, &h), Some(GnuHashLayout { bloom: 0x1010, buckets: 0x1020, chain: 0x102c }));
    assert_eq!(gnu_hash_layout(u64::MAX - 8, &h), None);
}

/// Builds the GNU hash table of `names` (symbols `symoffset..`) as a linker would.
fn build_finder(names: &[&[u8]], symoffset: u32, nbuckets: u32, bloom_size: u32, bloom_shift: u32) -> SymbolFinder {
    let mut syms: Vec<(u32, Vec<u8>)> = names.iter().map(|n| (gnu_hash(n), n.to_vec())).collect();
    syms.sort_by_key(|(h, _)| h % nbuckets);
    let mut bloom = vec![0u64; bloom_size as usize];
    let mut buckets = vec![0u32; nbuckets as usize];
    let mut chain = Vec::new();
    for (i, (h, _)) in syms.iter().enumerate() {
        let w = ((h / 64) % bloom_size) as usize;
        bloom[w] |= 1u64 << (h % 64);
        bloom[w] |= 1u64 << ((h >> bloom_shift) % 64);
        let b = (h % nbuckets) as usize;
        if buckets[b] == 0 {
            buckets[b] = symoffset + i as u32;
        }
        let last = i + 1 == syms.len() || syms[i + 1].0 % nbuckets != h % nbuckets;
        chain.push(if last { h | 1 } else { h & !1 });
    }
    SymbolFinder {
        hash_table: GnuHashTable {
            header: GnuHashTableHeader { nbuckets, symoffset, bloom_size, bloom_shift },
            bloom,
            buckets,
            chain,
        },
        names: syms.into_iter().map(|(_, n)| n).collect(),
    }
}

#[test]
fn lookup_finds_each_symbol_of_the_table() {
    let f = build_finder(&[b"printf", b"puts", b"malloc", b"free"], 1, 2, 1, 6);
    for (i, n) in f.names.clone().iter().enumerate() {
        assert_eq!(f.lookup(n), Some(1 + i as u32));
    }
    assert_eq!(f.lookup(b"printf").map(|i| f.names[(i - 1) as usize].clone()), Some(b"printf".to_vec()));
}

#[test]
fn lookup_misses_names_not_in_the_table() {
    let f = build_finder(&[b"printf", b"puts", b"malloc"], 1, 2, 1, 6);
    assert_eq!(f.lookup(b"free"), None);
    assert_eq!(f.lookup(b"exit"), None);
    assert_eq!(f.lookup(b""), None);
}

#[test]
fn lookup_with_an_empty_bucket() {
    // Every name hashes to an even bucket here, so bucket 1 is empty.
    let f = build_finder(&[b"printf"], 3, 2, 1, 5);
    assert_eq!(f.hash_table.buckets, vec![3, 0]);
    assert_eq!(f.lookup(b"printf"), Some(3));
    assert_eq!(f.lookup(b"puts"), None);
}

#[test]
fn lookup_tables_stops_at_the_null_entry() {
    let d = |tag: i64, val: u64| DynamicEntry { tag, val };
    let entries = vec![d(DT_STRTAB, 0x100), d(DT_SYMTAB, 0x200), d(DT_GNU_HASH, 0x300), d(DT_STRTAB, 0x110)];
    assert_eq!(lookup_tables(&entries), Ok(LookupTables { strtab: 0x110, symtab: 0x200, gnu_hash: 0x300 }));
    let entries = vec![d(DT_STRTAB, 0x100), d(DT_SYMTAB, 0x200), d(DT_NULL, 0), d(DT_GNU_HASH, 0x300)];
    assert_eq!(lookup_tables(&entries), Err(TablesError::MissingGnuHash));
    assert_eq!(lookup_tables(&vec![d(DT_SYMTAB, 1)]), Err(TablesError::MissingStrtab));
    assert_eq!(lookup_tables(&vec![d(DT_STRTAB, 1)]), Err(TablesError::MissingSymtab));
}

#[test]
fn libc_gets_the_translator_overrides() {
    assert_eq!(get_overrides(b"libc.so.6"), vec![Override::LibcStartMain, Override::StackChkGuard]);
    assert_eq!(get_overrides(b"libc.so"), vec![Override::LibcStartMain, Override::StackChkGuard]);
    assert_eq!(get_overrides(b"libm.so.6"), vec![]);
    assert_eq!(get_overrides(b"/lib/libc.so.6"), vec![]);
    assert_eq!(get_overrides(b"libc.so\xff"), vec![]);
    assert!(is_utf8(b"libc.so.6"));
    assert!(!is_utf8(b"\xff"));
}

#[test]
fn find_override_matches_the_symbol_name() {
    let ov = get_overrides(b"libc.so.6");
    assert_eq!(find_override(&ov, b"__libc_start_main"), Some(Override::LibcStartMain));
    assert_eq!(find_override(&ov, b"__stack_chk_guard"), Some(Override::StackChkGuard));
    assert_eq!(find_override(&ov, b"puts"), None);
    assert_eq!(find_override(&vec![], b"__libc_start_main"), None);
    assert_eq!(Override::LibcStartMain.name(), b"__libc_start_main".to_vec());
}

#[test]
fn classify_symbol_by_binding_and_type() {
    let base = 0x7f00_0000_0000;
    // global function
    assert_eq!(classify_symbol(0x12, 5, 0x1000, base), LibSymbol::Function(base + 0x1000));
    // weak object
    assert_eq!(classify_symbol(0x21, 5, 0x2000, base), LibSymbol::Data(base + 0x2000));
    // local function
    assert_eq!(classify_symbol(0x02, 5, 0x1000, base), LibSymbol::NotExported);
    // undefined global
    assert_eq!(classify_symbol(0x12, 0, 0x1000, base), LibSymbol::NotExported);
    assert_eq!(classify_symbol(0x12, 5, u64::MAX, 1), LibSymbol::AddressOverflow);
}

#[test]
fn the_lib_proxy_calls_the_target_and_pops_the_shadow_stack() {
    let p = create_lib_proxy(0x1234_5678, 0xdead_beef);
    assert_eq!(p.instrs.len(), 20);
    assert_eq!(p.instrs[0].code, SUB_RM64_IMM8);
    assert_eq!(p.instrs[0].op0, OpKind::Register(RSP));
    assert_eq!(p.instrs[0].op1, OpKind::Immediate(16));
    assert_eq!(p.instrs[3].code, MOV_R64_IMM64);
    assert_eq!(p.instrs[3].op1, OpKind::Immediate(0x1234_5678));
    assert_eq!(p.instrs[4].code, CALL_RM64);
    assert_eq!(p.instrs[15].code, JNE_REL32_64);
    assert_eq!(p.instrs[15].op0, OpKind::NearBranch(SHADOW_STACK_MISS));
    assert_eq!(p.instrs[16].code, JMP_RM64);
    assert_eq!(p.instrs[16].op0, OpKind::Register(RAX));
    assert_eq!(p.instrs[18].op1, OpKind::Immediate(0xdead_beef));
    assert_eq!(p.labels, vec![(SHADOW_STACK_MISS, SHADOW_STACK_MISS_INDEX)]);
}

use xob64::wrapped::overrides_for;

#[test]
fn overrides_need_a_utf8_libc_name() {
    assert_eq!(overrides_for(b"libc.so.6", true), vec![Override::LibcStartMain, Override::StackChkGuard]);
    assert_eq!(overrides_for(b"libc.so.6", false), vec![]);
    assert_eq!(overrides_for(b"libcrypto.so", true), vec![]);
}

use xob64::elf_lookup::{chain_read_done, last_chain_start};

#[test]
fn the_chain_is_read_to_the_end_of_the_last_bucket() {
    assert_eq!(last_chain_start(&vec![0, 5, 9, 7], 4), Some(5));
    assert_eq!(last_chain_start(&vec![0, 1, 3], 4), None);
    assert_eq!(last_chain_start(&vec![4], 4), Some(0));
    assert!(!chain_read_done(3, 5, 1));
    assert!(!chain_read_done(6, 5, 2));
    assert!(chain_read_done(6, 5, 3));
}

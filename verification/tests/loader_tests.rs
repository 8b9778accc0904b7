use xob64::elf::{read_dynamic_entries, read_dynamic_relocations, read_load_segments, read_symbols, DynRelocation, DynamicEntry, LoadSegment};
use xob64::loader::{
    align_to_next, entry_point, base_reservation, bytes_equal, exported_symbols, init_fini_layout, is_loaded, needed_libraries,
    path_ends_with, plan_segment, plan_segment_fill, relocation_action, relocation_actions, AddrRange, BaseReservation,
    FnArray, LoadError, RelocAction, SegmentFill, SegmentMapping, SymbolPool, DT_FINI, DT_FINI_ARRAY, DT_FINI_ARRAYSZ,
    DT_INIT, DT_INIT_ARRAY, DT_INIT_ARRAYSZ, DT_NEEDED, PROT_READ, PROT_WRITE, R_AARCH64_GLOB_DAT, R_AARCH64_RELATIVE,
};

const PAGE: usize = 0x1000;

fn seg(address: u64, size: u64, align: u64, file_offset: u64, file_size: u64) -> LoadSegment {
    LoadSegment { address, size, align, file_offset, file_size, readable: true, writable: false, executable: false }
}

/// A little-endian ELF64 file with only a header and the given `PT_LOAD` program headers.
fn elf_with_segments(segs: &[LoadSegment]) -> Vec<u8> {
    elf_with_entry(segs, 0)
}

/// As `elf_with_segments`, with entry point `entry`.
fn elf_with_entry(segs: &[LoadSegment], entry: u64) -> Vec<u8> {
    let mut d: Vec<u8> = Vec::new();
    d.extend_from_slice(&[0x7f, b'E', b'L', b'F', 2, 1, 1, 0, 0, 0, 0, 0, 0, 0, 0, 0]);
    d.extend_from_slice(&3u16.to_le_bytes()); // e_type: ET_DYN
    d.extend_from_slice(&183u16.to_le_bytes()); // e_machine: EM_AARCH64
    d.extend_from_slice(&1u32.to_le_bytes()); // e_version
    d.extend_from_slice(&entry.to_le_bytes()); // e_entry
    d.extend_from_slice(&64u64.to_le_bytes()); // e_phoff
    d.extend_from_slice(&0u64.to_le_bytes()); // e_shoff
    d.extend_from_slice(&0u32.to_le_bytes()); // e_flags
    d.extend_from_slice(&64u16.to_le_bytes()); // e_ehsize
    d.extend_from_slice(&56u16.to_le_bytes()); // e_phentsize
    d.extend_from_slice(&(segs.len() as u16).to_le_bytes()); // e_phnum
    d.extend_from_slice(&64u16.to_le_bytes()); // e_shentsize
    d.extend_from_slice(&0u16.to_le_bytes()); // e_shnum
    d.extend_from_slice(&0u16.to_le_bytes()); // e_shstrndx
    for s in segs {
        let flags = (s.executable as u32) | ((s.writable as u32) << 1) | ((s.readable as u32) << 2);
        d.extend_from_slice(&1u32.to_le_bytes()); // PT_LOAD
        d.extend_from_slice(&flags.to_le_bytes());
        d.extend_from_slice(&s.file_offset.to_le_bytes());
        d.extend_from_slice(&s.address.to_le_bytes());
        d.extend_from_slice(&s.address.to_le_bytes());
        d.extend_from_slice(&s.file_size.to_le_bytes());
        d.extend_from_slice(&s.size.to_le_bytes());
        d.extend_from_slice(&s.align.to_le_bytes());
    }
    d
}

#[test]
fn align_to_next_rounds_up_to_the_alignment() {
    assert_eq!(align_to_next(0, PAGE), 0);
    assert_eq!(align_to_next(1, PAGE), 0x1000);
    assert_eq!(align_to_next(0x1000, PAGE), 0x1000);
    assert_eq!(align_to_next(0x1001, PAGE), 0x2000);
    assert_eq!(align_to_next(0x12345, 0x10000), 0x20000);
    assert_eq!(align_to_next(7, 1), 7);
}

#[test]
fn align_to_next_gives_least_multiple_not_below() {
    for addr in [0usize, 1, 15, 16, 17, 4095, 4096, 4097, 65535] {
        for k in 0..13 {
            let a = 1usize << k;
            let r = align_to_next(addr, a);
            assert_eq!(r % a, 0);
            assert!(addr <= r && r < addr + a);
        }
    }
}

#[test]
fn plan_segment_maps_from_the_page_start() {
    let mut s = seg(0x10234, 0x500, 0x1000, 0x234, 0x500);
    s.writable = true;
    let m = plan_segment(&s, 0x7000_0000_0000, PAGE).unwrap();
    assert_eq!(
        m,
        SegmentMapping {
            aligned_addr: 0x7000_0001_0000,
            aligned_size: 0x734,
            page_offset: 0x234,
            prot: PROT_READ | PROT_WRITE,
            map_offset: 0,
        }
    );
}

#[test]
fn plan_segment_uses_the_larger_of_page_and_segment_alignment() {
    let s = seg(0x21000, 0x100, 0x10000, 0x11000, 0x100);
    let m = plan_segment(&s, 0, PAGE).unwrap();
    assert_eq!(m.aligned_addr, 0x20000);
    assert_eq!(m.page_offset, 0x1000);
    assert_eq!(m.map_offset, 0x10000);
    assert_eq!(m.prot, PROT_READ);
}

#[test]
fn plan_segment_refuses_a_mapping_before_the_file() {
    let s = seg(0x10800, 0x100, 0x1000, 0x100, 0x100);
    assert_eq!(plan_segment(&s, 0, PAGE), Err(LoadError::MappingBeforeFile(-0x700)));
}

#[test]
fn plan_segment_refuses_an_address_out_of_range() {
    let s = seg(0x2000, 0x100, 0x1000, 0, 0x100);
    assert_eq!(plan_segment(&s, usize::MAX - 0x1000, PAGE), Err(LoadError::Overflow));
}

#[test]
fn plan_segment_gives_no_protection_to_an_inaccessible_segment() {
    let mut s = seg(0x1000, 0x10, 0x1000, 0x1000, 0x10);
    s.readable = false;
    assert_eq!(plan_segment(&s, 0, PAGE).unwrap().prot, 0);
}

#[test]
fn plan_segment_fill_zeroes_the_bss_and_maps_the_rest() {
    let mut s = seg(0x10100, 0x3000, 0x1000, 0x100, 0x200);
    s.executable = true;
    let m = plan_segment(&s, 0x4000_0000, PAGE).unwrap();
    let f = plan_segment_fill(&s, &m, m.aligned_addr, PAGE).unwrap();
    assert_eq!(
        f,
        SegmentFill {
            mapping_end: 0x4001_4000,
            zero: Some(AddrRange { start: 0x4001_0300, end: 0x4001_1000 }),
            anon: Some(AddrRange { start: 0x4001_1000, end: 0x4001_4000 }),
            exec_range: Some(AddrRange { start: 0x4001_0000, end: 0x4001_4000 }),
        }
    );
}

#[test]
fn plan_segment_fill_leaves_a_fully_backed_segment_alone() {
    let s = seg(0x2000, 0x800, 0x1000, 0x2000, 0x800);
    let m = plan_segment(&s, 0, PAGE).unwrap();
    let f = plan_segment_fill(&s, &m, m.aligned_addr, PAGE).unwrap();
    assert_eq!(f, SegmentFill { mapping_end: 0x3000, zero: None, anon: None, exec_range: None });
}

#[test]
fn plan_segment_fill_maps_nothing_anonymous_within_the_last_page() {
    let s = seg(0x2000, 0x900, 0x1000, 0x2000, 0x800);
    let m = plan_segment(&s, 0, PAGE).unwrap();
    let f = plan_segment_fill(&s, &m, m.aligned_addr, PAGE).unwrap();
    assert_eq!(f.zero, Some(AddrRange { start: 0x2800, end: 0x3000 }));
    assert_eq!(f.anon, None);
}

#[test]
fn base_reservation_covers_all_segments() {
    let segs = vec![seg(0, 0x1234, 0x10000, 0, 0x1234), seg(0x11000, 0x2500, 0x10000, 0x1000, 0x100)];
    let r = base_reservation(&segs, PAGE).unwrap();
    assert_eq!(r, BaseReservation { size: 0x14000 + 0x10000 - 0x1000, alignment: 0x10000 });
    for s in &segs {
        assert!((s.address + s.size) as usize <= r.size);
    }
}

#[test]
fn base_reservation_needs_a_segment_at_zero() {
    let segs = vec![seg(0x1000, 0x10, 0x1000, 0, 0x10)];
    assert_eq!(base_reservation(&segs, PAGE), Err(LoadError::NoBaseSegment));
    assert_eq!(base_reservation(&vec![], PAGE), Err(LoadError::NoBaseSegment));
}

#[test]
fn base_reservation_refuses_a_segment_end_out_of_range() {
    let segs = vec![seg(0, 0x10, 0x1000, 0, 0x10), seg(u64::MAX - 4, 0x10, 0x1000, 0, 0x10)];
    assert_eq!(base_reservation(&segs, PAGE), Err(LoadError::Overflow));
}

#[test]
fn read_load_segments_reads_the_program_headers() {
    let mut a = seg(0, 0x1234, 0x10000, 0, 0x1234);
    a.executable = true;
    let mut b = seg(0x11000, 0x2500, 0x10000, 0x1000, 0x100);
    b.writable = true;
    let data = elf_with_segments(&[a, b]);
    assert_eq!(read_load_segments(&data), Some(vec![a, b]));
    assert_eq!(read_load_segments(&[1, 2, 3]), None);
}

#[test]
fn an_object_without_sections_has_no_tables() {
    let data = elf_with_segments(&[seg(0, 0x10, 0x1000, 0, 0x10)]);
    assert_eq!(read_dynamic_entries(&data).map(|v| v.len()), Some(0));
    assert_eq!(read_dynamic_relocations(&data).map(|v| v.len()), Some(0));
    assert_eq!(read_symbols(&data).map(|v| v.len()), Some(0));
    assert_eq!(relocation_actions(&data, 0x1000).map(|v| v.len()), Ok(0));
    assert_eq!(exported_symbols(&data, 0x1000).map(|v| v.len()), Ok(0));
}

#[test]
fn unparsable_data_is_malformed() {
    assert_eq!(relocation_actions(&[0u8; 8], 0x1000).map(|v| v.len()), Err(LoadError::Malformed));
    assert_eq!(exported_symbols(&[0u8; 8], 0x1000).map(|v| v.len()), Err(LoadError::Malformed));
}

fn rel(offset: u64, r_type: Option<u32>, addend: i64, symbol: Option<usize>) -> DynRelocation {
    DynRelocation { offset, r_type, addend, symbol }
}

#[test]
fn a_relative_relocation_writes_base_plus_addend() {
    let a = relocation_action(&[], &rel(0x20, Some(R_AARCH64_RELATIVE), 0x1234, None), 0x40_0000).unwrap();
    match a {
        RelocAction::Write { at, value } => {
            assert_eq!(at, 0x40_0020);
            assert_eq!(value, 0x40_1234);
        }
        _ => panic!("expected a write"),
    }
}

#[test]
fn relocation_errors() {
    let base = 0x40_0000;
    let e = |r: DynRelocation| relocation_action(&[], &r, base).err();
    assert_eq!(e(rel(0, None, 0, None)), Some(LoadError::NotElfRelocation));
    assert_eq!(e(rel(0, Some(257), 0, None)), Some(LoadError::UnsupportedRelocation(257)));
    assert_eq!(e(rel(0, Some(R_AARCH64_GLOB_DAT), 0, None)), Some(LoadError::NonSymbolTarget));
    assert_eq!(e(rel(0, Some(R_AARCH64_GLOB_DAT), 0, Some(3))), Some(LoadError::MissingSymbol));
    assert_eq!(e(rel(0, Some(R_AARCH64_RELATIVE), -1, None)), Some(LoadError::Overflow));
    assert_eq!(
        relocation_action(&[], &rel(u64::MAX, Some(R_AARCH64_RELATIVE), 0, None), base).err(),
        Some(LoadError::Overflow)
    );
}

fn dynamic(tag: i64, val: u64) -> DynamicEntry {
    DynamicEntry { tag, val }
}

#[test]
fn init_fini_layout_orders_the_functions() {
    let entries = vec![
        dynamic(DT_INIT, 0x100),
        dynamic(DT_FINI, 0x200),
        dynamic(DT_INIT_ARRAY, 0x3000),
        dynamic(DT_INIT_ARRAYSZ, 24),
        dynamic(DT_INIT, 0x180),
        dynamic(DT_FINI_ARRAY, 0x4000),
        dynamic(5, 0x999),
    ];
    let f = init_fini_layout(&entries, 0x10_0000).unwrap();
    assert_eq!(f.init, vec![0x10_0180, 0x10_0100]);
    assert_eq!(f.fini, vec![0x10_0200]);
    assert_eq!(f.init_array, Some(FnArray { address: 0x10_3000, count: 3 }));
    assert_eq!(f.fini_array, None);
}

#[test]
fn init_fini_layout_takes_the_last_array_entries() {
    let entries = vec![
        dynamic(DT_FINI_ARRAYSZ, 8),
        dynamic(DT_FINI_ARRAY, 0x10),
        dynamic(DT_FINI_ARRAY, 0x20),
        dynamic(DT_FINI_ARRAYSZ, 16),
    ];
    let f = init_fini_layout(&entries, 0).unwrap();
    assert_eq!(f.fini_array, Some(FnArray { address: 0x20, count: 2 }));
    assert!(f.init.is_empty() && f.fini.is_empty() && f.init_array.is_none());
}

#[test]
fn init_fini_layout_refuses_values_out_of_range() {
    let entries = vec![dynamic(DT_INIT, 0x100), dynamic(30, u64::MAX)];
    assert_eq!(init_fini_layout(&entries, 1).err(), Some(LoadError::Overflow));
    assert!(init_fini_layout(&entries, 0).is_ok());
}

#[test]
fn needed_libraries_without_needed_entries() {
    let entries = vec![dynamic(DT_INIT, 1), dynamic(5, 2)];
    assert_eq!(needed_libraries(&[], &entries), Ok(vec![]));
    let entries = vec![dynamic(DT_NEEDED, 1)];
    assert_eq!(needed_libraries(&[], &entries), Err(LoadError::MissingName));
}

#[test]
fn a_library_is_loaded_when_a_path_ends_with_its_name() {
    let paths = vec![b"/usr/lib/libm.so.6".to_vec(), b"/lib/x86_64-linux-gnu/libc.so.6".to_vec()];
    assert!(is_loaded(&paths, b"libc.so.6"));
    assert!(is_loaded(&paths, b"libm.so.6"));
    assert!(!is_loaded(&paths, b"libc.so"));
    assert!(!is_loaded(&vec![], b"libc.so.6"));
    assert!(path_ends_with(&b"abc".to_vec(), b""));
    assert!(!path_ends_with(&b"bc".to_vec(), b"abc"));
}

#[test]
fn symbol_pool_reads_what_was_written() {
    let mut pool = SymbolPool::new();
    assert_eq!(pool.lookup(b"main"), None);
    pool.insert(b"main".to_vec(), 0x1000);
    pool.insert(b"puts".to_vec(), 0x2000);
    assert_eq!(pool.lookup(b"main"), Some(0x1000));
    assert_eq!(pool.lookup(b"puts"), Some(0x2000));
    pool.insert(b"main".to_vec(), 0x3000);
    assert_eq!(pool.lookup(b"main"), Some(0x3000));
    assert_eq!(pool.lookup(b"puts"), Some(0x2000));
    assert_eq!(pool.lookup(b"mai"), None);
}

#[test]
fn bytes_equal_compares_contents() {
    assert!(bytes_equal(b"abc", b"abc"));
    assert!(!bytes_equal(b"abc", b"abd"));
    assert!(!bytes_equal(b"abc", b"ab"));
    assert!(bytes_equal(b"", b""));
}

#[test]
fn the_entry_point_is_relative_to_the_base() {
    let data = elf_with_entry(&[seg(0, 0x10, 0x1000, 0, 0x10)], 0x1234);
    assert_eq!(entry_point(&data, 0x10000), Ok(0x11234));
    assert_eq!(entry_point(&data, usize::MAX), Err(LoadError::Overflow));
    assert_eq!(entry_point(&[1, 2, 3], 0x10000), Err(LoadError::Malformed));
}

fn pad8(d: &mut Vec<u8>) {
    while d.len() % 8 != 0 {
        d.push(0);
    }
}

fn push_sym(d: &mut Vec<u8>, name: u32, info: u8, shndx: u16, value: u64) {
    d.extend_from_slice(&name.to_le_bytes());
    d.push(info);
    d.push(0);
    d.extend_from_slice(&shndx.to_le_bytes());
    d.extend_from_slice(&value.to_le_bytes());
    d.extend_from_slice(&0u64.to_le_bytes());
}

fn push_section(d: &mut Vec<u8>, ty: u32, offset: usize, size: usize, link: u32, info: u32, entsize: u64) {
    d.extend_from_slice(&0u32.to_le_bytes()); // sh_name
    d.extend_from_slice(&ty.to_le_bytes());
    d.extend_from_slice(&0u64.to_le_bytes()); // sh_flags
    d.extend_from_slice(&0u64.to_le_bytes()); // sh_addr
    d.extend_from_slice(&(offset as u64).to_le_bytes());
    d.extend_from_slice(&(size as u64).to_le_bytes());
    d.extend_from_slice(&link.to_le_bytes());
    d.extend_from_slice(&info.to_le_bytes());
    d.extend_from_slice(&8u64.to_le_bytes()); // sh_addralign
    d.extend_from_slice(&entsize.to_le_bytes());
}

/// A small shared object: it needs `libc.so.6`, has a relative relocation and a
/// GOT relocation against `puts`, an init function, and exports `main` (a local
/// function `local` is not exported).
fn dynamic_object() -> Vec<u8> {
    let mut d = elf_with_segments(&[seg(0, 0x3000, 0x1000, 0, 0x3000)]);
    let dynstr_off = d.len();
    d.extend_from_slice(b"\0libc.so.6\0puts\0");
    let dynstr_size = d.len() - dynstr_off;
    pad8(&mut d);
    let dynsym_off = d.len();
    push_sym(&mut d, 0, 0, 0, 0);
    push_sym(&mut d, 11, 0x12, 0, 0);
    let dynsym_size = d.len() - dynsym_off;
    let rela_off = d.len();
    for (offset, info, addend) in [(0x2000u64, 1027u64, 0x1234i64), (0x2008, (1 << 32) | 1025, 0)] {
        d.extend_from_slice(&offset.to_le_bytes());
        d.extend_from_slice(&info.to_le_bytes());
        d.extend_from_slice(&addend.to_le_bytes());
    }
    let rela_size = d.len() - rela_off;
    let dynamic_off = d.len();
    for (tag, val) in [(DT_NEEDED, 1u64), (DT_INIT, 0x100), (0, 0)] {
        d.extend_from_slice(&tag.to_le_bytes());
        d.extend_from_slice(&val.to_le_bytes());
    }
    let dynamic_size = d.len() - dynamic_off;
    let strtab_off = d.len();
    d.extend_from_slice(b"\0main\0local\0");
    let strtab_size = d.len() - strtab_off;
    pad8(&mut d);
    let symtab_off = d.len();
    push_sym(&mut d, 0, 0, 0, 0);
    push_sym(&mut d, 1, 0x12, 1, 0x400);
    push_sym(&mut d, 6, 0x02, 1, 0x500);
    let symtab_size = d.len() - symtab_off;
    pad8(&mut d);
    let shoff = d.len();
    d.extend_from_slice(&[0u8; 64]);
    push_section(&mut d, 3, dynstr_off, dynstr_size, 0, 0, 0);
    push_section(&mut d, 11, dynsym_off, dynsym_size, 1, 1, 24);
    push_section(&mut d, 4, rela_off, rela_size, 2, 0, 24);
    push_section(&mut d, 6, dynamic_off, dynamic_size, 1, 0, 16);
    push_section(&mut d, 3, strtab_off, strtab_size, 0, 0, 0);
    push_section(&mut d, 2, symtab_off, symtab_size, 5, 2, 24);
    d[40..48].copy_from_slice(&(shoff as u64).to_le_bytes()); // e_shoff
    d[60..62].copy_from_slice(&7u16.to_le_bytes()); // e_shnum
    d[62..64].copy_from_slice(&1u16.to_le_bytes()); // e_shstrndx: section names are not needed
    d
}

#[test]
fn a_dynamic_object_is_read_through_its_tables() {
    let data = dynamic_object();
    let entries = read_dynamic_entries(&data).unwrap();
    assert_eq!(entries, vec![DynamicEntry { tag: DT_NEEDED, val: 1 }, DynamicEntry { tag: DT_INIT, val: 0x100 }]);
    assert_eq!(needed_libraries(&data, &entries), Ok(vec![b"libc.so.6".to_vec()]));
    assert_eq!(init_fini_layout(&entries, 0x10000).unwrap().init, vec![0x10100]);

    let actions = relocation_actions(&data, 0x10000).unwrap();
    assert_eq!(actions.len(), 2);
    match &actions[0] {
        RelocAction::Write { at, value } => assert_eq!((*at, *value), (0x12000, 0x11234)),
        _ => panic!("expected a write"),
    }
    match &actions[1] {
        RelocAction::Bind { at, name } => assert_eq!((*at, name.as_slice()), (0x12008, &b"puts"[..])),
        _ => panic!("expected a symbol binding"),
    }

    let exports = exported_symbols(&data, 0x10000).unwrap();
    assert_eq!(exports.len(), 1);
    assert_eq!((exports[0].name.as_slice(), exports[0].address), (&b"main"[..], 0x10400));

    let mut pool = SymbolPool::new();
    pool.insert_exports(&exports);
    assert_eq!(pool.lookup(b"main"), Some(0x10400));
    assert_eq!(pool.lookup(b"local"), None);
}

use xob64::elf::{DynSymbol, SymbolEntry};
use xob64::loader::{apply_relocation, exports_from, needed_values, place};

#[test]
fn apply_relocation_binds_or_skips_the_symbol() {
    let base = 0x40_0000;
    let r = rel(0x30, Some(R_AARCH64_GLOB_DAT), 0, Some(1));
    let strong = DynSymbol { name: Some(b"printf".to_vec()), weak: false };
    match apply_relocation(&r, Some(strong), base).unwrap() {
        RelocAction::Bind { at, name } => assert_eq!((at, name), (0x40_0030, b"printf".to_vec())),
        _ => panic!("expected a symbol binding"),
    }
    let weak = DynSymbol { name: Some(b"__gmon_start__".to_vec()), weak: true };
    assert!(matches!(apply_relocation(&r, Some(weak), base), Ok(RelocAction::Skip)));
    let nameless = DynSymbol { name: None, weak: false };
    assert_eq!(apply_relocation(&r, Some(nameless), base).err(), Some(LoadError::MissingName));
    assert_eq!(apply_relocation(&r, None, base).err(), Some(LoadError::MissingSymbol));
    let r = rel(0x30, Some(1026), 0, Some(1));
    let strong = DynSymbol { name: Some(b"exit".to_vec()), weak: false };
    assert!(matches!(apply_relocation(&r, Some(strong), base), Ok(RelocAction::Bind { at: 0x40_0030, .. })));
}

fn sym(name: &[u8], shndx: u16, bind: u8, other: u8, value: u64) -> SymbolEntry {
    SymbolEntry { name: Some(name.to_vec()), shndx, bind, other, value }
}

#[test]
fn exports_from_keeps_defined_global_default_symbols() {
    let syms = vec![
        SymbolEntry { name: None, shndx: 0, bind: 0, other: 0, value: 0 },
        sym(b"main", 12, 1, 0, 0x400),
        sym(b"helper", 12, 0, 0, 0x500),
        sym(b"weak_fn", 12, 2, 0, 0x600),
        sym(b"hidden", 12, 1, 2, 0x700),
        sym(b"puts", 0, 1, 0, 0),
    ];
    let exports = exports_from(&syms, 0x10_0000).unwrap();
    let got: Vec<(Vec<u8>, usize)> = exports.into_iter().map(|e| (e.name, e.address)).collect();
    assert_eq!(got, vec![(b"main".to_vec(), 0x10_0400), (b"weak_fn".to_vec(), 0x10_0600)]);
    let nameless = vec![SymbolEntry { name: None, shndx: 3, bind: 1, other: 0, value: 0 }];
    assert_eq!(exports_from(&nameless, 0).map(|v| v.len()), Err(LoadError::MissingName));
    let far = vec![sym(b"far", 3, 1, 0, u64::MAX)];
    assert_eq!(exports_from(&far, 0x1000).map(|v| v.len()), Err(LoadError::Overflow));
}

#[test]
fn needed_values_lists_the_needed_entries() {
    let entries = vec![dynamic(DT_NEEDED, 1), dynamic(DT_INIT, 0x100), dynamic(DT_NEEDED, 11)];
    assert_eq!(needed_values(&entries), vec![1, 11]);
    assert_eq!(needed_values(&vec![]), Vec::<u64>::new());
}

#[test]
fn place_offsets_into_the_object() {
    assert_eq!(place(0x1000, 0x20), Some(0x1020));
    assert_eq!(place(usize::MAX, 1), None);
}

#[test]
fn a_defined_symbol_is_found_at_base_plus_value() {
    let syms = vec![
        sym(b"dup", 12, 1, 0, 0x100),
        sym(b"main", 12, 1, 0, 0x400),
        sym(b"undefined", 0, 1, 0, 0),
        sym(b"dup", 12, 2, 0, 0x900),
    ];
    let exports = exports_from(&syms, 0x20_0000).unwrap();
    let mut pool = SymbolPool::new();
    pool.insert(b"main".to_vec(), 1);
    pool.insert_exports(&exports);
    assert_eq!(pool.lookup(b"main"), Some(0x20_0400));
    assert_eq!(pool.lookup(b"dup"), Some(0x20_0900));
    assert_eq!(pool.lookup(b"undefined"), None);
}

use xob64::loader::ResolveStep;

#[test]
fn resolve_step_prefers_the_binding_then_asks_each_library() {
    let mut pool = SymbolPool::new();
    assert_eq!(pool.resolve_step(b"open", 0, 2), ResolveStep::AskLibrary(0));
    assert_eq!(pool.resolve_step(b"open", 1, 2), ResolveStep::AskLibrary(1));
    assert_eq!(pool.resolve_step(b"open", 2, 2), ResolveStep::Unresolved);
    pool.insert(b"open".to_vec(), 0x7f00_1000);
    assert_eq!(pool.resolve_step(b"open", 0, 2), ResolveStep::Bound(0x7f00_1000));
    assert_eq!(pool.resolve_step(b"open", 2, 2), ResolveStep::Bound(0x7f00_1000));
    assert_eq!(pool.resolve_step(b"close", 0, 0), ResolveStep::Unresolved);
}

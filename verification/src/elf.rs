//! What the loader reads out of an ELF file, as plain values: the loadable
//! segments, the dynamic entries and relocations, and the symbols. The file is
//! parsed by the `object` crate; each reader below parses the bytes and hands out
//! one table of the result.
use vstd::prelude::*;
use object::read::elf::{ElfFile64, Sym};
use object::{Endianness, Object, ObjectSegment, ObjectSymbol, ObjectSymbolTable};

verus! {

/// A `PT_LOAD` program header.
#[derive(Clone, Copy, PartialEq, Eq, Structural, Debug)]
pub struct LoadSegment {
    /// `p_vaddr`.
    pub address: u64,
    /// `p_memsz`.
    pub size: u64,
    /// `p_align`.
    pub align: u64,
    /// `p_offset`.
    pub file_offset: u64,
    /// `p_filesz`.
    pub file_size: u64,
    pub readable: bool,
    pub writable: bool,
    pub executable: bool,
}

/// An entry of the dynamic table.
#[derive(Clone, Copy, PartialEq, Eq, Structural, Debug)]
pub struct DynamicEntry {
    /// `d_tag`.
    pub tag: i64,
    /// `d_val`.
    pub val: u64,
}

/// A dynamic relocation.
#[derive(Clone, Copy, PartialEq, Eq, Structural, Debug)]
pub struct DynRelocation {
    /// `r_offset`: where the relocation writes, relative to the object's base.
    pub offset: u64,
    /// The ELF relocation type, when the relocation is one of ELF's.
    pub r_type: Option<u32>,
    /// `r_addend`.
    pub addend: i64,
    /// The index of the target in the dynamic symbol table, when the target is a symbol.
    pub symbol: Option<usize>,
}

/// A symbol of the dynamic symbol table.
#[derive(Clone, Debug)]
pub struct DynSymbol {
    /// The name, when the string table holds it.
    pub name: Option<Vec<u8>>,
    /// The binding is `STB_WEAK`.
    pub weak: bool,
}

/// A symbol of the (static) symbol table.
#[derive(Clone, Debug)]
pub struct SymbolEntry {
    /// The name, when the string table holds it.
    pub name: Option<Vec<u8>>,
    /// `st_shndx`.
    pub shndx: u16,
    /// The binding, `st_info >> 4`.
    pub bind: u8,
    /// `st_other`.
    pub other: u8,
    /// `st_value`.
    pub value: u64,
}

/// The `PT_LOAD` segments of the ELF64 file `data`, in file order; `None` when
/// `object` cannot parse it.
pub uninterp spec fn elf_load_segments(data: Seq<u8>) -> Option<Seq<LoadSegment>>;

/// The dynamic entries of `data` before the first `DT_NULL`.
pub uninterp spec fn elf_dynamic_entries(data: Seq<u8>) -> Option<Seq<DynamicEntry>>;

/// The string at offset `val` of the dynamic string table of `data`.
pub uninterp spec fn elf_dynamic_string(data: Seq<u8>, val: u64) -> Option<Seq<u8>>;

/// The dynamic relocations of `data`, with the offset each writes to.
pub uninterp spec fn elf_dynamic_relocations(data: Seq<u8>) -> Option<Seq<DynRelocation>>;

/// The symbol at `index` of the dynamic symbol table of `data`.
pub uninterp spec fn elf_dynamic_symbol(data: Seq<u8>, index: usize) -> Option<(Option<Seq<u8>>, bool)>;

/// The entries of the symbol table of `data`, the null symbol first.
pub uninterp spec fn elf_symbols(data: Seq<u8>) -> Option<Seq<SymbolEntry>>;

/// The view of a dynamic symbol: its name and whether it is weak.
pub open spec fn dyn_symbol_view(s: DynSymbol) -> (Option<Seq<u8>>, bool) {
    (
        match s.name {
            Some(n) => Some(n@),
            None => None,
        },
        s.weak,
    )
}

/// Parses `data` with `object::read::elf::ElfFile64::parse` and lists its
/// `segments()` (the `PT_LOAD` program headers) with their address, size,
/// alignment, file range and permissions. The result is what `object` makes of
/// the bytes, and nothing more is claimed of it.
#[verifier::external_body]
pub fn read_load_segments(data: &[u8]) -> (r: Option<Vec<LoadSegment>>)
    ensures
        match r {
            Some(v) => elf_load_segments(data@) == Some(v@),
            None => elf_load_segments(data@) is None,
        },
{
    let elf = ElfFile64::<Endianness>::parse(data).ok()?;
    Some(elf.segments().map(|s| LoadSegment {
        address: s.address(), size: s.size(), align: s.align(),
        file_offset: s.file_range().0, file_size: s.file_range().1,
        readable: s.permissions().readable(), writable: s.permissions().writable(),
        executable: s.permissions().executable(),
    }).collect())
}

/// Parses `data` with `ElfFile64::parse` and lists the entries of
/// `elf_dynamic_table()` (which ends at the first `DT_NULL`) as tag and value.
#[verifier::external_body]
pub fn read_dynamic_entries(data: &[u8]) -> (r: Option<Vec<DynamicEntry>>)
    ensures
        match r {
            Some(v) => elf_dynamic_entries(data@) == Some(v@),
            None => elf_dynamic_entries(data@) is None,
        },
{
    let elf = ElfFile64::<Endianness>::parse(data).ok()?;
    let table = elf.elf_dynamic_table().ok()?;
    Some(table.iter().map(|d| DynamicEntry { tag: d.tag.0, val: d.val }).collect())
}

/// Parses `data` with `ElfFile64::parse` and calls `DynamicTable::string` on an
/// entry with value `val`, which looks `val` up in the dynamic string table.
#[verifier::external_body]
pub fn read_dynamic_string(data: &[u8], val: u64) -> (r: Option<Vec<u8>>)
    ensures
        match r {
            Some(v) => elf_dynamic_string(data@, val) == Some(v@),
            None => elf_dynamic_string(data@, val) is None,
        },
{
    let elf = ElfFile64::<Endianness>::parse(data).ok()?;
    let table = elf.elf_dynamic_table().ok()?;
    let entry = object::read::elf::Dynamic { tag: object::elf::DT_NEEDED, val };
    table.string(entry).ok().map(|s| s.to_vec())
}

/// Parses `data` with `ElfFile64::parse` and lists `dynamic_relocations()` (none
/// when it gives `None`): the offset, the ELF relocation type when `flags()` is
/// `RelocationFlags::Elf`, the addend, and the symbol index when `target()` is a
/// symbol.
#[verifier::external_body]
pub fn read_dynamic_relocations(data: &[u8]) -> (r: Option<Vec<DynRelocation>>)
    ensures
        match r {
            Some(v) => elf_dynamic_relocations(data@) == Some(v@),
            None => elf_dynamic_relocations(data@) is None,
        },
{
    let elf = ElfFile64::<Endianness>::parse(data).ok()?;
    Some(elf.dynamic_relocations().into_iter().flatten().map(|(offset, rel)| DynRelocation {
        offset,
        r_type: match rel.flags() { object::RelocationFlags::Elf { r_type } => Some(r_type.0), _ => None },
        addend: rel.addend(),
        symbol: match rel.target() { object::RelocationTarget::Symbol(i) => Some(i.0), _ => None },
    }).collect())
}

/// Parses `data` with `ElfFile64::parse` and takes `symbol_by_index(index)` of
/// `dynamic_symbol_table()`: its `name_bytes()` and `is_weak()`.
#[verifier::external_body]
pub fn read_dynamic_symbol(data: &[u8], index: usize) -> (r: Option<DynSymbol>)
    ensures
        match r {
            Some(s) => elf_dynamic_symbol(data@, index) == Some(dyn_symbol_view(s)),
            None => elf_dynamic_symbol(data@, index) is None,
        },
{
    let elf = ElfFile64::<Endianness>::parse(data).ok()?;
    let sym = elf.dynamic_symbol_table()?.symbol_by_index(object::SymbolIndex(index)).ok()?;
    Some(DynSymbol { name: sym.name_bytes().ok().map(|n| n.to_vec()), weak: sym.is_weak() })
}

/// Parses `data` with `ElfFile64::parse` and lists the entries of
/// `elf_symbol_table().symbols()`: name (looked up in the table's strings),
/// section index, binding, `st_other` and value.
#[verifier::external_body]
pub fn read_symbols(data: &[u8]) -> (r: Option<Vec<SymbolEntry>>)
    ensures
        match r {
            Some(v) => elf_symbols(data@) == Some(v@),
            None => elf_symbols(data@) is None,
        },
{
    let elf = ElfFile64::<Endianness>::parse(data).ok()?;
    let (table, e) = (elf.elf_symbol_table(), elf.endian());
    Some(table.symbols().iter().map(|s| SymbolEntry {
        name: s.name(e, table.strings()).ok().map(|n| n.to_vec()),
        shndx: s.st_shndx(e).0, bind: s.st_bind().0, other: s.st_other().0, value: s.st_value(e),
    }).collect())
}

/// The entry point (`e_entry`) of the ELF64 file `data`.
pub uninterp spec fn elf_entry(data: Seq<u8>) -> Option<u64>;

/// Parses `data` with `ElfFile64::parse` and takes its `entry()`, the header's
/// `e_entry`.
#[verifier::external_body]
pub fn read_entry(data: &[u8]) -> (r: Option<u64>)
    ensures
        r == elf_entry(data@),
{
    let elf = ElfFile64::<Endianness>::parse(data).ok()?;
    Some(elf.entry())
}

} // verus!

//! Libraries of the host that translated code calls directly ("wrapped"
//! libraries): which of their symbols the translator replaces with its own, and
//! how a symbol found in a library's tables is handed to translated code.
use vstd::prelude::*;
use crate::loader::bytes_equal;

verus! {

// ---------------------------------------------------------------------------
// Overrides
// ---------------------------------------------------------------------------

/// Whether `bytes` is valid UTF-8, as `std::str::from_utf8` decides it.
pub uninterp spec fn utf8_valid(bytes: Seq<u8>) -> bool;

/// Calls `std::str::from_utf8` and tells whether it succeeded, that is whether
/// `bytes` is valid UTF-8.
#[verifier::external_body]
pub fn is_utf8(bytes: &[u8]) -> (r: bool)
    ensures
        r == utf8_valid(bytes@),
{
    std::str::from_utf8(bytes).is_ok()
}

/// A symbol of a wrapped library that the translator provides itself.
#[derive(Clone, Copy, PartialEq, Eq, Structural, Debug)]
pub enum Override {
    /// `__libc_start_main`, which starts `main` under translation.
    LibcStartMain,
    /// `__stack_chk_guard`, the stack protector's canary.
    StackChkGuard,
}

/// The bytes of `"libc.so"`.
pub open spec fn libc_prefix() -> Seq<u8> {
    seq![108u8, 105u8, 98u8, 99u8, 46u8, 115u8, 111u8]
}

/// The name of an overridden symbol.
pub open spec fn override_name(o: Override) -> Seq<u8> {
    match o {
        Override::LibcStartMain => seq![
            95u8, 95u8, 108u8, 105u8, 98u8, 99u8, 95u8, 115u8, 116u8, 97u8, 114u8, 116u8, 95u8,
            109u8, 97u8, 105u8, 110u8,
        ],
        Override::StackChkGuard => seq![
            95u8, 95u8, 115u8, 116u8, 97u8, 99u8, 107u8, 95u8, 99u8, 104u8, 107u8, 95u8, 103u8,
            117u8, 97u8, 114u8, 100u8,
        ],
    }
}

/// `s` starts with `prefix`.
pub open spec fn starts_with(s: Seq<u8>, prefix: Seq<u8>) -> bool {
    prefix.len() <= s.len() && s.subrange(0, prefix.len() as int) == prefix
}

/// The symbols the translator provides for the library called `name`.
pub open spec fn spec_overrides(name: Seq<u8>) -> Seq<Override> {
    if utf8_valid(name) && starts_with(name, libc_prefix()) {
        seq![Override::LibcStartMain, Override::StackChkGuard]
    } else {
        Seq::empty()
    }
}

impl Override {
    /// The name of the symbol.
    pub fn name(&self) -> (r: Vec<u8>)
        ensures
            r@ == override_name(*self),
    {
        let r = match self {
            Override::LibcStartMain => vec![
                95u8, 95u8, 108u8, 105u8, 98u8, 99u8, 95u8, 115u8, 116u8, 97u8, 114u8, 116u8, 95u8,
                109u8, 97u8, 105u8, 110u8,
            ],
            Override::StackChkGuard => vec![
                95u8, 95u8, 115u8, 116u8, 97u8, 99u8, 107u8, 95u8, 99u8, 104u8, 107u8, 95u8, 103u8,
                117u8, 97u8, 114u8, 100u8,
            ],
        };
        assert(r@ =~= override_name(*self));
        r
    }
}

/// The symbols the translator provides in place of those of the library called
/// `name`: for the C library (a UTF-8 name starting with `libc.so`), its own
/// `__libc_start_main` and `__stack_chk_guard`; for other libraries none.
pub fn get_overrides(name: &[u8]) -> (r: Vec<Override>)
    ensures
        r@ == spec_overrides(name@),
{
    overrides_for(name, is_utf8(name))
}

/// The overrides for the library called `name`, where `utf8` tells whether the
/// name is valid UTF-8: those of the C library when it is and starts with
/// `libc.so`, none otherwise.
pub fn overrides_for(name: &[u8], utf8: bool) -> (r: Vec<Override>)
    ensures
        r@ == (if utf8 && starts_with(name@, libc_prefix()) {
            seq![Override::LibcStartMain, Override::StackChkGuard]
        } else {
            Seq::<Override>::empty()
        }),
{
    let prefix: [u8; 7] = [108u8, 105u8, 98u8, 99u8, 46u8, 115u8, 111u8];
    assert(prefix@ =~= libc_prefix());
    if utf8 && bytes_start_with(name, prefix.as_slice()) {
        let r = vec![Override::LibcStartMain, Override::StackChkGuard];
        assert(r@ =~= seq![Override::LibcStartMain, Override::StackChkGuard]);
        r
    } else {
        let r: Vec<Override> = Vec::new();
        assert(r@ =~= Seq::<Override>::empty());
        r
    }
}

/// Whether `s` starts with `prefix`.
pub fn bytes_start_with(s: &[u8], prefix: &[u8]) -> (r: bool)
    ensures
        r == starts_with(s@, prefix@),
{
    if prefix.len() > s.len() {
        return false;
    }
    let mut i: usize = 0;
    while i < prefix.len()
        invariant
            i <= prefix.len(),
            prefix.len() <= s.len(),
            forall|j: int| 0 <= j < i ==> s@[j] == prefix@[j],
        decreases prefix.len() - i,
    {
        if s[i] != prefix[i] {
            assert(s@.subrange(0, prefix.len() as int)[i as int] != prefix@[i as int]);
            return false;
        }
        i = i + 1;
    }
    assert(s@.subrange(0, prefix.len() as int) =~= prefix@);
    true
}

/// The first of `overrides` named `name`.
pub open spec fn spec_find_override(overrides: Seq<Override>, name: Seq<u8>) -> Option<Override>
    decreases overrides.len(),
{
    if overrides.len() == 0 {
        None
    } else if override_name(overrides[0]) == name {
        Some(overrides[0])
    } else {
        spec_find_override(overrides.drop_first(), name)
    }
}

/// The override among `overrides` for the symbol `name`, if it is one.
pub fn find_override(overrides: &Vec<Override>, name: &[u8]) -> (r: Option<Override>)
    ensures
        r == spec_find_override(overrides@, name@),
{
    let mut i: usize = 0;
    assert(overrides@.skip(0) =~= overrides@);
    while i < overrides.len()
        invariant
            i <= overrides.len(),
            spec_find_override(overrides@, name@) == spec_find_override(overrides@.skip(i as int), name@),
        decreases overrides.len() - i,
    {
        assert(overrides@.skip(i as int)[0] == overrides@[i as int]);
        assert(overrides@.skip(i as int).drop_first() == overrides@.skip(i + 1));
        let o = overrides[i];
        let n = o.name();
        if bytes_equal(n.as_slice(), name) {
            return Some(o);
        }
        i = i + 1;
    }
    None
}

// ---------------------------------------------------------------------------
// Symbols of a wrapped library
// ---------------------------------------------------------------------------

/// `STT_FUNC`: the symbol is a function.
pub const STT_FUNC: u8 = 2;

/// How a symbol of a wrapped library is made available.
#[derive(Clone, Copy, PartialEq, Eq, Structural, Debug)]
pub enum LibSymbol {
    /// A function at this native address: translated code calls it through a proxy.
    Function(u64),
    /// Data at this address, used as it is.
    Data(u64),
    /// Not defined by the library, or local to it.
    NotExported,
    /// The symbol's value plus the library's base does not fit in 64 bits.
    AddressOverflow,
}

/// How the symbol with `st_info`, `st_shndx` and `st_value`, of a library loaded
/// at `base`, is made available.
pub open spec fn spec_classify_symbol(st_info: u8, st_shndx: u16, st_value: u64, base: u64) -> LibSymbol {
    let bind = st_info >> 4;
    let ty = st_info & 0xf;
    if (bind == crate::loader::STB_GLOBAL || bind == crate::loader::STB_WEAK) && st_shndx != crate::loader::SHN_UNDEF {
        if st_value + base > u64::MAX {
            LibSymbol::AddressOverflow
        } else if ty == STT_FUNC {
            LibSymbol::Function((st_value + base) as u64)
        } else {
            LibSymbol::Data((st_value + base) as u64)
        }
    } else {
        LibSymbol::NotExported
    }
}

/// How a symbol found in the tables of a library loaded at `base` is made
/// available: a global or weak symbol that the library defines is at its value
/// plus the base, and is a function when its type says so; any other symbol is
/// not available.
pub fn classify_symbol(st_info: u8, st_shndx: u16, st_value: u64, base: u64) -> (r: LibSymbol)
    ensures
        r == spec_classify_symbol(st_info, st_shndx, st_value, base),
{
    let bind = st_info >> 4;
    let ty = st_info & 0xf;
    if (bind == crate::loader::STB_GLOBAL || bind == crate::loader::STB_WEAK) && st_shndx != crate::loader::SHN_UNDEF {
        if st_value > u64::MAX - base {
            LibSymbol::AddressOverflow
        } else if ty == STT_FUNC {
            LibSymbol::Function(st_value + base)
        } else {
            LibSymbol::Data(st_value + base)
        }
    } else {
        LibSymbol::NotExported
    }
}

} // verus!

//! Translation of AArch64 user-space code to x86_64: the decisions of an ahead-of-use
//! binary translator, from register allocation and instruction selection to the
//! bookkeeping of translated code chunks and the loading of ELF objects.
pub mod arm;
pub mod x86;
pub mod register;
pub mod instr_utils;
pub mod branch;
pub mod arith;
pub mod load_store;
pub mod runner;
pub mod pauth;
pub mod compiler;
pub mod encoding;
pub mod accept;
pub mod dump;
pub mod elf;
pub mod loader;
pub mod elf_lookup;
pub mod wrapped;
pub mod proxy;


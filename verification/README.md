# xob64

Runs AArch64 Linux programs on x86_64 by loading their ELF files and translating
their code, 512 bytes at a time, to x86_64 the first time it is about to run.
Host libraries that a program needs are loaded by the system loader and called
directly through small proxies.

The translator's decisions are a library verified with Verus (`src/`):

- `arm`, `x86`: plain-value models of a decoded AArch64 instruction and of an
  x86_64 instruction ready for encoding, with an assembler that collects them.
- `register`: where each AArch64 register lives (an x86_64 register or a slot of
  the execution context).
- `instr_utils`, `arith`, `load_store`, `branch`, `pauth`, `compiler`: the
  translation of instructions and of whole chunks; `accept` says which decoded
  instructions the translations are written for.
- `encoding`: machine code for a block of instructions. Which `iced_x86`
  constructor builds each instruction, the label markers, and what is handed to the
  block encoder are verified; what the encoder makes of it is named, not proved.
- `runner`: which AArch64 ranges are code, which chunks are translated, and the
  mapping between AArch64 and x86_64 addresses in both directions.
- `elf`, `loader`: what is read from an ELF file, and how it is laid out in
  memory, relocated and initialised; the global symbol table.
- `elf_lookup`, `wrapped`, `proxy`: finding symbols of host libraries through
  their GNU hash tables, the symbols the translator provides itself, and the
  proxies through which translated code calls host functions.
- `dump`: the layout of a translation listing, over the x86_64 instructions that
  `iced_x86`'s decoder finds in the translated code.

`app/` is the program around the library: argument handling, memory mapping,
the system loader, decoding with `bad64`, the entry into
translated code and the handlers it calls back into.

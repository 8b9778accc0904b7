//! Finding a symbol of a library that the system loader has loaded, through the
//! library's GNU hash table: the dynamic entries that locate the tables, the
//! layout of the hash table, and the lookup itself.
use vstd::prelude::*;
use crate::elf::DynamicEntry;
use crate::loader::bytes_equal;

verus! {

// ---------------------------------------------------------------------------
// The hash function
// ---------------------------------------------------------------------------

/// The GNU hash of `name`: 5381, then for each byte `h * 33 + byte`, modulo 2^32.
pub open spec fn spec_gnu_hash(name: Seq<u8>) -> u32
    decreases name.len(),
{
    if name.len() == 0 {
        5381
    } else {
        ((spec_gnu_hash(name.drop_last()) * 33) + name.last()) as u32
    }
}

/// The GNU hash of `name`, as `object::elf::gnu_hash` computes it.
pub fn gnu_hash(name: &[u8]) -> (h: u32)
    ensures
        h == spec_gnu_hash(name@),
{
    let mut h: u32 = 5381;
    let mut i: usize = 0;
    assert(name@.take(0) =~= Seq::<u8>::empty());
    while i < name.len()
        invariant
            i <= name@.len(),
            h == spec_gnu_hash(name@.take(i as int)),
        decreases name@.len() - i,
    {
        proof {
            let t = name@.take(i + 1);
            assert(t.drop_last() =~= name@.take(i as int));
            assert(t.last() == name@[i as int]);
        }
        h = ((h as u64) * 33 + (name[i] as u64)) as u32;
        i = i + 1;
    }
    assert(name@.take(name@.len() as int) =~= name@);
    h
}

// ---------------------------------------------------------------------------
// The hash table
// ---------------------------------------------------------------------------

/// The header of a `DT_GNU_HASH` table.
#[derive(Clone, Copy, PartialEq, Eq, Structural, Debug)]
pub struct GnuHashTableHeader {
    pub nbuckets: u32,
    /// The index of the first symbol the table covers.
    pub symoffset: u32,
    /// The number of 64-bit words of the Bloom filter.
    pub bloom_size: u32,
    pub bloom_shift: u32,
}

/// Where the parts of a GNU hash table are.
#[derive(Clone, Copy, PartialEq, Eq, Structural, Debug)]
pub struct GnuHashLayout {
    pub bloom: u64,
    pub buckets: u64,
    pub chain: u64,
}

/// The size of the header of a GNU hash table.
pub const GNU_HASH_HEADER_SIZE: u64 = 16;

/// Where the Bloom filter, the buckets and the chain of the GNU hash table at
/// `table` are: right after the header, the filter's 64-bit words, then the
/// 32-bit buckets, then the chain.
pub fn gnu_hash_layout(table: u64, header: &GnuHashTableHeader) -> (r: Option<GnuHashLayout>)
    ensures
        match r {
            Some(l) => {
                &&& l.bloom == table + GNU_HASH_HEADER_SIZE
                &&& l.buckets == l.bloom + 8 * header.bloom_size
                &&& l.chain == l.buckets + 4 * header.nbuckets
            },
            None => table + GNU_HASH_HEADER_SIZE + 8 * header.bloom_size + 4 * header.nbuckets > u64::MAX,
        },
{
    let bloom_bytes = 8 * (header.bloom_size as u64);
    let bucket_bytes = 4 * (header.nbuckets as u64);
    if table > u64::MAX - GNU_HASH_HEADER_SIZE - bloom_bytes - bucket_bytes {
        return None;
    }
    let bloom = table + GNU_HASH_HEADER_SIZE;
    let buckets = bloom + bloom_bytes;
    Some(GnuHashLayout { bloom, buckets, chain: buckets + bucket_bytes })
}

/// A GNU hash table, read out of memory.
pub struct GnuHashTable {
    pub header: GnuHashTableHeader,
    pub bloom: Vec<u64>,
    pub buckets: Vec<u32>,
    /// The chain, from symbol `symoffset` on: each word is the symbol's hash with
    /// the low bit set on the last symbol of a bucket.
    pub chain: Vec<u32>,
}

/// What finds a symbol of a loaded library by name.
pub struct SymbolFinder {
    pub hash_table: GnuHashTable,
    /// The names of the symbols the chain covers: `names[i]` is that of symbol
    /// `symoffset + i`.
    pub names: Vec<Vec<u8>>,
}

/// Whether bit `idx` of `num` is set.
pub fn bit_is_set(num: u64, idx: u32) -> (r: bool)
    requires
        idx < 64,
    ensures
        r == (num & (1u64 << idx) != 0),
{
    (num & (1u64 << idx)) != 0
}

impl SymbolFinder {
    /// The table is consistent: the filter and buckets have the sizes the header
    /// gives, every bucket points into the chain, the chain ends a bucket at its
    /// last word, and each chain word has a name.
    pub open spec fn wf(&self) -> bool {
        let t = self.hash_table;
        &&& t.bloom.len() == t.header.bloom_size
        &&& t.header.bloom_size > 0
        &&& t.buckets.len() == t.header.nbuckets
        &&& t.header.nbuckets > 0
        &&& t.header.bloom_shift < 32
        &&& self.names.len() == t.chain.len()
        &&& t.header.symoffset + t.chain.len() <= u32::MAX
        &&& t.chain.len() > 0 ==> t.chain@.last() & 1 == 1
        &&& forall|b: int| 0 <= b < t.buckets.len() && t.buckets@[b] >= t.header.symoffset
            ==> #[trigger] t.buckets@[b] - t.header.symoffset < t.chain.len()
    }

    /// The Bloom filter lets `hash` through.
    pub open spec fn bloom_passes(&self, hash: u32) -> bool {
        let t = self.hash_table;
        let word = t.bloom@[((hash / 64) % t.header.bloom_size) as int];
        &&& word & (1u64 << ((hash % 64) as u32)) != 0
        &&& word & (1u64 << (((hash >> t.header.bloom_shift) % 64) as u32)) != 0
    }

    /// The chain index, from `i` on within a bucket, of the symbol with hash
    /// `hash` and name `name`.
    pub open spec fn chain_search(&self, hash: u32, name: Seq<u8>, i: int) -> Option<int>
        decreases self.hash_table.chain.len() - i,
    {
        if i < 0 || i >= self.hash_table.chain.len() {
            None
        } else {
            let word = self.hash_table.chain@[i];
            if word >> 1 == hash >> 1 && self.names@[i]@ == name {
                Some(i)
            } else if word & 1 == 1 {
                None
            } else {
                self.chain_search(hash, name, i + 1)
            }
        }
    }

    /// The index of the symbol called `name`, as the GNU hash table finds it.
    pub open spec fn spec_lookup(&self, name: Seq<u8>) -> Option<u32> {
        let t = self.hash_table;
        let hash = spec_gnu_hash(name);
        if !self.bloom_passes(hash) {
            None
        } else {
            let start = t.buckets@[(hash % t.header.nbuckets) as int];
            if start < t.header.symoffset {
                None
            } else {
                match self.chain_search(hash, name, start - t.header.symoffset) {
                    Some(i) => Some((i + t.header.symoffset) as u32),
                    None => None,
                }
            }
        }
    }

    /// A symbol the chain search finds has the name searched for.
    proof fn lemma_chain_search_finds_name(&self, hash: u32, name: Seq<u8>, i: int)
        requires
            self.names.len() == self.hash_table.chain.len(),
        ensures
            self.chain_search(hash, name, i) matches Some(j) ==> {
                &&& 0 <= j < self.names.len()
                &&& self.names@[j]@ == name
            },
        decreases self.hash_table.chain.len() - i,
    {
        if 0 <= i < self.hash_table.chain.len() {
            self.lemma_chain_search_finds_name(hash, name, i + 1);
        }
    }

    /// The table is built as the GNU hash scheme prescribes for the symbols it covers:
    /// for each symbol, its chain word holds its name's hash (but for the low bit), the
    /// Bloom filter lets that hash through, and the symbol lies in the chain of its
    /// hash's bucket: at or after the bucket's first symbol, with no bucket ending
    /// between the two.
    pub open spec fn consistent(&self) -> bool {
        let t = self.hash_table;
        forall|i: int| 0 <= i < t.chain.len() ==> {
            let h = spec_gnu_hash(#[trigger] self.names@[i]@);
            let start = t.buckets@[(h % t.header.nbuckets) as int];
            &&& t.chain@[i] >> 1 == h >> 1
            &&& self.bloom_passes(h)
            &&& t.header.symoffset <= start
            &&& start - t.header.symoffset <= i
            &&& forall|j: int| start - t.header.symoffset <= j < i ==> #[trigger] t.chain@[j] & 1 == 0
        }
    }

    /// The chain search from `s` reaches a symbol `i` with the hash and the name
    /// searched for when no bucket ends before it.
    proof fn lemma_chain_search_reaches(&self, hash: u32, name: Seq<u8>, s: int, i: int)
        requires
            0 <= s <= i < self.hash_table.chain.len(),
            self.names.len() == self.hash_table.chain.len(),
            self.names@[i]@ == name,
            self.hash_table.chain@[i] >> 1 == hash >> 1,
            forall|j: int| s <= j < i ==> #[trigger] self.hash_table.chain@[j] & 1 == 0,
        ensures
            self.chain_search(hash, name, s) is Some,
        decreases i - s,
    {
        if s < i {
            let word = self.hash_table.chain@[s];
            if !(word >> 1 == hash >> 1 && self.names@[s]@ == name) {
                assert(word & 1 == 0);
                self.lemma_chain_search_reaches(hash, name, s + 1, i);
            }
        }
    }

    /// In a consistent table, a symbol that the table covers is found by its name.
    pub proof fn lemma_lookup_complete(&self, name: Seq<u8>, i: int)
        requires
            self.wf(),
            self.consistent(),
            0 <= i < self.names.len(),
            self.names@[i]@ == name,
        ensures
            self.spec_lookup(name) is Some,
    {
        let t = self.hash_table;
        let h = spec_gnu_hash(self.names@[i]@);
        let start = t.buckets@[(h % t.header.nbuckets) as int];
        self.lemma_chain_search_reaches(h, name, start - t.header.symoffset, i);
    }

    /// A symbol the lookup finds has the name looked up.
    pub proof fn lemma_lookup_finds_name(&self, name: Seq<u8>)
        requires
            self.wf(),
        ensures
            self.spec_lookup(name) matches Some(i) ==> {
                &&& self.hash_table.header.symoffset <= i
                &&& i - self.hash_table.header.symoffset < self.names.len()
                &&& self.names@[i - self.hash_table.header.symoffset]@ == name
            },
    {
        let t = self.hash_table;
        let hash = spec_gnu_hash(name);
        if self.bloom_passes(hash) {
            let start = t.buckets@[(hash % t.header.nbuckets) as int];
            if start >= t.header.symoffset {
                self.lemma_chain_search_finds_name(hash, name, start - t.header.symoffset);
            }
        }
    }

    /// The index of the symbol called `name`: the Bloom filter must let its hash
    /// through, and the symbol must be in the chain of its hash's bucket, with the
    /// same hash (but for the low bit) and the same name.
    pub fn lookup(&self, name: &[u8]) -> (r: Option<u32>)
        requires
            self.wf(),
        ensures
            r == self.spec_lookup(name@),
            r matches Some(i) ==> {
                &&& self.hash_table.header.symoffset <= i
                &&& i - self.hash_table.header.symoffset < self.names.len()
                &&& self.names@[i - self.hash_table.header.symoffset]@ == name@
            },
            self.consistent() ==> ((r is Some) <==> exists|i: int| 0 <= i < self.names.len()
                && #[trigger] self.names@[i]@ == name@),
    {
        proof {
            self.lemma_lookup_finds_name(name@);
            if self.consistent() {
                if exists|i: int| 0 <= i < self.names.len() && #[trigger] self.names@[i]@ == name@ {
                    let i = choose|i: int| 0 <= i < self.names.len() && #[trigger] self.names@[i]@ == name@;
                    self.lemma_lookup_complete(name@, i);
                }
                if let Some(k) = self.spec_lookup(name@) {
                    let i = k - self.hash_table.header.symoffset;
                    assert(self.names@[i]@ == name@);
                }
            }
        }
        let t = &self.hash_table;
        let hash = gnu_hash(name);
        let bloom_idx = (hash / 64) % t.header.bloom_size;
        let bloom_word = t.bloom[bloom_idx as usize];
        if !bit_is_set(bloom_word, hash % 64) || !bit_is_set(bloom_word, (hash >> t.header.bloom_shift) % 64) {
            return None;
        }
        let bucket_idx = hash % t.header.nbuckets;
        let mut chain_idx = t.buckets[bucket_idx as usize];
        if chain_idx < t.header.symoffset {
            return None;
        }
        chain_idx = chain_idx - t.header.symoffset;
        let ghost start = chain_idx as int;
        assert(chain_idx < t.chain.len()) by {
            assert(t.buckets@[bucket_idx as int] >= t.header.symoffset);
        }
        loop
            invariant
                self.wf(),
                self.spec_lookup(name@) == (match self.chain_search(hash, name@, start) {
                    Some(i) => Some((i + t.header.symoffset) as u32),
                    None => None::<u32>,
                }),
                t == &self.hash_table,
                hash == spec_gnu_hash(name@),
                self.consistent() ==> ((self.spec_lookup(name@) is Some) <==> exists|i: int|
                    0 <= i < self.names.len() && #[trigger] self.names@[i]@ == name@),
                chain_idx < t.chain.len(),
                self.chain_search(hash, name@, start) == self.chain_search(hash, name@, chain_idx as int),
            decreases t.chain.len() - chain_idx,
        {
            let chain_hash = t.chain[chain_idx as usize];
            if chain_hash >> 1 == hash >> 1 && bytes_equal(self.names[chain_idx as usize].as_slice(), name) {
                return Some(chain_idx + t.header.symoffset);
            }
            if chain_hash & 1 == 1 {
                return None;
            }
            assert(chain_idx + 1 < t.chain.len()) by {
                if chain_idx + 1 == t.chain.len() {
                    assert(t.chain@.last() == chain_hash);
                }
            }
            chain_idx = chain_idx + 1;
        }
    }
}

/// Where the chain of the last bucket starts, counted from `symoffset`: the greatest
/// bucket start at or past `symoffset`, less `symoffset`; `None` where every bucket is
/// empty (below `symoffset`). The chain is read from its start up to the end of that
/// bucket's chain.
pub fn last_chain_start(buckets: &Vec<u32>, symoffset: u32) -> (r: Option<u32>)
    ensures
        match r {
            None => forall|b: int| 0 <= b < buckets@.len() ==> #[trigger] buckets@[b] < symoffset,
            Some(s) => {
                &&& exists|b: int| 0 <= b < buckets@.len() && #[trigger] buckets@[b] >= symoffset
                    && buckets@[b] - symoffset == s
                &&& forall|b: int| 0 <= b < buckets@.len() && #[trigger] buckets@[b] >= symoffset
                    ==> buckets@[b] - symoffset <= s
            },
        },
{
    let mut best: Option<u32> = None;
    let mut i: usize = 0;
    while i < buckets.len()
        invariant
            i <= buckets@.len(),
            match best {
                None => forall|b: int| 0 <= b < i ==> #[trigger] buckets@[b] < symoffset,
                Some(s) => {
                    &&& exists|b: int| 0 <= b < i && #[trigger] buckets@[b] >= symoffset
                        && buckets@[b] - symoffset == s
                    &&& forall|b: int| 0 <= b < i && #[trigger] buckets@[b] >= symoffset
                        ==> buckets@[b] - symoffset <= s
                },
            },
        decreases buckets@.len() - i,
    {
        let b = buckets[i];
        if b >= symoffset {
            let start = b - symoffset;
            match best {
                None => {
                    best = Some(start);
                },
                Some(s) => {
                    if start > s {
                        best = Some(start);
                    }
                },
            }
        }
        i = i + 1;
    }
    best
}

/// Whether reading the chain stops after its word number `read - 1`, `word`: once the
/// last bucket's chain has begun (past `last_start`), at the word that ends a bucket.
pub fn chain_read_done(read: usize, last_start: u32, word: u32) -> (r: bool)
    ensures r == (read > last_start && word & 1 == 1),
{
    read > last_start as usize && word & 1 == 1
}

/// A chain read up to the end of the last bucket's chain holds every bucket's start.
pub proof fn lemma_chain_read_covers_buckets(buckets: Seq<u32>, symoffset: u32, last_start: u32, chain: Seq<u32>)
    requires
        forall|b: int| 0 <= b < buckets.len() && #[trigger] buckets[b] >= symoffset
            ==> buckets[b] - symoffset <= last_start,
        chain.len() > last_start,
    ensures
        forall|b: int| 0 <= b < buckets.len() && buckets[b] >= symoffset
            ==> #[trigger] buckets[b] - symoffset < chain.len(),
{
}

// ---------------------------------------------------------------------------
// The dynamic entries of a loaded library
// ---------------------------------------------------------------------------

/// `DT_NULL`: the end of the dynamic table.
pub const DT_NULL: i64 = 0;
/// `DT_STRTAB`: the address of the string table.
pub const DT_STRTAB: i64 = 5;
/// `DT_SYMTAB`: the address of the symbol table.
pub const DT_SYMTAB: i64 = 6;
/// `DT_GNU_HASH`: the address of the GNU hash table.
pub const DT_GNU_HASH: i64 = 0x6ffffef5;

/// The addresses of the tables a symbol lookup reads, relative to the library's
/// base.
#[derive(Clone, Copy, PartialEq, Eq, Structural, Debug)]
pub struct LookupTables {
    pub strtab: u64,
    pub symtab: u64,
    pub gnu_hash: u64,
}

/// The value of the last entry tagged `tag` before the first `DT_NULL`.
pub open spec fn last_before_null(entries: Seq<DynamicEntry>, tag: i64) -> Option<u64>
    decreases entries.len(),
{
    if entries.len() == 0 {
        None
    } else if entries[0].tag == DT_NULL {
        None
    } else {
        match last_before_null(entries.drop_first(), tag) {
            Some(v) => Some(v),
            None => if entries[0].tag == tag { Some(entries[0].val) } else { None },
        }
    }
}

/// Why the tables of a loaded library cannot be found.
#[derive(Clone, Copy, PartialEq, Eq, Structural, Debug)]
pub enum TablesError {
    MissingStrtab,
    MissingSymtab,
    MissingGnuHash,
}

/// The string table, symbol table and GNU hash table given by the dynamic
/// entries `entries`, up to the first `DT_NULL`; where a tag occurs more than
/// once, the last entry counts.
pub fn lookup_tables(entries: &Vec<DynamicEntry>) -> (r: Result<LookupTables, TablesError>)
    ensures
        match (last_before_null(entries@, DT_STRTAB), last_before_null(entries@, DT_SYMTAB), last_before_null(entries@, DT_GNU_HASH)) {
            (Some(s), Some(y), Some(g)) => r == Ok::<LookupTables, TablesError>(LookupTables { strtab: s, symtab: y, gnu_hash: g }),
            (None, _, _) => r == Err::<LookupTables, TablesError>(TablesError::MissingStrtab),
            (Some(_), None, _) => r == Err::<LookupTables, TablesError>(TablesError::MissingSymtab),
            (Some(_), Some(_), None) => r == Err::<LookupTables, TablesError>(TablesError::MissingGnuHash),
        },
{
    let mut strtab: Option<u64> = None;
    let mut symtab: Option<u64> = None;
    let mut gnu_hash: Option<u64> = None;
    let mut i: usize = 0;
    assert(entries@.skip(0) =~= entries@);
    while i < entries.len() && entries[i].tag != DT_NULL
        invariant
            i <= entries.len(),
            forall|j: int| 0 <= j < i ==> entries@[j].tag != DT_NULL,
            forall|t: i64| #![trigger last_before_null(entries@, t)]
                last_before_null(entries@, t) == (match last_before_null(entries@.skip(i as int), t) {
                    Some(v) => Some(v),
                    None => last_value_in(entries@.take(i as int), t),
                }),
            strtab == last_value_in(entries@.take(i as int), DT_STRTAB),
            symtab == last_value_in(entries@.take(i as int), DT_SYMTAB),
            gnu_hash == last_value_in(entries@.take(i as int), DT_GNU_HASH),
        decreases entries.len() - i,
    {
        let d = entries[i];
        proof {
            let s = entries@.skip(i as int);
            assert(s[0] == d);
            assert(s.drop_first() == entries@.skip(i + 1));
            assert(entries@.take(i + 1).drop_last() == entries@.take(i as int));
            assert(entries@.take(i + 1).last() == d);
            assert forall|t: i64| #![trigger last_before_null(entries@, t)]
                last_before_null(entries@, t) == (match last_before_null(entries@.skip(i + 1), t) {
                    Some(v) => Some(v),
                    None => last_value_in(entries@.take(i + 1), t),
                }) by {
                assert(last_before_null(s, t) == (match last_before_null(s.drop_first(), t) {
                    Some(v) => Some(v),
                    None => if d.tag == t { Some(d.val) } else { None },
                }));
            }
        }
        if d.tag == DT_STRTAB {
            strtab = Some(d.val);
        } else if d.tag == DT_SYMTAB {
            symtab = Some(d.val);
        } else if d.tag == DT_GNU_HASH {
            gnu_hash = Some(d.val);
        }
        i = i + 1;
    }
    proof {
        let s = entries@.skip(i as int);
        assert(s.len() == 0 || s[0].tag == DT_NULL);
    }
    let strtab = match strtab {
        None => return Err(TablesError::MissingStrtab),
        Some(v) => v,
    };
    let symtab = match symtab {
        None => return Err(TablesError::MissingSymtab),
        Some(v) => v,
    };
    let gnu_hash = match gnu_hash {
        None => return Err(TablesError::MissingGnuHash),
        Some(v) => v,
    };
    Ok(LookupTables { strtab, symtab, gnu_hash })
}

/// The value of the last entry of `entries` tagged `tag`.
pub open spec fn last_value_in(entries: Seq<DynamicEntry>, tag: i64) -> Option<u64>
    decreases entries.len(),
{
    if entries.len() == 0 {
        None
    } else if entries.last().tag == tag {
        Some(entries.last().val)
    } else {
        last_value_in(entries.drop_last(), tag)
    }
}

} // verus!

//! Transposition table: a fixed-size cache of searched positions, indexed by Zobrist hash.

use vstd::prelude::*;

verus! {

/// What the stored score means relative to the true value of the position.
#[derive(Clone, Copy, Debug, PartialEq, Eq, Structural)]
pub enum EntryType {
    /// The exact value.
    Exact,
    /// A lower bound (the search failed high).
    LowerBound,
    /// An upper bound (the search failed low).
    UpperBound,
}

/// One cached search result.
#[derive(Clone, Copy, Debug, PartialEq, Eq, Structural)]
pub struct TTEntry {
    /// High 32 bits of the Zobrist hash, to tell positions sharing a slot apart.
    pub key: u32,
    /// Score, clamped to the `i16` range.
    pub score: i16,
    /// Search depth.
    pub depth: u8,
    pub entry_type: EntryType,
    /// Best move packed as `from_y << 12 | from_x << 8 | to_y << 4 | to_x`; 0 means none.
    pub best_move: u16,
    /// Search generation in which the entry was written.
    pub age: u8,
}


/// Packs a move into 16 bits, four bits per coordinate (coordinates above 15 lose high bits).
pub open spec fn spec_encode_move(fx: u8, fy: u8, tx: u8, ty: u8) -> u16 {
    ((fy as u16) << 12u16) | ((fx as u16) << 8u16) | ((ty as u16) << 4u16) | (tx as u16)
}

/// The move stored in a packed word, as `(from_x, from_y, to_x, to_y)`; 0 stores no move.
pub open spec fn spec_decode_move(m: u16) -> Option<(u8, u8, u8, u8)> {
    if m == 0 {
        None
    } else {
        Some(
            (
                ((m >> 8u16) & 0xFu16) as u8,
                ((m >> 12u16) & 0xFu16) as u8,
                (m & 0xFu16) as u8,
                ((m >> 4u16) & 0xFu16) as u8,
            ),
        )
    }
}

/// `score` clamped into the `i16` range.
pub open spec fn clamp_i16(score: i32) -> i16 {
    if score < i16::MIN {
        i16::MIN
    } else if score > i16::MAX {
        i16::MAX
    } else {
        score as i16
    }
}

/// The entry `TTEntry::new` builds.
pub open spec fn spec_new_entry(
    key: u32,
    score: i32,
    depth: u8,
    entry_type: EntryType,
    best_move: Option<(u8, u8, u8, u8)>,
    age: u8,
) -> TTEntry {
    TTEntry {
        key,
        score: clamp_i16(score),
        depth,
        entry_type,
        best_move: match best_move {
            Some(m) => spec_encode_move(m.0, m.1, m.2, m.3),
            None => 0,
        },
        age,
    }
}

impl TTEntry {
    /// Builds an entry, clamping the score and packing the move.
    pub fn new(
        key: u32,
        score: i32,
        depth: u8,
        entry_type: EntryType,
        best_move: Option<(u8, u8, u8, u8)>,
        age: u8,
    ) -> (e: TTEntry)
        ensures
            e == spec_new_entry(key, score, depth, entry_type, best_move, age),
    {
        let score: i16 = if score < -32768i32 {
            -32768i16
        } else if score > 32767i32 {
            32767i16
        } else {
            score as i16
        };
        let best_move: u16 = match best_move {
            Some((fx, fy, tx, ty)) => ((fy as u16) << 12u16) | ((fx as u16) << 8u16) | ((ty as u16) << 4u16) | (tx as u16),
            None => 0,
        };
        TTEntry { key, score, depth, entry_type, best_move, age }
    }

    /// Unpacks the best move as `(from_x, from_y, to_x, to_y)`.
    pub fn decode_move(&self) -> (r: Option<(u8, u8, u8, u8)>)
        ensures
            r == spec_decode_move(self.best_move),
    {
        if self.best_move == 0 {
            return None;
        }
        let from_y = ((self.best_move >> 12u16) & 0xFu16) as u8;
        let from_x = ((self.best_move >> 8u16) & 0xFu16) as u8;
        let to_y = ((self.best_move >> 4u16) & 0xFu16) as u8;
        let to_x = (self.best_move & 0xFu16) as u8;
        Some((from_x, from_y, to_x, to_y))
    }
}

/// Packing and unpacking a move gives it back when every coordinate is below 16 and the move
/// is not `(0, 0) -> (0, 0)` (which packs to the "no move" word).
pub proof fn law_move_roundtrip(fx: u8, fy: u8, tx: u8, ty: u8)
    requires
        fx < 16,
        fy < 16,
        tx < 16,
        ty < 16,
        !(fx == 0 && fy == 0 && tx == 0 && ty == 0),
    ensures
        spec_decode_move(spec_encode_move(fx, fy, tx, ty)) == Some((fx, fy, tx, ty)),
{
    let m = spec_encode_move(fx, fy, tx, ty);
    assert(m != 0 && ((m >> 8u16) & 0xFu16) as u8 == fx && ((m >> 12u16) & 0xFu16) as u8 == fy
        && (m & 0xFu16) as u8 == tx && ((m >> 4u16) & 0xFu16) as u8 == ty) by (bit_vector)
        requires
            fx < 16,
            fy < 16,
            tx < 16,
            ty < 16,
            !(fx == 0 && fy == 0 && tx == 0 && ty == 0),
            m == ((fy as u16) << 12u16) | ((fx as u16) << 8u16) | ((ty as u16) << 4u16) | (tx as u16),
    ;
}

/// The slot a hash maps to in a table of `n` slots.
pub open spec fn slot_of(hash: u64, n: nat) -> int {
    ((hash as usize) as int) % (n as int)
}

/// The verification key of a hash: its high 32 bits.
pub open spec fn key_of(hash: u64) -> u32 {
    (hash >> 32u64) as u32
}

/// What a lookup of `hash` finds in `slots`.
pub open spec fn spec_probe(slots: Seq<Option<TTEntry>>, hash: u64) -> Option<TTEntry> {
    match slots[slot_of(hash, slots.len())] {
        Some(e) => if e.key == key_of(hash) {
            Some(e)
        } else {
            None
        },
        None => None,
    }
}

/// Whether a new entry of `depth` written in generation `age` replaces `existing`: always in
/// an empty slot or over an entry of another generation, otherwise when the new depth is at
/// least the stored one.
pub open spec fn should_replace(existing: Option<TTEntry>, depth: u8, age: u8) -> bool {
    match existing {
        None => true,
        Some(e) => e.age != age || depth >= e.depth,
    }
}

/// The slots after storing a result for `hash` in generation `age`.
pub open spec fn spec_store(
    slots: Seq<Option<TTEntry>>,
    age: u8,
    hash: u64,
    score: i32,
    depth: u8,
    entry_type: EntryType,
    best_move: Option<(u8, u8, u8, u8)>,
) -> Seq<Option<TTEntry>> {
    let i = slot_of(hash, slots.len());
    if should_replace(slots[i], depth, age) {
        slots.update(i, Some(spec_new_entry(key_of(hash), score, depth, entry_type, best_move, age)))
    } else {
        slots
    }
}

/// Byte size of one slot.
pub open spec fn slot_bytes() -> nat {
    vstd::layout::size_of::<Option<TTEntry>>()
}

/// A fixed-size table of `Option<TTEntry>` slots, with a generation counter and lookup
/// statistics.
pub struct TranspositionTable {
    entries: Vec<Option<TTEntry>>,
    size: usize,
    age: u64,
    hits: u64,
    probes: u64,
}

impl TranspositionTable {
    /// The slots.
    pub closed spec fn slots(&self) -> Seq<Option<TTEntry>> {
        self.entries@
    }

    /// The current search generation.
    pub closed spec fn generation(&self) -> u64 {
        self.age
    }

    /// Number of lookups that found an entry.
    pub closed spec fn hit_count(&self) -> u64 {
        self.hits
    }

    /// Number of lookups.
    pub closed spec fn probe_count(&self) -> u64 {
        self.probes
    }

    /// No more lookups found an entry than were made.
    pub open spec fn counts_consistent(&self) -> bool {
        self.hit_count() <= self.probe_count()
    }

    /// The recorded size matches the slots, and their byte size fits in `usize`.
    pub closed spec fn wf(&self) -> bool {
        &&& self.size == self.entries@.len()
        &&& self.entries@.len() * slot_bytes() <= usize::MAX
    }

    /// A table of `size_mb` megabytes: as many empty slots as fit.
    pub fn new(size_mb: usize) -> (t: TranspositionTable)
        requires
            size_mb * 1024 * 1024 <= usize::MAX,
        ensures
            t.wf(),
            t.slots().len() == (if slot_bytes() == 0 {
                0
            } else {
                (size_mb * 1024 * 1024) / (slot_bytes() as int)
            }),
            forall|i: int| 0 <= i < t.slots().len() ==> #[trigger] t.slots()[i] is None,
            0 < slot_bytes() <= size_mb * 1024 * 1024 ==> t.slots().len() > 0,
            t.generation() == 0,
            t.hit_count() == 0,
            t.probe_count() == 0,
            t.counts_consistent(),
    {
        let entry_size = core::mem::size_of::<Option<TTEntry>>();
        let bytes = size_mb * 1024 * 1024;
        let size = if entry_size == 0 {
            0
        } else {
            bytes / entry_size
        };
        proof {
            if entry_size != 0 {
                assert(size * entry_size <= bytes) by (nonlinear_arith)
                    requires
                        size == bytes / entry_size,
                        entry_size > 0,
                ;
                assert(entry_size <= bytes ==> size >= 1) by (nonlinear_arith)
                    requires
                        size == bytes / entry_size,
                        entry_size > 0,
                ;
            }
        }
        let mut entries: Vec<Option<TTEntry>> = Vec::new();
        let mut i: usize = 0;
        while i < size
            invariant
                i <= size,
                entries@.len() == i,
                forall|k: int| 0 <= k < i ==> #[trigger] entries@[k] is None,
            decreases size - i,
        {
            entries.push(None);
            i = i + 1;
        }
        TranspositionTable { entries, size, age: 0, hits: 0, probes: 0 }
    }

    /// A 64 MB table.
    pub fn default_size() -> (t: TranspositionTable)
        ensures
            t.wf(),
            t.slots().len() == (if slot_bytes() == 0 {
                0
            } else {
                (64 * 1024 * 1024) / slot_bytes()
            }),
            forall|i: int| 0 <= i < t.slots().len() ==> #[trigger] t.slots()[i] is None,
            t.generation() == 0,
            t.hit_count() == 0,
            t.probe_count() == 0,
    {
        Self::new(64)
    }

    /// The slot of a hash.
    fn index(&self, hash: u64) -> (i: usize)
        requires
            self.wf(),
            self.slots().len() > 0,
        ensures
            i as int == slot_of(hash, self.slots().len()),
            i < self.slots().len(),
    {
        (hash as usize) % self.size
    }

    /// The verification key of a hash.
    fn verification_key(hash: u64) -> (k: u32)
        ensures
            k == key_of(hash),
    {
        (hash >> 32u64) as u32
    }

    /// Looks `hash` up; counts the lookup, and the hit when the slot holds an entry with the
    /// same key.
    pub fn probe(&mut self, hash: u64) -> (r: Option<TTEntry>)
        requires
            old(self).wf(),
            old(self).slots().len() > 0,
        ensures
            final(self).wf(),
            r == spec_probe(old(self).slots(), hash),
            final(self).slots() == old(self).slots(),
            final(self).generation() == old(self).generation(),
            final(self).probe_count() == (old(self).probe_count() + 1) % 0x1_0000_0000_0000_0000,
            final(self).hit_count() == (if r is Some {
                (old(self).hit_count() + 1) % 0x1_0000_0000_0000_0000
            } else {
                old(self).hit_count() as int
            }),
            old(self).counts_consistent() && old(self).probe_count() < u64::MAX ==> final(self).counts_consistent(),
    {
        self.probes = self.probes.wrapping_add(1);
        let index = self.index(hash);
        let key = Self::verification_key(hash);
        if let Some(entry) = self.entries[index] {
            if entry.key == key {
                self.hits = self.hits.wrapping_add(1);
                return Some(entry);
            }
        }
        None
    }

    /// Stores a search result for `hash`. The slot is written when it is empty, when the
    /// entry in it comes from an older search, or when the new depth is not smaller.
    pub fn store(
        &mut self,
        hash: u64,
        score: i32,
        depth: u8,
        entry_type: EntryType,
        best_move: Option<(u8, u8, u8, u8)>,
    )
        requires
            old(self).wf(),
            old(self).slots().len() > 0,
        ensures
            final(self).wf(),
            final(self).slots() == spec_store(
                old(self).slots(),
                old(self).generation() as u8,
                hash,
                score,
                depth,
                entry_type,
                best_move,
            ),
            final(self).generation() == old(self).generation(),
            final(self).hit_count() == old(self).hit_count(),
            final(self).probe_count() == old(self).probe_count(),
            old(self).counts_consistent() ==> final(self).counts_consistent(),
    {
        let index = self.index(hash);
        let key = Self::verification_key(hash);
        let age = self.age as u8;
        let should_replace = match self.entries[index] {
            None => true,
            Some(existing) => existing.age != age || depth >= existing.depth,
        };
        if should_replace {
            self.entries.set(index, Some(TTEntry::new(key, score, depth, entry_type, best_move, age)));
        }
    }

    /// Whether the table has at least one slot to look up or store in.
    pub fn has_slots(&self) -> (r: bool)
        requires
            self.wf(),
        ensures
            r == (self.slots().len() > 0),
    {
        self.size > 0
    }

    /// Starts a new search generation.
    pub fn new_search(&mut self)
        requires
            old(self).wf(),
        ensures
            final(self).wf(),
            final(self).generation() == (old(self).generation() + 1) % 0x1_0000_0000_0000_0000,
            final(self).slots() == old(self).slots(),
            final(self).hit_count() == old(self).hit_count(),
            final(self).probe_count() == old(self).probe_count(),
            old(self).counts_consistent() ==> final(self).counts_consistent(),
    {
        self.age = self.age.wrapping_add(1);
    }

    /// Empties every slot and resets the statistics (the generation is kept).
    pub fn clear(&mut self)
        requires
            old(self).wf(),
        ensures
            final(self).wf(),
            final(self).slots().len() == old(self).slots().len(),
            forall|i: int| 0 <= i < final(self).slots().len() ==> #[trigger] final(self).slots()[i] is None,
            final(self).generation() == old(self).generation(),
            final(self).hit_count() == 0,
            final(self).probe_count() == 0,
            final(self).counts_consistent(),
    {
        let n = self.entries.len();
        let mut i: usize = 0;
        while i < n
            invariant
                i <= n,
                n == self.entries@.len(),
                self.wf(),
                self.age == old(self).age,
                self.hits == old(self).hits,
                self.probes == old(self).probes,
                n == old(self).entries@.len(),
                forall|k: int| 0 <= k < i ==> #[trigger] self.entries@[k] is None,
            decreases n - i,
        {
            self.entries.set(i, None);
            i = i + 1;
        }
        self.hits = 0;
        self.probes = 0;
    }

    /// Number of occupied slots.
    fn used(&self) -> (n: usize)
        ensures
            n == count_used(self.slots()),
    {
        let mut n: usize = 0;
        let mut i: usize = 0;
        while i < self.entries.len()
            invariant
                i <= self.entries@.len(),
                n == count_used(self.entries@.subrange(0, i as int)),
                n <= i,
            decreases self.entries@.len() - i,
        {
            assert(self.entries@.subrange(0, i + 1).drop_last() =~= self.entries@.subrange(0, i as int));
            if self.entries[i].is_some() {
                n = n + 1;
            }
            i = i + 1;
        }
        assert(self.entries@.subrange(0, self.entries@.len() as int) =~= self.entries@);
        n
    }

    /// Size, occupancy and lookup statistics.
    pub fn stats(&self) -> (s: TTStats)
        requires
            self.wf(),
        ensures
            s.size_mb == (self.slots().len() * slot_bytes()) / (1024 * 1024),
            s.entries == self.slots().len(),
            s.used == count_used(self.slots()),
            s.hits == self.hit_count(),
            s.probes == self.probe_count(),
            s.used <= s.entries,
            self.counts_consistent() ==> s.hits <= s.probes,
    {
        proof {
            lemma_count_used_bound(self.slots());
        }
        let entry_size = core::mem::size_of::<Option<TTEntry>>();
        TTStats {
            size_mb: (self.size * entry_size) / (1024 * 1024),
            entries: self.size,
            used: self.used(),
            hits: self.hits,
            probes: self.probes,
        }
    }
}

/// No more slots are occupied than there are.
pub proof fn lemma_count_used_bound(slots: Seq<Option<TTEntry>>)
    ensures
        count_used(slots) <= slots.len(),
    decreases slots.len(),
{
    if slots.len() > 0 {
        lemma_count_used_bound(slots.drop_last());
    }
}

/// An entry written in the generation before a new search is replaced by the next store
/// into its slot, whatever the depths: the generation the table stores with has moved on.
pub proof fn law_new_search_frees_entries(e: TTEntry, generation: u64, depth: u8)
    requires
        e.age == generation as u8,
    ensures
        should_replace(Some(e), depth, ((generation + 1) % 0x1_0000_0000_0000_0000) as u8),
{
    let next: u64 = ((generation + 1) % 0x1_0000_0000_0000_0000) as u64;
    assert(next == generation.wrapping_add(1)) by {
        assert(((generation + 1) % 0x1_0000_0000_0000_0000) as u64 == generation.wrapping_add(1));
    }
    assert(generation.wrapping_add(1) as u8 != generation as u8) by (bit_vector);
}

/// Number of occupied slots.
pub open spec fn count_used(slots: Seq<Option<TTEntry>>) -> nat
    decreases slots.len(),
{
    if slots.len() == 0 {
        0
    } else {
        count_used(slots.drop_last()) + if slots.last() is Some {
            1nat
        } else {
            0nat
        }
    }
}

/// Table statistics.
#[derive(Debug, Clone, Copy)]
pub struct TTStats {
    pub size_mb: usize,
    pub entries: usize,
    pub used: usize,
    pub hits: u64,
    pub probes: u64,
}

/// A lookup right after a store finds the stored entry when the store wrote the slot, and
/// finds what it found before otherwise.
pub proof fn law_probe_after_store(
    slots: Seq<Option<TTEntry>>,
    age: u8,
    hash: u64,
    score: i32,
    depth: u8,
    entry_type: EntryType,
    best_move: Option<(u8, u8, u8, u8)>,
)
    requires
        slots.len() > 0,
    ensures
        spec_probe(spec_store(slots, age, hash, score, depth, entry_type, best_move), hash) == (
        if should_replace(slots[slot_of(hash, slots.len())], depth, age) {
            Some(spec_new_entry(key_of(hash), score, depth, entry_type, best_move, age))
        } else {
            spec_probe(slots, hash)
        }),
{
}

/// A store writes at most the slot of its hash; every other slot keeps its entry.
pub proof fn law_store_frame(
    slots: Seq<Option<TTEntry>>,
    age: u8,
    hash: u64,
    score: i32,
    depth: u8,
    entry_type: EntryType,
    best_move: Option<(u8, u8, u8, u8)>,
    i: int,
)
    requires
        slots.len() > 0,
        0 <= i < slots.len(),
        i != slot_of(hash, slots.len()),
    ensures
        spec_store(slots, age, hash, score, depth, entry_type, best_move)[i] == slots[i],
        spec_store(slots, age, hash, score, depth, entry_type, best_move).len() == slots.len(),
{
}

/// Within one search generation, a shallower result never overwrites a deeper one.
pub proof fn law_depth_preferred(
    slots: Seq<Option<TTEntry>>,
    age: u8,
    hash: u64,
    score: i32,
    depth: u8,
    entry_type: EntryType,
    best_move: Option<(u8, u8, u8, u8)>,
)
    requires
        slots.len() > 0,
        slots[slot_of(hash, slots.len())] matches Some(e) && e.age == age && depth < e.depth,
    ensures
        spec_store(slots, age, hash, score, depth, entry_type, best_move) == slots,
{
}

} // verus!

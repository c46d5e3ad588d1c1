use vstd::prelude::*;

verus! {

/// Size of one physical frame (and of one page table) in bytes.
pub const FRAME_SIZE: u64 = 4096;

/// Number of 64-bit words in one frame.
pub const WORDS_PER_FRAME: u64 = 512;

/// First address past the 52-bit physical address space.
pub const PHYS_LIMIT: u64 = 0x10_0000_0000_0000;

/// The physical memory that the kernel reaches through its identity map,
/// held as 64-bit words starting at physical address `base`.
pub struct PhysMemory {
    pub base: u64,
    pub words: Vec<u64>,
}

/// Index in `words` of entry `i` of the frame at `frame`.
pub open spec fn word_index(base: u64, frame: u64, i: int) -> int {
    (frame - base) / 8 + i
}

impl PhysMemory {
    /// Frame-aligned, a whole number of frames, inside the 52-bit space.
    pub open spec fn wf(&self) -> bool {
        &&& self.base % FRAME_SIZE == 0
        &&& self.words@.len() % (WORDS_PER_FRAME as nat) == 0
        &&& self.base + self.words@.len() * 8 <= PHYS_LIMIT
        &&& self.words@.len() <= usize::MAX
    }

    /// First address past the memory.
    pub open spec fn end(&self) -> int {
        self.base + self.words@.len() * 8
    }

    /// `frame` is a whole frame of this memory.
    pub open spec fn frame_ok(&self, frame: u64) -> bool {
        &&& frame % FRAME_SIZE == 0
        &&& self.base <= frame
        &&& frame + FRAME_SIZE <= self.end()
    }

    /// The 64-bit entry `i` of the table stored in `frame`.
    pub open spec fn entry(&self, frame: u64, i: int) -> u64 {
        self.words@[word_index(self.base, frame, i)]
    }

    /// Every word of `frame` is zero.
    pub open spec fn frame_zero(&self, frame: u64) -> bool {
        forall|i: int| 0 <= i < WORDS_PER_FRAME ==> #[trigger] self.entry(frame, i) == 0
    }

    /// Zero-filled memory of `frames` frames starting at `base`; `None` when
    /// `base` is not frame-aligned or the range leaves the 52-bit space.
    pub fn new(base: u64, frames: u64) -> (r: Option<Self>)
        ensures
            r is Some <==> (base % FRAME_SIZE == 0 && frames <= (PHYS_LIMIT - base) / (FRAME_SIZE as int)
                && base <= PHYS_LIMIT && frames * WORDS_PER_FRAME <= usize::MAX),
            r matches Some(m) ==> {
                &&& m.wf()
                &&& m.base == base
                &&& m.words@.len() == frames * WORDS_PER_FRAME
                &&& forall|j: int| 0 <= j < m.words@.len() ==> #[trigger] m.words@[j] == 0
            },
    {
        if base % FRAME_SIZE != 0 || base > PHYS_LIMIT || frames > (PHYS_LIMIT - base) / FRAME_SIZE {
            return None;
        }
        if frames * WORDS_PER_FRAME > usize::MAX as u64 {
            return None;
        }
        assert(frames * FRAME_SIZE <= PHYS_LIMIT - base) by (nonlinear_arith)
            requires frames <= (PHYS_LIMIT - base) / (FRAME_SIZE as int), base <= PHYS_LIMIT;
        let n: usize = (frames * WORDS_PER_FRAME) as usize;
        let words = vec![0u64; n];
        let m = PhysMemory { base, words };
        assert(m.words@.len() % (WORDS_PER_FRAME as nat) == 0) by (nonlinear_arith)
            requires m.words@.len() == frames * WORDS_PER_FRAME;
        Some(m)
    }

    /// Whether `frame` is a whole frame of this memory.
    pub fn frame_valid(&self, frame: u64) -> (r: bool)
        requires
            self.wf(),
        ensures
            r == self.frame_ok(frame),
    {
        let len: u64 = self.words.len() as u64;
        frame % FRAME_SIZE == 0 && self.base <= frame && frame - self.base <= len * 8
            && len * 8 - (frame - self.base) >= FRAME_SIZE
    }

    /// Reads entry `i` of the table in `frame`.
    pub fn read_entry(&self, frame: u64, i: u64) -> (r: u64)
        requires
            self.wf(),
            self.frame_ok(frame),
            i < WORDS_PER_FRAME,
        ensures
            r == self.entry(frame, i as int),
    {
        proof { lemma_word_index_in_range(self, frame, i as int); }
        let k: usize = ((frame - self.base) / 8 + i) as usize;
        self.words[k]
    }

    /// Writes entry `i` of the table in `frame`.
    pub fn write_entry(&mut self, frame: u64, i: u64, value: u64)
        requires
            old(self).wf(),
            old(self).frame_ok(frame),
            i < WORDS_PER_FRAME,
        ensures
            final(self).base == old(self).base,
            final(self).words@ == old(self).words@.update(word_index(old(self).base, frame, i as int), value),
            final(self).wf(),
    {
        proof { lemma_word_index_in_range(self, frame, i as int); }
        let k: usize = ((frame - self.base) / 8 + i) as usize;
        self.words.set(k, value);
    }

    /// Fills the frame at `frame` with zeros.
    pub fn zero_frame(&mut self, frame: u64)
        requires
            old(self).wf(),
            old(self).frame_ok(frame),
        ensures
            final(self).base == old(self).base,
            final(self).words@.len() == old(self).words@.len(),
            final(self).wf(),
            final(self).frame_zero(frame),
            forall|j: int| 0 <= j < old(self).words@.len() && !(word_index(old(self).base, frame, 0) <= j
                < word_index(old(self).base, frame, WORDS_PER_FRAME as int))
                ==> #[trigger] final(self).words@[j] == old(self).words@[j],
    {
        let mut i: u64 = 0;
        while i < WORDS_PER_FRAME
            invariant
                self.base == old(self).base,
                self.words@.len() == old(self).words@.len(),
                self.wf(),
                old(self).wf(),
                old(self).frame_ok(frame),
                i <= WORDS_PER_FRAME,
                forall|j: int| 0 <= j < i ==> #[trigger] self.words@[word_index(self.base, frame, j)] == 0,
                forall|j: int| 0 <= j < old(self).words@.len() && !(word_index(old(self).base, frame, 0) <= j
                    < word_index(old(self).base, frame, i as int))
                    ==> #[trigger] self.words@[j] == old(self).words@[j],
            decreases WORDS_PER_FRAME - i,
        {
            let ghost before = self.words@;
            self.write_entry(frame, i, 0);
            proof {
                assert forall|j: int| 0 <= j <= i implies #[trigger] self.words@[word_index(self.base, frame, j)] == 0 by {
                    lemma_word_index_in_range(self, frame, j);
                    if j < i {
                        lemma_entries_distinct(self, frame, j, frame, i as int);
                        assert(before[word_index(self.base, frame, j)] == 0);
                    }
                }
            }
            i = i + 1;
        }
    }
}

/// The word of entry `i` of a frame of the memory lies inside the memory.
pub proof fn lemma_word_index_in_range(m: &PhysMemory, frame: u64, i: int)
    requires
        m.wf(),
        m.frame_ok(frame),
        0 <= i < WORDS_PER_FRAME,
    ensures
        0 <= word_index(m.base, frame, i) < m.words@.len(),
        word_index(m.base, frame, i) <= usize::MAX,
{
}

/// Entries of two different frames, or two different entries of one frame,
/// occupy different words.
pub proof fn lemma_entries_distinct(m: &PhysMemory, f1: u64, i1: int, f2: u64, i2: int)
    requires
        m.wf(),
        m.frame_ok(f1),
        m.frame_ok(f2),
        0 <= i1 < WORDS_PER_FRAME,
        0 <= i2 < WORDS_PER_FRAME,
        f1 != f2 || i1 != i2,
    ensures
        word_index(m.base, f1, i1) != word_index(m.base, f2, i2),
{
    assert((f1 - m.base) % 4096 == 0 && (f2 - m.base) % 4096 == 0);
}

} // verus!

//! The simulated address space: a fixed-capacity sequence of 32-bit words.
use vstd::prelude::*;

verus! {

/// Number of words that the simulated memory holds at least.
pub const MEMORY_WORDS: usize = 1024;

/// The word that four bytes give when read in little-endian order.
pub open spec fn le_word(b0: u8, b1: u8, b2: u8, b3: u8) -> u32 {
    (b0 as u32) | ((b1 as u32) << 8u32) | ((b2 as u32) << 16u32) | ((b3 as u32) << 24u32)
}

/// The words of a raw image: one word for each whole 4-byte chunk, the
/// trailing partial chunk dropped.
pub open spec fn words_of(bytes: Seq<u8>) -> Seq<u32> {
    Seq::new(
        (bytes.len() / 4) as nat,
        |i: int| le_word(bytes[4 * i], bytes[4 * i + 1], bytes[4 * i + 2], bytes[4 * i + 3]),
    )
}

/// The program that runs when no image is supplied:
/// `addi x1, x0, 1`; `addi x2, x0, 2`; `add x3, x1, x2`; `ebreak`.
pub open spec fn builtin_program() -> Seq<u32> {
    seq![0x00100093u32, 0x00200113u32, 0x002081b3u32, 0x00100073u32]
}

/// `words`, followed by zero words up to `cap` words in all.
pub open spec fn zero_filled(words: Seq<u32>, cap: nat) -> Seq<u32> {
    if words.len() >= cap {
        words
    } else {
        words + Seq::new((cap - words.len()) as nat, |i: int| 0u32)
    }
}

/// The word that a read at byte address `addr` returns: the word at index
/// `addr / 4`, or zero beyond the end.
pub open spec fn word_at(mem: Seq<u32>, addr: u32) -> u32 {
    if (addr / 4) < mem.len() {
        mem[(addr / 4) as int]
    } else {
        0
    }
}

/// A trailing partial chunk adds no word: an image of `4n + r` bytes
/// (`r < 4`) gives exactly the `n` words of its first `4n` bytes.
pub proof fn lemma_trailing_bytes_ignored(bytes: Seq<u8>, tail: Seq<u8>)
    requires
        bytes.len() % 4 == 0,
        tail.len() < 4,
    ensures
        words_of(bytes + tail) == words_of(bytes),
        words_of(bytes + tail).len() == bytes.len() / 4,
{
    let all = bytes + tail;
    assert(all.len() / 4 == bytes.len() / 4);
    assert forall|i: int| 0 <= i < bytes.len() / 4 implies #[trigger] words_of(all)[i] == words_of(bytes)[i] by {
        assert(4 * i + 3 < bytes.len()) by (nonlinear_arith)
            requires
                0 <= i < bytes.len() / 4,
                bytes.len() % 4 == 0,
        ;
    }
    assert(words_of(all) =~= words_of(bytes));
}

/// Memory built without an image starts with the built-in program.
pub proof fn lemma_builtin_program_first()
    ensures
        zero_filled(builtin_program(), MEMORY_WORDS as nat).take(4) == builtin_program(),
        zero_filled(builtin_program(), MEMORY_WORDS as nat).len() == MEMORY_WORDS,
{
    assert(zero_filled(builtin_program(), MEMORY_WORDS as nat).take(4) =~= builtin_program());
}

fn word_from_le(b0: u8, b1: u8, b2: u8, b3: u8) -> (r: u32)
    ensures
        r == le_word(b0, b1, b2, b3),
{
    (b0 as u32) | ((b1 as u32) << 8u32) | ((b2 as u32) << 16u32) | ((b3 as u32) << 24u32)
}

/// Groups a raw image into little-endian words; a trailing partial chunk is
/// dropped.
pub fn load_words(bytes: &Vec<u8>) -> (r: Vec<u32>)
    ensures
        r@ == words_of(bytes@),
        r@.len() == bytes@.len() / 4,
{
    let n: usize = bytes.len() / 4;
    let mut r: Vec<u32> = Vec::new();
    let mut i: usize = 0;
    while i < n
        invariant
            n == bytes@.len() / 4,
            bytes@.len() <= usize::MAX,
            i <= n,
            r@ == words_of(bytes@).take(i as int),
        decreases n - i,
    {
        assert(4 * i + 3 < bytes@.len()) by (nonlinear_arith)
            requires
                i < n,
                n == bytes@.len() / 4,
        ;
        let base: usize = 4 * i;
        let w = word_from_le(bytes[base], bytes[base + 1], bytes[base + 2], bytes[base + 3]);
        r.push(w);
        i = i + 1;
        assert(r@ =~= words_of(bytes@).take(i as int));
    }
    assert(r@ =~= words_of(bytes@));
    r
}

/// The built-in program as a vector of words.
pub fn builtin_words() -> (r: Vec<u32>)
    ensures
        r@ == builtin_program(),
{
    let r: Vec<u32> = vec![0x00100093u32, 0x00200113u32, 0x002081b3u32, 0x00100073u32];
    assert(r@ =~= builtin_program());
    r
}

/// Appends zero words to `words` until it holds `cap` words; a longer
/// sequence is kept whole.
pub fn fill_with_zeros(words: Vec<u32>, cap: usize) -> (r: Vec<u32>)
    ensures
        r@ == zero_filled(words@, cap as nat),
{
    let mut r = words;
    while r.len() < cap
        invariant
            words@.len() <= r@.len(),
            r@.len() == words@.len() || r@.len() <= cap,
            r@.subrange(0, words@.len() as int) == words@,
            forall|k: int| words@.len() <= k < r@.len() ==> r@[k] == 0u32,
        decreases cap - r@.len(),
    {
        r.push(0u32);
        assert(r@.subrange(0, words@.len() as int) =~= words@);
    }
    assert forall|k: int| 0 <= k < words@.len() implies r@[k] == words@[k] by {
        assert(r@.subrange(0, words@.len() as int)[k] == r@[k]);
    }
    assert(r@ =~= zero_filled(words@, cap as nat));
    r
}

/// The word-addressed memory of one simulation run. Its capacity is decided
/// when it is built and never changes.
pub struct Memory {
    words: Vec<u32>,
}

impl View for Memory {
    type V = Seq<u32>;

    closed spec fn view(&self) -> Seq<u32> {
        self.words@
    }
}

impl Memory {
    /// Memory holding the built-in program, zero-filled to the standard
    /// capacity.
    pub fn builtin() -> (m: Memory)
        ensures
            m@ == zero_filled(builtin_program(), MEMORY_WORDS as nat),
            m@.len() == MEMORY_WORDS,
    {
        Memory { words: fill_with_zeros(builtin_words(), MEMORY_WORDS) }
    }

    /// Memory holding the words of a raw image, zero-filled to the standard
    /// capacity; an image of more words than that is kept whole.
    pub fn from_image(bytes: &Vec<u8>) -> (m: Memory)
        ensures
            m@ == zero_filled(words_of(bytes@), MEMORY_WORDS as nat),
    {
        Memory { words: fill_with_zeros(load_words(bytes), MEMORY_WORDS) }
    }

    /// Number of words held.
    pub fn capacity(&self) -> (r: usize)
        ensures
            r == self@.len(),
    {
        self.words.len()
    }

    /// The word at index `addr / 4`, or zero when that index is beyond the
    /// capacity.
    pub fn read(&self, addr: u32) -> (r: u32)
        ensures
            r == word_at(self@, addr),
    {
        let index = (addr / 4) as usize;
        if index < self.words.len() {
            self.words[index]
        } else {
            0
        }
    }
}

} // verus!

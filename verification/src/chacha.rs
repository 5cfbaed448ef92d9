//! The ChaCha random number generator.
//!
//! A self-contained stream-cipher construction: sixteen 32-bit words of
//! state — four constants, eight key words, four counter words — are
//! scrambled by twenty rounds of adds, xors and rotations to refill a
//! sixteen-word output buffer, and the 128-bit counter steps once per
//! refill.  The word layout deviates slightly from the classical one:
//! the nonce words extend the counter to 128 bits, which permits
//! jumping arbitrarily ahead or backwards in the pseudorandom stream.

use vstd::prelude::*;

verus! {

/// Words in the 256-bit key.
pub const KEY_WORDS: usize = 8;

/// Words in the cipher state and in the output buffer.
pub const STATE_WORDS: usize = 16;

/// Rounds of the core permutation; cryptographically secure from 8
/// upwards.
pub const CHACHA_ROUNDS: u32 = 20;

/// 32-bit addition that wraps around.
pub open spec fn wadd(a: u32, b: u32) -> u32 {
    if a + b > u32::MAX {
        (a + b - 0x1_0000_0000) as u32
    } else {
        (a + b) as u32
    }
}

/// Left rotation of a 32-bit word by `k` bits, `0 < k < 32`.
pub open spec fn rotl(x: u32, k: u32) -> u32
    recommends
        0 < k < 32,
{
    (x << k) | (x >> ((32 - k) as u32))
}

/// Left-rotates a 32-bit word.
fn rotl32(x: u32, k: u32) -> (r: u32)
    requires
        0 < k < 32,
    ensures
        r == rotl(x, k),
{
    (x << k) | (x >> (32 - k))
}

/// One quarter round applied to the words at positions `a`, `b`, `c`,
/// `d`: the mixing primitive of the cipher.
pub open spec fn quarter_round_spec(s: Seq<u32>, a: int, b: int, c: int, d: int) -> Seq<u32>
    recommends
        s.len() == 16,
        0 <= a < 16,
        0 <= b < 16,
        0 <= c < 16,
        0 <= d < 16,
{
    let va0 = wadd(s[a], s[b]);
    let vd0 = rotl(s[d] ^ va0, 16);
    let vc0 = wadd(s[c], vd0);
    let vb0 = rotl(s[b] ^ vc0, 12);
    let va1 = wadd(va0, vb0);
    let vd1 = rotl(vd0 ^ va1, 8);
    let vc1 = wadd(vc0, vd1);
    let vb1 = rotl(vb0 ^ vc1, 7);
    s.update(a, va1).update(b, vb1).update(c, vc1).update(d, vd1)
}

/// Applies one quarter round in place.
fn quarter_round(x: &mut [u32; 16], a: usize, b: usize, c: usize, d: usize)
    requires
        a < 16,
        b < 16,
        c < 16,
        d < 16,
        a != b,
        a != c,
        a != d,
        b != c,
        b != d,
        c != d,
    ensures
        final(x)@ == quarter_round_spec(old(x)@, a as int, b as int, c as int, d as int),
{
    let va0: u32 = x[a].wrapping_add(x[b]);
    let vd0: u32 = rotl32(x[d] ^ va0, 16);
    let vc0: u32 = x[c].wrapping_add(vd0);
    let vb0: u32 = rotl32(x[b] ^ vc0, 12);
    let va1: u32 = va0.wrapping_add(vb0);
    let vd1: u32 = rotl32(vd0 ^ va1, 8);
    let vc1: u32 = vc0.wrapping_add(vd1);
    let vb1: u32 = rotl32(vb0 ^ vc1, 7);
    x[a] = va1;
    x[b] = vb1;
    x[c] = vc1;
    x[d] = vd1;
    proof {
        assert(x@ =~= quarter_round_spec(old(x)@, a as int, b as int, c as int, d as int));
    }
}

/// One double round: a column round over the four columns, then a
/// diagonal round over the four diagonals.
pub open spec fn double_round_spec(s: Seq<u32>) -> Seq<u32>
    recommends
        s.len() == 16,
{
    let s1 = quarter_round_spec(s, 0, 4, 8, 12);
    let s2 = quarter_round_spec(s1, 1, 5, 9, 13);
    let s3 = quarter_round_spec(s2, 2, 6, 10, 14);
    let s4 = quarter_round_spec(s3, 3, 7, 11, 15);
    let s5 = quarter_round_spec(s4, 0, 5, 10, 15);
    let s6 = quarter_round_spec(s5, 1, 6, 11, 12);
    let s7 = quarter_round_spec(s6, 2, 7, 8, 13);
    quarter_round_spec(s7, 3, 4, 9, 14)
}

/// Applies one double round in place.
fn double_round(x: &mut [u32; 16])
    ensures
        final(x)@ == double_round_spec(old(x)@),
{
    quarter_round(x, 0, 4, 8, 12);
    quarter_round(x, 1, 5, 9, 13);
    quarter_round(x, 2, 6, 10, 14);
    quarter_round(x, 3, 7, 11, 15);
    quarter_round(x, 0, 5, 10, 15);
    quarter_round(x, 1, 6, 11, 12);
    quarter_round(x, 2, 7, 8, 13);
    quarter_round(x, 3, 4, 9, 14);
}

/// `n` double rounds applied to a state.
pub open spec fn rounds_spec(s: Seq<u32>, n: nat) -> Seq<u32>
    decreases n,
{
    if n == 0 {
        s
    } else {
        double_round_spec(rounds_spec(s, (n - 1) as nat))
    }
}

/// Word-wise wrapping sum of two sixteen-word states.
pub open spec fn add_words(s: Seq<u32>, t: Seq<u32>) -> Seq<u32>
    recommends
        s.len() == 16,
        t.len() == 16,
{
    Seq::new(16, |i: int| wadd(s[i], t[i]))
}

/// The ChaCha block function: ten double rounds, then the word-wise
/// sum with the input state.
pub open spec fn chacha_block(input: Seq<u32>) -> Seq<u32>
    recommends
        input.len() == 16,
{
    add_words(rounds_spec(input, 10), input)
}

/// Computes the block function of `input` into `output`.
pub fn chacha_core(output: &mut [u32; 16], input: &[u32; 16])
    ensures
        final(output)@ == chacha_block(input@),
{
    *output = *input;
    let half: u32 = CHACHA_ROUNDS / 2;
    let mut r: u32 = 0;
    while r < half
        invariant
            r <= 10,
            half == 10,
            output@ == rounds_spec(input@, r as nat),
        decreases 10 - r,
    {
        double_round(output);
        r = r + 1;
    }
    let mut i: usize = 0;
    while i < STATE_WORDS
        invariant
            i <= 16,
            forall|l: int| 0 <= l < i ==> output@[l] == wadd(rounds_spec(input@, 10)[l], input@[l]),
            forall|l: int| i <= l < 16 ==> output@[l] == rounds_spec(input@, 10)[l],
        decreases 16 - i,
    {
        output[i] = output[i].wrapping_add(input[i]);
        i = i + 1;
    }
    proof {
        assert(output@ =~= chacha_block(input@));
    }
}

/// The state a 256-bit key initializes: four constants, the eight key
/// words, and a zeroed 128-bit counter.
pub open spec fn init_state(key: Seq<u32>) -> Seq<u32>
    recommends
        key.len() == 8,
{
    seq![
        0x61707865u32,
        0x3320646Eu32,
        0x79622D32u32,
        0x6B206574u32,
        key[0],
        key[1],
        key[2],
        key[3],
        key[4],
        key[5],
        key[6],
        key[7],
        0u32,
        0u32,
        0u32,
        0u32,
    ]
}

/// The state a variable-length seed initializes: up to eight words of
/// the seed are used as the key; the missing words stay zero.
pub open spec fn seeded_state(seed: Seq<u32>) -> Seq<u32> {
    init_state(
        Seq::new(
            8,
            |i: int|
                if i < seed.len() {
                    seed[i]
                } else {
                    0u32
                },
        ),
    )
}

/// The 128-bit counter in state words 12 to 15, stepped by one with
/// carry.
pub open spec fn inc_counter(s: Seq<u32>) -> Seq<u32>
    recommends
        s.len() == 16,
{
    let s12 = s.update(12, wadd(s[12], 1));
    if s12[12] != 0 {
        s12
    } else {
        let s13 = s12.update(13, wadd(s12[13], 1));
        if s13[13] != 0 {
            s13
        } else {
            let s14 = s13.update(14, wadd(s13[14], 1));
            if s14[14] != 0 {
                s14
            } else {
                s14.update(15, wadd(s14[15], 1))
            }
        }
    }
}

/// A random number generator that uses the ChaCha20 algorithm.
///
/// Widely accepted as suitable for cryptographic purposes, though this
/// implementation's statements are about the stream it computes, not
/// about its strength.
#[derive(Clone, Copy, Debug)]
pub struct ChaChaRng {
    /// Internal buffer of output.
    buffer: [u32; STATE_WORDS],
    /// Initial state of the block being emitted.
    state: [u32; STATE_WORDS],
    /// Index into the output buffer; `STATE_WORDS` forces a
    /// recomputation on the next draw.
    index: usize,
}

/// A source of a 32-bit pseudorandom stream.
pub trait Rng {
    /// Well-formedness the generator maintains across draws.
    spec fn rng_inv(&self) -> bool;

    /// The next 32 bits of the stream.
    fn next_u32(&mut self) -> (r: u32)
        requires
            old(self).rng_inv(),
        ensures
            final(self).rng_inv(),
    ;
}

impl ChaChaRng {
    /// The sixteen words of the output buffer.
    pub closed spec fn out_buffer(&self) -> Seq<u32> {
        self.buffer@
    }

    /// The sixteen words of the cipher state the next block is taken
    /// from.
    pub closed spec fn cipher_state(&self) -> Seq<u32> {
        self.state@
    }

    /// How many buffered words have been handed out already.
    pub closed spec fn out_index(&self) -> int {
        self.index as int
    }

    /// Well-formedness of a generator: the state and the output buffer
    /// hold sixteen words each, and no more than one buffer of words is
    /// handed out between refills.
    pub open spec fn wf(&self) -> bool {
        &&& 0 <= self.out_index() <= 16
        &&& self.cipher_state().len() == 16
        &&& self.out_buffer().len() == 16
    }

    /// Creates a ChaCha random number generator with the fixed key of
    /// eight zero words.  Repeated runs therefore produce the same
    /// stream, beginning 2917185654, 2419978656.
    pub fn new_unseeded() -> (rng: ChaChaRng)
        ensures
            rng.cipher_state() == init_state(Seq::new(8, |i: int| 0u32)),
            rng.out_buffer() == Seq::new(16, |i: int| 0u32),
            rng.out_index() == 16,
            rng.wf(),
    {
        let mut rng = ChaChaRng {
            buffer: [0u32; STATE_WORDS],
            state: [0u32; STATE_WORDS],
            index: STATE_WORDS,
        };
        let key: [u32; KEY_WORDS] = [0u32; KEY_WORDS];
        rng.init(&key);
        proof {
            assert(rng.out_buffer() =~= Seq::new(16, |i: int| 0u32));
        }
        rng
    }

    /// Sets the internal 128-bit counter — state words 12 to 15, low
    /// half first — to a user-provided value, permitting jumps
    /// anywhere in the stream, and forces a recomputation on the next
    /// draw.  Callers wanting the conventional stream for a given
    /// nonce pass 0 and the nonce.
    pub fn set_counter(&mut self, counter_low: u64, counter_high: u64)
        ensures
            final(self).cipher_state() == old(self).cipher_state().update(
                12,
                (counter_low & 0xffff_ffff) as u32,
            ).update(13, (counter_low >> 32) as u32).update(
                14,
                (counter_high & 0xffff_ffff) as u32,
            ).update(15, (counter_high >> 32) as u32),
            final(self).out_index() == 16,
            final(self).out_buffer() == old(self).out_buffer(),
            final(self).wf(),
    {
        proof {
            assert(counter_low & 0xffff_ffff <= 0xffff_ffffu64) by (bit_vector);
            assert(counter_low >> 32 <= 0xffff_ffffu64) by (bit_vector);
            assert(counter_high & 0xffff_ffff <= 0xffff_ffffu64) by (bit_vector);
            assert(counter_high >> 32 <= 0xffff_ffffu64) by (bit_vector);
        }
        self.state[12] = (counter_low & 0xffff_ffff) as u32;
        self.state[13] = (counter_low >> 32) as u32;
        self.state[14] = (counter_high & 0xffff_ffff) as u32;
        self.state[15] = (counter_high >> 32) as u32;
        self.index = STATE_WORDS;
    }

    /// Initializes the cipher state with the constants, the given key
    /// and a zeroed counter, and forces a recomputation on the next
    /// draw.
    fn init(&mut self, key: &[u32; KEY_WORDS])
        ensures
            final(self).cipher_state() == init_state(key@),
            final(self).out_index() == 16,
            final(self).out_buffer() == old(self).out_buffer(),
    {
        self.state[0] = 0x61707865;
        self.state[1] = 0x3320646E;
        self.state[2] = 0x79622D32;
        self.state[3] = 0x6B206574;
        let mut i: usize = 0;
        while i < KEY_WORDS
            invariant
                i <= 8,
                self.buffer@ == old(self).buffer@,
                self.index == old(self).index,
                self.state@[0] == 0x61707865u32,
                self.state@[1] == 0x3320646Eu32,
                self.state@[2] == 0x79622D32u32,
                self.state@[3] == 0x6B206574u32,
                forall|m: int| 4 <= m < 4 + i ==> #[trigger] self.state@[m] == key@[m - 4],
                forall|m: int| 4 + i <= m < 16 ==> #[trigger] self.state@[m]
                    == old(self).state@[m],
            decreases 8 - i,
        {
            self.state[4 + i] = key[i];
            i = i + 1;
        }
        self.state[12] = 0;
        self.state[13] = 0;
        self.state[14] = 0;
        self.state[15] = 0;
        self.index = STATE_WORDS;
        proof {
            assert(self.state@ =~= init_state(key@));
        }
    }

    /// Refills the output buffer from the current state and steps the
    /// 128-bit counter.
    fn update(&mut self)
        ensures
            final(self).out_buffer() == chacha_block(old(self).cipher_state()),
            final(self).cipher_state() == inc_counter(old(self).cipher_state()),
            final(self).out_index() == 0,
    {
        let state_copy: [u32; STATE_WORDS] = self.state;
        chacha_core(&mut self.buffer, &state_copy);
        self.index = 0;
        self.state[12] = self.state[12].wrapping_add(1);
        if self.state[12] != 0 {
            proof {
                assert(self.state@ =~= inc_counter(old(self).state@));
            }
            return ;
        }
        self.state[13] = self.state[13].wrapping_add(1);
        if self.state[13] != 0 {
            proof {
                assert(self.state@ =~= inc_counter(old(self).state@));
            }
            return ;
        }
        self.state[14] = self.state[14].wrapping_add(1);
        if self.state[14] != 0 {
            proof {
                assert(self.state@ =~= inc_counter(old(self).state@));
            }
            return ;
        }
        self.state[15] = self.state[15].wrapping_add(1);
        proof {
            assert(self.state@ =~= inc_counter(old(self).state@));
        }
    }

    /// The next word of the stream: the buffered word at the current
    /// index, after a refill when the previous buffer is exhausted.
    pub fn next_u32(&mut self) -> (r: u32)
        requires
            old(self).wf(),
        ensures
            final(self).wf(),
            old(self).out_index() == 16 ==> ({
                &&& final(self).out_buffer() == chacha_block(old(self).cipher_state())
                &&& final(self).cipher_state() == inc_counter(old(self).cipher_state())
                &&& final(self).out_index() == 1
                &&& r == chacha_block(old(self).cipher_state())[0]
            }),
            old(self).out_index() < 16 ==> ({
                &&& final(self).out_buffer() == old(self).out_buffer()
                &&& final(self).cipher_state() == old(self).cipher_state()
                &&& final(self).out_index() == old(self).out_index() + 1
                &&& r == old(self).out_buffer()[old(self).out_index()]
            }),
    {
        if self.index == STATE_WORDS {
            self.update();
        }
        let value: u32 = self.buffer[self.index % STATE_WORDS];
        self.index = self.index + 1;
        value
    }

    /// Resets the state to the up-to-eight-word seed, keeping the
    /// missing key words zero; the output buffer is untouched and the
    /// next draw recomputes it.
    pub fn reseed(&mut self, seed: &[u32])
        ensures
            final(self).cipher_state() == seeded_state(seed@),
            final(self).out_buffer() == old(self).out_buffer(),
            final(self).out_index() == 16,
            final(self).wf(),
    {
        let zero_key: [u32; KEY_WORDS] = [0u32; KEY_WORDS];
        self.init(&zero_key);
        let mut i: usize = 0;
        let words: usize = if seed.len() < KEY_WORDS {
            seed.len()
        } else {
            KEY_WORDS
        };
        while i < words
            invariant
                i <= words,
                words <= 8,
                words <= seed@.len(),
                words == if seed@.len() < 8 {
                    seed@.len() as int
                } else {
                    8
                },
                self.index == 16,
                self.buffer@ == old(self).buffer@,
                forall|m: int| 0 <= m < 4 ==> #[trigger] self.state@[m] == init_state(
                    Seq::new(8, |j: int| 0u32),
                )[m],
                forall|m: int| 4 <= m < 4 + i ==> #[trigger] self.state@[m] == seed@[m - 4],
                forall|m: int| 4 + i <= m < 12 ==> #[trigger] self.state@[m] == 0u32,
                forall|m: int| 12 <= m < 16 ==> #[trigger] self.state@[m] == 0u32,
            decreases words - i,
        {
            self.state[4 + i] = seed[i];
            i = i + 1;
        }
        proof {
            assert(self.state@ =~= seeded_state(seed@));
        }
    }

    /// Creates a ChaCha generator from a variable-length seed: only up
    /// to eight words are used; missing words are zero.
    pub fn from_seed(seed: &[u32]) -> (rng: ChaChaRng)
        ensures
            rng.cipher_state() == seeded_state(seed@),
            rng.out_buffer() == Seq::new(16, |i: int| 0u32),
            rng.out_index() == 16,
            rng.wf(),
    {
        let mut rng = ChaChaRng {
            buffer: [0u32; STATE_WORDS],
            state: [0u32; STATE_WORDS],
            index: STATE_WORDS,
        };
        rng.reseed(seed);
        proof {
            assert(rng.out_buffer() =~= Seq::new(16, |i: int| 0u32));
        }
        rng
    }

    /// Creates a generator keyed by eight draws from another
    /// generator.
    pub fn rand<R: Rng>(other: &mut R) -> (rng: ChaChaRng)
        requires
            old(other).rng_inv(),
        ensures
            final(other).rng_inv(),
            rng.wf(),
            exists|key: Seq<u32>| key.len() == 8 && rng.cipher_state() == init_state(key),
    {
        let mut key: [u32; KEY_WORDS] = [0u32; KEY_WORDS];
        let mut i: usize = 0;
        while i < KEY_WORDS
            invariant
                i <= 8,
                other.rng_inv(),
            decreases 8 - i,
        {
            let word: u32 = other.next_u32();
            key[i] = word;
            i = i + 1;
        }
        let rng = ChaChaRng::from_seed(key.as_slice());
        proof {
            assert(seeded_state(key@) == init_state(
                Seq::new(
                    8,
                    |j: int|
                        if j < key@.len() {
                            key@[j]
                        } else {
                            0u32
                        },
                ),
            ));
            assert(Seq::new(
                8,
                |j: int|
                    if j < key@.len() {
                        key@[j]
                    } else {
                        0u32
                    },
            ).len() == 8);
        }
        rng
    }
}

impl Rng for ChaChaRng {
    open spec fn rng_inv(&self) -> bool {
        self.wf()
    }

    fn next_u32(&mut self) -> u32 {
        ChaChaRng::next_u32(self)
    }
}

} // verus!

//! A small generator that gathers entropy while the kernel starts: FNV-1a
//! (128-bit) to absorb bytes, xorshiftr128+ to draw numbers.
use vstd::prelude::*;

use crate::arch::ArchImpl;

verus! {

/// The FNV-1a 128-bit prime.
pub const FNV_PRIME: u128 = 309485009821345068724781371;

/// The FNV-1a 128-bit offset basis.
pub const FNV_OFFSET: u128 = 0x6c62272e07bb014262b821756295c58d;

/// Absorbing one byte: xor it in, then multiply by the prime modulo 2^128.
pub open spec fn absorb(h: u128, b: u8) -> u128 {
    (((h ^ (b as u128)) as int * FNV_PRIME as int) % (u128::MAX as int + 1)) as u128
}

/// Absorbing a byte sequence, first byte first.
pub open spec fn absorb_all(h: u128, s: Seq<u8>) -> u128
    decreases s.len(),
{
    if s.len() == 0 {
        h
    } else {
        absorb(absorb_all(h, s.drop_last()), s.last())
    }
}

/// The number drawn from state `s`.
pub open spec fn draw(s: u128) -> u64 {
    let x0 = s as u64;
    let y = (s >> 64u128) as u64;
    let x1 = x0 ^ (x0 << 23u64);
    let x2 = x1 ^ (x1 >> 17u64);
    x2 ^ y
}

/// The state after drawing from state `s`: the high word moves down and
/// the sum of the drawn number and that word becomes the high word.
pub open spec fn advance(s: u128) -> u128 {
    let y = (s >> 64u128) as u64;
    let sum = ((draw(s) as int + y as int) % (u64::MAX as int + 1)) as u64;
    (y as u128) | ((sum as u128) << 64u128)
}

/// The eight bytes of a word, least significant first.
pub open spec fn le_bytes(x: u64) -> Seq<u8> {
    Seq::new(8, |i: int| ((x >> (8 * i) as u64) & 0xff) as u8)
}

/// A non-cryptographic generator for entropy gathered at start-up.
#[derive(Debug)]
pub struct Rng(u128);

impl Rng {
    /// The generator's state.
    pub closed spec fn state(&self) -> u128 {
        self.0
    }

    /// A generator at the FNV offset basis, with nothing absorbed yet.
    pub fn new() -> (r: Rng)
        ensures
            r.state() == FNV_OFFSET,
    {
        Rng(FNV_OFFSET)
    }

    /// A generator that has absorbed one entropy word of architecture `H`,
    /// least significant byte first.
    pub fn from_arch<H: ArchImpl>() -> (r: Rng)
        ensures
            exists|w: u64| r.state() == absorb_all(FNV_OFFSET, #[trigger] le_bytes(w)),
    {
        let mut rng = Rng::new();
        let word = H::arch_rand() as u64;
        let bytes = word_bytes(word);
        rng.feed(bytes.as_slice());
        assert(rng.state() == absorb_all(FNV_OFFSET, le_bytes(word)));
        rng
    }

    /// Absorbs `value`, byte by byte.
    pub fn feed(&mut self, value: &[u8])
        ensures
            final(self).state() == absorb_all(old(self).state(), value@),
    {
        let mut i: usize = 0;
        while i < value.len()
            invariant
                i <= value.len(),
                self.state() == absorb_all(old(self).state(), value@.subrange(0, i as int)),
            decreases value.len() - i,
        {
            let byte = value[i];
            proof {
                assert(value@.subrange(0, i + 1).drop_last() =~= value@.subrange(0, i as int));
            }
            self.0 = (self.0 ^ (byte as u128)).wrapping_mul(FNV_PRIME);
            i = i + 1;
        }
        proof {
            assert(value@.subrange(0, value@.len() as int) =~= value@);
        }
    }

    /// Draws the next number; there always is one.
    pub fn next(&mut self) -> (r: Option<u64>)
        ensures
            r == Some(draw(old(self).state())),
            final(self).state() == advance(old(self).state()),
    {
        let mut x: u64 = self.0 as u64;
        let y: u64 = (self.0 >> 64u128) as u64;
        x = x ^ (x << 23u64);
        x = x ^ (x >> 17u64);
        x = x ^ y;
        self.0 = (y as u128) | ((x.wrapping_add(y) as u128) << 64u128);
        Some(x)
    }
}

/// The eight bytes of a word, least significant first.
fn word_bytes(x: u64) -> (r: Vec<u8>)
    ensures
        r@ == le_bytes(x),
{
    let mut out: Vec<u8> = Vec::new();
    let mut i: u64 = 0;
    while i < 8
        invariant
            i <= 8,
            out@.len() == i,
            forall|k: int| 0 <= k < i ==> out@[k] == ((x >> (8 * k) as u64) & 0xff) as u8,
        decreases 8 - i,
    {
        let b = ((x >> (8 * i)) & 0xff) as u8;
        out.push(b);
        i = i + 1;
    }
    proof {
        assert(out@ =~= le_bytes(x));
    }
    out
}

} // verus!

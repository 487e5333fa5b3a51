//! Generation-tagged ring positions.
//!
//! An [`Index`] packs a byte offset (low 32 bits) and a wrap counter, the
//! *generation* (high 32 bits), into one `u64`. Producer and consumer of a
//! ring buffer can compare positions across buffer wraps: the raw `u64`
//! order coincides with the order of absolute stream positions as long as
//! offsets stay below the buffer length.

use vstd::arithmetic::div_mod::lemma_fundamental_div_mod_converse;
use vstd::prelude::*;

verus! {

/// The value of one generation step: offsets live below it, generations
/// count in multiples of it.
pub const GENERATION_STEP: u64 = 0x1_0000_0000;

/// A position in a ring buffer: low 32 bits are a byte offset, high 32
/// bits count how often the position wrapped around the buffer end.
#[derive(Clone, Copy, Debug, PartialEq, Eq, Structural)]
pub struct Index {
    pub value: u64,
}

impl Index {
    /// Byte offset inside the ring buffer.
    pub open spec fn offset_spec(self) -> nat {
        (self.value % GENERATION_STEP) as nat
    }

    /// How often this position has wrapped around the buffer end.
    pub open spec fn generation_spec(self) -> nat {
        (self.value / GENERATION_STEP) as nat
    }

    /// Absolute stream position in bytes, for a ring of `len` bytes:
    /// every generation stands for one full lap of the buffer.
    pub open spec fn extended(self, len: nat) -> int {
        self.generation_spec() * (len as int) + self.offset_spec()
    }

    /// Record that the position wrapped around the buffer end once more.
    pub fn bump_generation(&mut self)
        requires
            old(self).value + GENERATION_STEP <= u64::MAX,
        ensures
            final(self).value == old(self).value + GENERATION_STEP,
            final(self).offset_spec() == old(self).offset_spec(),
            final(self).generation_spec() == old(self).generation_spec() + 1,
    {
        self.value = self.value + GENERATION_STEP;
        proof {
            lemma_fundamental_div_mod_converse(
                self.value as int,
                GENERATION_STEP as int,
                old(self).generation_spec() as int + 1,
                old(self).offset_spec() as int,
            );
        }
    }

    /// Advance the offset by `v` bytes without wrapping.
    pub fn add(&mut self, v: usize)
        requires
            old(self).offset_spec() + v < GENERATION_STEP,
        ensures
            final(self).value == old(self).value + v,
            final(self).offset_spec() == old(self).offset_spec() + v,
            final(self).generation_spec() == old(self).generation_spec(),
    {
        proof {
            vstd::arithmetic::div_mod::lemma_fundamental_div_mod(
                old(self).value as int,
                GENERATION_STEP as int,
            );
            let x = old(self).value;
            let g = old(self).generation_spec();
            let off = old(self).offset_spec();
            assert(x == g * (GENERATION_STEP as int) + off);
            assert(g <= 0xffff_ffff);
            assert(x + v <= u64::MAX) by (nonlinear_arith)
                requires
                    x == g * (GENERATION_STEP as int) + off,
                    g <= 0xffff_ffff,
                    off + v < GENERATION_STEP,
            ;
        }
        self.value = self.value + (v as u64);
        proof {
            lemma_fundamental_div_mod_converse(
                self.value as int,
                GENERATION_STEP as int,
                old(self).generation_spec() as int,
                old(self).offset_spec() + v,
            );
        }
    }

    /// Set the offset, keeping the generation.
    pub fn set(&mut self, v: usize)
        requires
            v < GENERATION_STEP,
        ensures
            final(self).offset_spec() == v,
            final(self).generation_spec() == old(self).generation_spec(),
    {
        let ghost g = self.value;
        let ghost w = v as u64;
        self.value = (self.value & 0xffff_ffff_0000_0000) | (v as u64);
        proof {
            assert((g & 0xffff_ffff_0000_0000) | w == (g / 0x1_0000_0000u64) * 0x1_0000_0000
                + w) by (bit_vector)
                requires
                    w < 0x1_0000_0000u64,
            ;
            lemma_fundamental_div_mod_converse(
                self.value as int,
                GENERATION_STEP as int,
                old(self).generation_spec() as int,
                v as int,
            );
        }
    }

    /// The offset inside the ring buffer.
    pub fn get(&mut self) -> (r: usize)
        ensures
            r == old(self).offset_spec(),
            *final(self) == *old(self),
    {
        let ghost g = self.value;
        let r64 = self.value & 0x0000_0000_ffff_ffff;
        proof {
            assert(g & 0x0000_0000_ffff_ffff == g % 0x1_0000_0000u64) by (bit_vector);
        }
        r64 as usize
    }
}

impl Default for Index {
    /// The starting position: offset zero in generation zero.
    fn default() -> (r: Self)
        ensures
            r.value == 0,
    {
        Index { value: 0 }
    }
}

} // verus!

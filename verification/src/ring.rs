//! The audio ring buffer.
//!
//! A fixed byte buffer with two generation-tagged positions: `read_index`
//! marks the next byte the consumer takes, `write_index` the next byte the
//! producer fills. Both advance monotonically in absolute stream position;
//! the offset wraps around the buffer end and the generation counts the
//! wraps. The buffer holds at most `capacity` unread bytes, and writing
//! never overtakes reading.

use crate::index::GENERATION_STEP;
use crate::index::Index;
use vstd::arithmetic::div_mod::lemma_fundamental_div_mod;
use vstd::arithmetic::div_mod::lemma_fundamental_div_mod_converse_mod;
use vstd::arithmetic::div_mod::lemma_mod_multiples_vanish;
use vstd::arithmetic::div_mod::lemma_small_mod;
use vstd::prelude::*;

verus! {

/// Position of the `j`-th byte at or after offset `off` in a ring of `c`
/// bytes, for `off < c` and `j < c`.
pub open spec fn ring_pos(off: int, j: int, c: int) -> int {
    if off + j < c {
        off + j
    } else {
        off + j - c
    }
}

pub struct RingBuffer {
    /// Backing byte storage; its length is the ring capacity.
    pub data: Vec<u8>,
    /// Position of the next byte to read.
    pub read_index: Index,
    /// Position of the next byte to write.
    pub write_index: Index,
}

impl RingBuffer {
    /// Size of the backing storage in bytes.
    pub open spec fn capacity(self) -> nat {
        self.data@.len()
    }

    /// Absolute stream position of the reader in bytes.
    pub open spec fn read_ext(self) -> int {
        self.read_index.extended(self.capacity())
    }

    /// Absolute stream position of the writer in bytes.
    pub open spec fn write_ext(self) -> int {
        self.write_index.extended(self.capacity())
    }

    /// Bytes written and not yet read.
    pub open spec fn used(self) -> int {
        self.write_ext() - self.read_ext()
    }

    /// Well-formedness: offsets stay inside the buffer, the writer is
    /// never behind the reader, and no more than `capacity` bytes are
    /// pending.
    pub open spec fn inv(self) -> bool {
        &&& 0 < self.capacity() < GENERATION_STEP
        &&& self.read_index.offset_spec() < self.capacity()
        &&& self.write_index.offset_spec() < self.capacity()
        &&& 0 <= self.used() <= self.capacity()
    }

    /// Whether two ring states hold the same storage and positions.
    pub open spec fn same_as(self, other: RingBuffer) -> bool {
        &&& self.data@ == other.data@
        &&& self.read_index == other.read_index
        &&& self.write_index == other.write_index
    }

    /// The pending bytes, oldest first.
    pub open spec fn contents(self) -> Seq<u8> {
        Seq::new(
            self.used() as nat,
            |i: int|
                self.data@[(self.read_index.offset_spec() + i) % (self.capacity() as int)],
        )
    }

    /// A fresh ring of `capacity` zero bytes.
    pub fn new(capacity: usize) -> (r: RingBuffer)
        requires
            0 < capacity < GENERATION_STEP,
        ensures
            r.inv(),
            r.capacity() == capacity,
            r.used() == 0,
            r.read_ext() == 0,
            r.write_ext() == 0,
            r.read_index.value == 0,
            r.write_index.value == 0,
            r.contents() == Seq::<u8>::empty(),
    {
        let mut data: Vec<u8> = Vec::new();
        let mut i: usize = 0;
        while i < capacity
            invariant
                i <= capacity,
                data@.len() == i,
            decreases capacity - i,
        {
            data.push(0);
            i = i + 1;
        }
        let r = RingBuffer { data, read_index: Index { value: 0 }, write_index: Index { value: 0 } };
        proof {
            assert(0u64 % GENERATION_STEP == 0 && 0u64 / GENERATION_STEP == 0);
            assert(r.read_index.extended(r.capacity()) == 0) by (nonlinear_arith)
                requires
                    r.read_index.generation_spec() == 0,
                    r.read_index.offset_spec() == 0,
            ;
            assert(r.write_index.extended(r.capacity()) == 0) by (nonlinear_arith)
                requires
                    r.write_index.generation_spec() == 0,
                    r.write_index.offset_spec() == 0,
            ;
            assert(r.contents() =~= Seq::<u8>::empty());
        }
        r
    }

    /// How the writer offset stands to the reader offset: the writer is
    /// zero or one generation ahead, and the offsets differ by the pending
    /// byte count modulo the capacity.
    pub proof fn lemma_index_geometry(self)
        requires
            self.inv(),
        ensures
            self.read_index.generation_spec() <= self.write_index.generation_spec()
                <= self.read_index.generation_spec() + 1,
            self.used() == (self.write_index.generation_spec()
                - self.read_index.generation_spec()) * self.capacity()
                + self.write_index.offset_spec() - self.read_index.offset_spec(),
            self.write_index.offset_spec() == (self.read_index.offset_spec() + self.used()) % (
            self.capacity() as int),
    {
        let c = self.capacity() as int;
        let woff = self.write_index.offset_spec() as int;
        let roff = self.read_index.offset_spec() as int;
        let wgen = self.write_index.generation_spec() as int;
        let rgen = self.read_index.generation_spec() as int;
        let used = self.used();
        let dg = wgen - rgen;
        assert(used == dg * c + woff - roff) by (nonlinear_arith)
            requires
                used == wgen * c + woff - (rgen * c + roff),
                dg == wgen - rgen,
        ;
        assert(0 <= dg <= 1) by (nonlinear_arith)
            requires
                dg * c == used - woff + roff,
                0 <= used <= c,
                0 <= woff < c,
                0 <= roff < c,
                c > 0,
        ;
        lemma_fundamental_div_mod_converse_mod(roff + used, c, dg, woff);
    }

    /// The writer never stands behind the reader, neither in absolute
    /// stream position nor in the raw order of the two index words, and
    /// the pending bytes never exceed the capacity.
    pub proof fn lemma_write_not_behind_read(self)
        requires
            self.inv(),
        ensures
            self.read_ext() <= self.write_ext(),
            self.write_ext() - self.read_ext() <= self.capacity(),
            self.read_index.value <= self.write_index.value,
    {
        self.lemma_index_geometry();
        let c = self.capacity() as int;
        let woff = self.write_index.offset_spec() as int;
        let roff = self.read_index.offset_spec() as int;
        let wgen = self.write_index.generation_spec() as int;
        let rgen = self.read_index.generation_spec() as int;
        lemma_fundamental_div_mod(self.write_index.value as int, GENERATION_STEP as int);
        lemma_fundamental_div_mod(self.read_index.value as int, GENERATION_STEP as int);
        assert(self.write_index.value == wgen * (GENERATION_STEP as int) + woff);
        assert(self.read_index.value == rgen * (GENERATION_STEP as int) + roff);
        if wgen == rgen {
            assert(self.read_index.value <= self.write_index.value);
        } else {
            assert(wgen == rgen + 1);
            assert(wgen * (GENERATION_STEP as int) == rgen * (GENERATION_STEP as int)
                + GENERATION_STEP) by (nonlinear_arith)
                requires
                    wgen == rgen + 1,
            ;
            assert(self.read_index.value <= self.write_index.value);
        }
    }

    /// How many bytes are pending: written and not yet read.
    pub fn used_bytes(&self) -> (r: usize)
        requires
            self.inv(),
        ensures
            r == self.used(),
    {
        let cap = self.data.len();
        let mut w = self.write_index;
        let mut rd = self.read_index;
        let woff = w.get();
        let roff = rd.get();
        let wgen = self.write_index.value / GENERATION_STEP;
        let rgen = self.read_index.value / GENERATION_STEP;
        proof {
            self.lemma_index_geometry();
        }
        if wgen == rgen {
            woff - roff
        } else {
            proof {
                assert(self.write_index.generation_spec()
                    == self.read_index.generation_spec() + 1);
                assert((self.write_index.generation_spec()
                    - self.read_index.generation_spec()) * self.capacity()
                    == self.capacity()) by (nonlinear_arith)
                    requires
                        self.write_index.generation_spec() == self.read_index.generation_spec()
                            + 1,
                ;
            }
            (cap - roff) + woff
        }
    }

    /// Append `n` bytes from the front of `src` to the ring.
    pub fn write(&mut self, src: &Vec<u8>, n: usize)
        requires
            old(self).inv(),
            n <= src@.len(),
            old(self).used() + n <= old(self).capacity(),
            old(self).write_index.generation_spec() < 0xffff_ffff,
        ensures
            final(self).inv(),
            final(self).capacity() == old(self).capacity(),
            final(self).read_index == old(self).read_index,
            final(self).write_ext() == old(self).write_ext() + n,
            final(self).used() == old(self).used() + n,
            final(self).contents() == old(self).contents() + src@.take(n as int),
    {
        let cap = self.data.len();
        let mut w = self.write_index;
        let off = w.get();
        proof {
            old(self).lemma_index_geometry();
        }
        let mut i: usize = 0;
        while i < n
            invariant
                i <= n,
                n <= src@.len(),
                n <= cap,
                old(self).inv(),
                old(self).used() + n <= old(self).capacity(),
                old(self).write_index.generation_spec() < 0xffff_ffff,
                self.read_index == old(self).read_index,
                self.write_index == old(self).write_index,
                self.data@.len() == cap,
                cap == old(self).capacity(),
                off == old(self).write_index.offset_spec(),
                off < cap,
                forall|j: int|
                    0 <= j < i ==> self.data@[ring_pos(off as int, j, cap as int)] == src@[j],
                forall|p: int|
                    0 <= p < cap && !(off <= p < off + i) && !(p < off + i - cap)
                        ==> self.data@[p] == old(self).data@[p],
            decreases n - i,
        {
            let pos = if i < cap - off {
                off + i
            } else {
                i - (cap - off)
            };
            proof {
                assert(pos == ring_pos(off as int, i as int, cap as int));
                assert forall|j: int| 0 <= j < i implies ring_pos(off as int, j, cap as int)
                    != pos by {
                    assert(j < i && i - j < cap);
                }
            }
            let b = src[i];
            self.data.set(pos, b);
            i = i + 1;
        }
        if n < cap - off {
            self.write_index.add(n);
        } else {
            let rest = n - (cap - off);
            self.write_index.set(rest);
            proof {
                lemma_fundamental_div_mod(
                    self.write_index.value as int,
                    GENERATION_STEP as int,
                );
                assert(self.write_index.generation_spec() <= 0xffff_fffe);
                assert(self.write_index.value + GENERATION_STEP <= u64::MAX);
            }
            self.write_index.bump_generation();
        }
        proof {
            self.lemma_write_contents_after(*old(self), src@, n as int, off as int, cap as int);
        }
    }

    /// Take the oldest `n` bytes out of the ring.
    pub fn read(&mut self, n: usize) -> (r: Vec<u8>)
        requires
            old(self).inv(),
            n <= old(self).used(),
            old(self).read_index.generation_spec() < 0xffff_ffff,
        ensures
            final(self).inv(),
            final(self).capacity() == old(self).capacity(),
            final(self).write_index == old(self).write_index,
            final(self).data@ == old(self).data@,
            final(self).read_ext() == old(self).read_ext() + n,
            final(self).used() == old(self).used() - n,
            r@ == old(self).contents().take(n as int),
            final(self).contents() == old(self).contents().skip(n as int),
    {
        let cap = self.data.len();
        let mut rd = self.read_index;
        let off = rd.get();
        proof {
            old(self).lemma_index_geometry();
        }
        let mut out: Vec<u8> = Vec::new();
        let mut i: usize = 0;
        while i < n
            invariant
                i <= n,
                n <= old(self).used(),
                old(self).read_index.generation_spec() < 0xffff_ffff,
                *self == *old(self),
                self.data@.len() == cap,
                cap == old(self).capacity(),
                old(self).inv(),
                off == old(self).read_index.offset_spec(),
                off < cap,
                out@.len() == i,
                forall|j: int| 0 <= j < i ==> out@[j] == old(self).contents()[j],
            decreases n - i,
        {
            let pos = if i < cap - off {
                off + i
            } else {
                i - (cap - off)
            };
            proof {
                let c = cap as int;
                if off + i < cap {
                    lemma_small_mod((off + i) as nat, cap as nat);
                } else {
                    lemma_fundamental_div_mod_converse_mod(
                        off + i,
                        c,
                        1,
                        off + i - c,
                    );
                }
                assert(pos == (off + i) % (cap as int));
            }
            let b = self.data[pos];
            out.push(b);
            i = i + 1;
        }
        if n < cap - off {
            self.read_index.add(n);
        } else {
            let rest = n - (cap - off);
            self.read_index.set(rest);
            proof {
                lemma_fundamental_div_mod(
                    self.read_index.value as int,
                    GENERATION_STEP as int,
                );
                assert(self.read_index.generation_spec() <= 0xffff_fffe);
                assert(self.read_index.value + GENERATION_STEP <= u64::MAX);
            }
            self.read_index.bump_generation();
        }
        proof {
            self.lemma_read_contents_after(*old(self), n as int, off as int, cap as int);
            assert(out@ =~= old(self).contents().take(n as int));
        }
        out
    }

    /// Round trip: writing `n` bytes into an empty ring and then reading
    /// `n` bytes yields those same bytes and returns the indices to
    /// equality. `mid` stands to `pre` as [`RingBuffer::write`] promises,
    /// and `out` and `post` stand to `mid` as [`RingBuffer::read`]
    /// promises.
    pub proof fn lemma_round_trip(
        pre: RingBuffer,
        mid: RingBuffer,
        post: RingBuffer,
        src: Seq<u8>,
        n: int,
        out: Seq<u8>,
    )
        requires
            pre.inv(),
            pre.used() == 0,
            0 <= n <= src.len(),
            mid.write_ext() == pre.write_ext() + n,
            mid.used() == pre.used() + n,
            mid.contents() == pre.contents() + src.take(n),
            post.write_index == mid.write_index,
            post.capacity() == mid.capacity(),
            post.read_ext() == mid.read_ext() + n,
            post.used() == mid.used() - n,
            out == mid.contents().take(n),
            post.contents() == mid.contents().skip(n),
        ensures
            out == src.take(n),
            post.used() == 0,
            post.read_ext() == post.write_ext(),
    {
        assert(pre.contents() =~= Seq::<u8>::empty());
        assert(out =~= src.take(n));
    }

    /// After a write of `src.take(n)` starting at writer offset `off`, the
    /// pending bytes are the old ones followed by the written ones.
    proof fn lemma_write_contents_after(
        self,
        pre: RingBuffer,
        src: Seq<u8>,
        n: int,
        off: int,
        c: int,
    )
        requires
            pre.inv(),
            c == pre.capacity(),
            n <= src.len(),
            0 <= n,
            pre.used() + n <= c,
            pre.write_index.generation_spec() < 0xffff_ffff,
            off == pre.write_index.offset_spec(),
            self.capacity() == c,
            self.read_index == pre.read_index,
            self.data@.len() == c,
            forall|j: int| 0 <= j < n ==> self.data@[ring_pos(off, j, c)] == src[j],
            forall|p: int|
                0 <= p < c && !(off <= p < off + n) && !(p < off + n - c) ==> self.data@[p]
                    == pre.data@[p],
            self.write_index.offset_spec() == (if off + n < c {
                off + n
            } else {
                off + n - c
            }),
            self.write_index.generation_spec() == (if off + n < c {
                pre.write_index.generation_spec() as int
            } else {
                pre.write_index.generation_spec() + 1int
            }),
        ensures
            self.inv(),
            self.write_ext() == pre.write_ext() + n,
            self.used() == pre.used() + n,
            self.contents() == pre.contents() + src.take(n),
    {
        pre.lemma_index_geometry();
        let roff = pre.read_index.offset_spec() as int;
        let used = pre.used();
        let wgen = pre.write_index.generation_spec() as int;
        let rgen = pre.read_index.generation_spec() as int;
        let dg = wgen - rgen;
        // the writer offset stands `used` bytes past the reader offset
        assert(off == (roff + used) % c);
        assert(roff + used == dg * c + off) by (nonlinear_arith)
            requires
                used == dg * c + off - roff,
        ;
        // absolute writer position advances by exactly n
        if off + n < c {
            assert(self.write_ext() == pre.write_ext() + n);
        } else {
            assert((wgen + 1) * c == wgen * c + c) by (nonlinear_arith);
            assert(self.write_ext() == pre.write_ext() + n);
        }
        assert(self.used() == used + n);
        assert(self.inv());
        // every pending byte is where the model says
        assert forall|k: int| 0 <= k < used + n implies self.data@[(roff + k) % c]
            == (pre.contents() + src.take(n))[k] by {
            if k < used {
                // untouched region: the old byte is still there
                let p = if roff + k < c {
                    roff + k
                } else {
                    roff + k - c
                };
                if roff + k < c {
                    lemma_small_mod((roff + k) as nat, c as nat);
                } else {
                    lemma_fundamental_div_mod_converse_mod(roff + k, c, 1, roff + k - c);
                }
                assert(p == (roff + k) % c);
                if roff + k >= c {
                    // reading wraps before the writer: the writer is one
                    // generation ahead
                    assert(dg == 1) by (nonlinear_arith)
                        requires
                            roff + used == dg * c + off,
                            0 <= dg <= 1,
                            roff + k >= c,
                            k < used,
                            0 <= off < c,
                            0 <= roff < c,
                    ;
                }
                assert(!(off <= p < off + n) && !(p < off + n - c));
                assert(self.data@[p] == pre.data@[p]);
                assert(pre.contents()[k] == pre.data@[(roff + k) % c]);
            } else {
                // newly written region
                let j = k - used;
                assert((roff + k) % c == (off + j) % c) by {
                    assert(roff + k == dg * c + (off + j));
                    lemma_mod_multiples_vanish(dg, off + j, c);
                };
                if off + j < c {
                    lemma_small_mod((off + j) as nat, c as nat);
                } else {
                    lemma_fundamental_div_mod_converse_mod(off + j, c, 1, off + j - c);
                }
                assert((off + j) % c == ring_pos(off, j, c));
                assert(self.data@[ring_pos(off, j, c)] == src[j]);
            }
        }
        assert(self.contents() =~= pre.contents() + src.take(n));
    }

    /// After a read of `n` bytes starting at reader offset `off`, the
    /// pending bytes are the old ones with the first `n` gone.
    proof fn lemma_read_contents_after(self, pre: RingBuffer, n: int, off: int, c: int)
        requires
            pre.inv(),
            c == pre.capacity(),
            0 <= n <= pre.used(),
            pre.read_index.generation_spec() < 0xffff_ffff,
            off == pre.read_index.offset_spec(),
            self.capacity() == c,
            self.write_index == pre.write_index,
            self.data@ == pre.data@,
            self.read_index.offset_spec() == (if off + n < c {
                off + n
            } else {
                off + n - c
            }),
            self.read_index.generation_spec() == (if off + n < c {
                pre.read_index.generation_spec() as int
            } else {
                pre.read_index.generation_spec() + 1int
            }),
        ensures
            self.inv(),
            self.read_ext() == pre.read_ext() + n,
            self.used() == pre.used() - n,
            self.contents() == pre.contents().skip(n),
    {
        pre.lemma_index_geometry();
        let rgen = pre.read_index.generation_spec() as int;
        if off + n < c {
            assert(self.read_ext() == pre.read_ext() + n);
        } else {
            assert((rgen + 1) * c == rgen * c + c) by (nonlinear_arith);
            assert(self.read_ext() == pre.read_ext() + n);
        }
        assert(self.used() == pre.used() - n);
        assert(self.inv());
        let roff2 = self.read_index.offset_spec() as int;
        assert forall|i: int| 0 <= i < pre.used() - n implies self.data@[#[trigger] ((roff2 + i) % c)]
            == pre.contents()[n + i] by {
            assert((roff2 + i) % c == (off + n + i) % c) by {
                if off + n < c {
                    assert(roff2 == off + n);
                } else {
                    assert(off + n == 1 * c + roff2);
                    lemma_mod_multiples_vanish(1, roff2 + i, c);
                    assert((off + n + i) % c == (c + (roff2 + i)) % c);
                }
            };
        }
        assert(self.contents() =~= pre.contents().skip(n));
    }
}

} // verus!

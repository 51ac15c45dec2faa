//! The bounded display buffer: an ordered sequence of Unicode scalars with a
//! fixed capacity, trimmed from the front after every append so that only the
//! most recent scalars survive.

use vstd::prelude::*;

verus! {

/// The contents of a buffer holding `buf` after every scalar of `glyph` is
/// appended in order and the oldest scalars are then evicted from the front
/// until at most `cap` remain. Eviction works on individual scalars, so a
/// multi-scalar glyph can be partially evicted, its trailing scalars
/// surviving.
pub open spec fn append_model(buf: Seq<char>, glyph: Seq<char>, cap: int) -> Seq<char> {
    let joined = buf + glyph;
    if joined.len() <= cap {
        joined
    } else {
        joined.subrange(joined.len() - cap, joined.len() as int)
    }
}

/// A fixed-capacity sliding window of Unicode scalars. Appends go to the
/// tail; whenever an append pushes the length over the capacity, scalars are
/// evicted from the head until the length equals the capacity.
pub struct DisplayBuffer {
    chars: Vec<char>,
    max_chars: usize,
}

impl DisplayBuffer {
    /// The scalars currently held, oldest first.
    pub closed spec fn contents(self) -> Seq<char> {
        self.chars@
    }

    /// The capacity bound in Unicode scalars.
    pub closed spec fn cap(self) -> int {
        self.max_chars as int
    }

    /// The buffer never holds more scalars than its capacity.
    pub open spec fn wf(self) -> bool {
        self.contents().len() <= self.cap()
    }

    /// Creates an empty buffer with capacity `max_chars`.
    pub fn new(max_chars: usize) -> (b: DisplayBuffer)
        ensures
            b.contents() == Seq::<char>::empty(),
            b.cap() == max_chars as int,
            b.wf(),
    {
        let b = DisplayBuffer { chars: Vec::new(), max_chars };
        proof {
            assert(b.contents() =~= Seq::<char>::empty());
        }
        b
    }

    /// The number of scalars currently held.
    pub fn len(&self) -> (n: usize)
        ensures
            n == self.contents().len(),
    {
        self.chars.len()
    }

    /// A read-only view of the scalars currently held, oldest first.
    pub fn chars(&self) -> (v: &Vec<char>)
        ensures
            v@ == self.contents(),
    {
        &self.chars
    }

    /// Appends every scalar of `glyph`, in order, to the tail, then evicts
    /// exactly as many leading scalars as the append pushed over the
    /// capacity, so the final length never exceeds the capacity.
    pub fn append(&mut self, glyph: &Vec<char>)
        requires
            old(self).wf(),
        ensures
            final(self).cap() == old(self).cap(),
            final(self).contents() == append_model(old(self).contents(), glyph@, old(self).cap()),
            final(self).wf(),
    {
        let ghost goal = append_model(old(self).contents(), glyph@, old(self).cap());
        if glyph.len() >= self.max_chars {
            // Even an empty buffer cannot keep more than the capacity, so
            // only the trailing scalars of the glyph itself survive.
            let start = glyph.len() - self.max_chars;
            let mut kept: Vec<char> = Vec::new();
            let mut i = start;
            while i < glyph.len()
                invariant
                    start <= i <= glyph.len(),
                    kept@ == glyph@.subrange(start as int, i as int),
                decreases glyph.len() - i,
            {
                kept.push(glyph[i]);
                proof {
                    assert(kept@ =~= glyph@.subrange(start as int, i + 1));
                }
                i = i + 1;
            }
            self.chars = kept;
            proof {
                assert(self.contents() =~= goal);
            }
        } else {
            // The whole glyph fits; keep as many trailing scalars of the old
            // contents as the remaining room allows.
            let room = self.max_chars - glyph.len();
            let keep_from = if self.chars.len() > room {
                self.chars.len() - room
            } else {
                0
            };
            let mut kept: Vec<char> = Vec::new();
            let mut i = keep_from;
            while i < self.chars.len()
                invariant
                    keep_from <= i <= self.chars.len(),
                    kept@ == self.chars@.subrange(keep_from as int, i as int),
                decreases self.chars.len() - i,
            {
                kept.push(self.chars[i]);
                proof {
                    assert(kept@ =~= self.chars@.subrange(keep_from as int, i + 1));
                }
                i = i + 1;
            }
            let mut j: usize = 0;
            while j < glyph.len()
                invariant
                    0 <= j <= glyph.len(),
                    kept@ == self.chars@.subrange(keep_from as int, self.chars@.len() as int)
                        + glyph@.subrange(0, j as int),
                decreases glyph.len() - j,
            {
                kept.push(glyph[j]);
                proof {
                    assert(kept@ =~= self.chars@.subrange(keep_from as int, self.chars@.len() as int)
                        + glyph@.subrange(0, j + 1));
                }
                j = j + 1;
            }
            self.chars = kept;
            proof {
                assert(glyph@.subrange(0, glyph@.len() as int) =~= glyph@);
                assert(self.contents() =~= goal);
            }
        }
    }
}

} // verus!

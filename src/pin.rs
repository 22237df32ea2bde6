//! A fixed-size inline buffer.
use vstd::prelude::*;

verus! {

/// How many bytes an [`InlineBuf`] holds.
pub const INLINE_CAPACITY: usize = 32;

/// A buffer of 32 bytes kept inline. Until content is first set it shows
/// nothing; from then on it shows all 32 bytes.
#[derive(Debug)]
pub struct InlineBuf {
    data: [u8; 32],
    filled: bool,
}

impl InlineBuf {
    /// The bytes the buffer holds.
    pub closed spec fn data(&self) -> Seq<u8> {
        self.data@
    }

    /// Whether content has been set.
    pub closed spec fn filled(&self) -> bool {
        self.filled
    }

    /// What the buffer shows.
    pub open spec fn content(&self) -> Seq<u8> {
        if self.filled() {
            self.data()
        } else {
            Seq::empty()
        }
    }

    /// An empty buffer, all zero bytes.
    pub fn new() -> (r: InlineBuf)
        ensures
            r.data() == Seq::new(32, |i: int| 0u8),
            !r.filled(),
    {
        let r = InlineBuf { data: [0u8; 32], filled: false };
        assert(r.data() =~= Seq::new(32, |i: int| 0u8));
        r
    }

    /// Copies `bs` to the front of the buffer, where it fits; leaves the
    /// buffer as it was where `bs` is longer than 32 bytes.
    pub fn set_content(&mut self, bs: &[u8])
        ensures
            bs@.len() > 32 ==> final(self).data() == old(self).data() && final(self).filled()
                == old(self).filled(),
            bs@.len() <= 32 ==> final(self).data() == bs@ + old(self).data().subrange(
                bs@.len() as int,
                32,
            ) && final(self).filled(),
    {
        if bs.len() > INLINE_CAPACITY {
            return;
        }
        let mut i: usize = 0;
        while i < bs.len()
            invariant
                bs@.len() <= 32,
                i <= bs@.len(),
                self.data@.len() == 32,
                forall|j: int| 0 <= j < i ==> self.data@[j] == bs@[j],
                forall|j: int| i <= j < 32 ==> self.data@[j] == old(self).data@[j],
                self.filled == old(self).filled,
            decreases bs@.len() - i,
        {
            self.data[i] = bs[i];
            i = i + 1;
        }
        self.filled = true;
        assert(self.data@ =~= bs@ + old(self).data@.subrange(bs@.len() as int, 32));
    }

    /// What the buffer shows: nothing before content was set, then all 32 bytes.
    pub fn get_content(&self) -> (r: Vec<u8>)
        ensures
            r@ == self.content(),
    {
        let mut out: Vec<u8> = Vec::new();
        if self.filled {
            let mut i: usize = 0;
            while i < INLINE_CAPACITY
                invariant
                    i <= 32,
                    self.data@.len() == 32,
                    out@ == self.data@.subrange(0, i as int),
                decreases 32 - i,
            {
                out.push(self.data[i]);
                i = i + 1;
            }
            assert(self.data@.subrange(0, 32) == self.data@);
        }
        out
    }
}

} // verus!

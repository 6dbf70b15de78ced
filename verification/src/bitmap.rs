use vstd::prelude::*;

verus! {

/// True when every block of `blocks` in `[first, first + nb)` that exists
/// (index below the length of `blocks`) is in state `plugged`.
/// Blocks of the range past the end of the bitmap are not looked at.
pub open spec fn range_in_state(blocks: Seq<bool>, first: int, nb: int, plugged: bool) -> bool {
    forall|i: int| first <= i < first + nb && 0 <= i < blocks.len() ==> blocks[i] == plugged
}

/// `blocks` with every existing block of `[first, first + nb)` set to `plugged`
/// and every other block unchanged.
pub open spec fn with_range_state(blocks: Seq<bool>, first: int, nb: int, plugged: bool) -> Seq<bool> {
    Seq::new(blocks.len(), |i: int| if first <= i < first + nb { plugged } else { blocks[i] })
}

/// Plug state of each block of a device's memory region, one entry per block:
/// `true` for plugged, `false` for unplugged.
#[derive(Clone, Debug, Default)]
pub struct MemBitmap {
    pub bitmap: Vec<bool>,
}

impl View for MemBitmap {
    type V = Seq<bool>;

    open spec fn view(&self) -> Seq<bool> {
        self.bitmap@
    }
}

impl MemBitmap {
    /// A bitmap of `region_size / block_size` blocks, all unplugged.
    pub fn new(region_size: u64, block_size: u64) -> (bitmap: Self)
        requires
            block_size > 0,
        ensures
            bitmap@.len() == (region_size / block_size) as usize,
            forall|i: int| 0 <= i < bitmap@.len() ==> !(#[trigger] bitmap@[i]),
    {
        let n: usize = #[verifier::truncate] ((region_size / block_size) as usize);
        MemBitmap { bitmap: vec![false; n] }
    }

    /// Number of blocks in the bitmap.
    pub fn len(&self) -> (n: usize)
        ensures
            n == self@.len(),
    {
        self.bitmap.len()
    }

    /// Whether each block of the `nb_blocks` blocks starting at `first_block_index`
    /// (as far as the bitmap reaches) is in state `plugged`.
    pub fn is_range_state(&self, first_block_index: usize, nb_blocks: u16, plugged: bool) -> (res: bool)
        ensures
            res == range_in_state(self@, first_block_index as int, nb_blocks as int, plugged),
    {
        let len = self.bitmap.len();
        if first_block_index >= len {
            return true;
        }
        let end: usize = if nb_blocks as usize > len - first_block_index {
            len
        } else {
            first_block_index + nb_blocks as usize
        };
        let mut i: usize = first_block_index;
        while i < end
            invariant
                first_block_index <= i <= end <= len,
                len == self@.len(),
                end == len || end == first_block_index + nb_blocks,
                end == len ==> len <= first_block_index + nb_blocks,
                forall|j: int| first_block_index <= j < i ==> self@[j] == plugged,
            decreases end - i,
        {
            if self.bitmap[i] != plugged {
                assert(!range_in_state(self@, first_block_index as int, nb_blocks as int, plugged))
                    by {
                    assert(self@[i as int] != plugged);
                }
                return false;
            }
            i = i + 1;
        }
        true
    }

    /// Sets each block of the `nb_blocks` blocks starting at `first_block_index`
    /// (as far as the bitmap reaches) to state `plugged`.
    pub fn set_range_state(&mut self, first_block_index: usize, nb_blocks: u16, plugged: bool)
        ensures
            final(self)@ == with_range_state(
                old(self)@,
                first_block_index as int,
                nb_blocks as int,
                plugged,
            ),
    {
        let len = self.bitmap.len();
        if first_block_index >= len {
            assert(self@ =~= with_range_state(old(self)@, first_block_index as int, nb_blocks as int, plugged));
            return;
        }
        let end: usize = if nb_blocks as usize > len - first_block_index {
            len
        } else {
            first_block_index + nb_blocks as usize
        };
        let mut i: usize = first_block_index;
        while i < end
            invariant
                first_block_index <= i <= end <= len,
                len == self@.len(),
                len == old(self)@.len(),
                end == len || end == first_block_index + nb_blocks,
                forall|j: int|
                    0 <= j < len ==> #[trigger] self@[j] == (if first_block_index <= j < i {
                        plugged
                    } else {
                        old(self)@[j]
                    }),
            decreases end - i,
        {
            self.bitmap.set(i, plugged);
            i = i + 1;
        }
        assert(self@ =~= with_range_state(old(self)@, first_block_index as int, nb_blocks as int, plugged));
    }
}

} // verus!

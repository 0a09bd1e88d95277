use crate::buffer::{be_u32, be_u64, read_be_u32, read_be_u64, sub_slice, ByteBuf};
use crate::error::DecodeError;
use crate::page::{list_base_node_of, ListBaseNode};
use vstd::prelude::*;

verus! {

/// The number of bytes of an inode entry.
pub const INODE_ENTRY_LEN: usize = 192;

/// The value of the magic number of an inode entry that is in use.
pub const INODE_MAGIC: u32 = 0x05D6_69D2;

/// The 192 bytes that describe a segment.
///
/// | bytes   | field |
/// |---------|-------|
/// | 0..8    | id of the segment |
/// | 8..12   | pages used in the extents of the list `not_full` |
/// | 12..28  | list of the extents with no page in use |
/// | 28..44  | list of the extents with some pages in use |
/// | 44..60  | list of the extents with all pages in use |
/// | 60..64  | magic number |
/// | 64..192 | 32 numbers of single pages of the segment |
pub struct InodeEntry<B: ByteBuf> {
    buffer: B,
}

impl<B: ByteBuf> InodeEntry<B> {
    /// The bytes the entry is laid over.
    pub closed spec fn view(&self) -> Seq<u8> {
        self.buffer.bytes()
    }

    /// The entry lies over exactly 192 bytes.
    pub open spec fn wf(&self) -> bool {
        self@.len() == INODE_ENTRY_LEN
    }

    /// Every entry that exists is well formed.
    #[verifier::type_invariant]
    spec fn inv(&self) -> bool {
        self.wf()
    }

    /// Lays an entry over `buffer`, which must hold exactly 192 bytes.
    pub fn new(buffer: B) -> (r: Result<InodeEntry<B>, DecodeError>)
        ensures
            buffer.bytes().len() == INODE_ENTRY_LEN ==> r is Ok && r.unwrap()@ == buffer.bytes()
                && r.unwrap().wf(),
            buffer.bytes().len() != INODE_ENTRY_LEN ==> r == Err::<InodeEntry<B>, DecodeError>(
                DecodeError::MalformedLength,
            ),
    {
        if buffer.as_slice().len() != INODE_ENTRY_LEN {
            Err(DecodeError::MalformedLength)
        } else {
            Ok(Self { buffer })
        }
    }

    /// The id of the segment that the entry describes; 0 where the entry is
    /// not in use.
    pub fn segment_id(&self) -> (r: u64)
        ensures
            r == be_u64(self@.subrange(0, 8)),
    {
        proof {
            use_type_invariant(self);
        }
        read_be_u64(self.buffer.as_slice(), 0)
    }

    /// The number of pages in use in the extents of the list `not_full`.
    pub fn not_full_num(&self) -> (r: u32)
        ensures
            r == be_u32(self@.subrange(8, 12)),
    {
        proof {
            use_type_invariant(self);
        }
        read_be_u32(self.buffer.as_slice(), 8)
    }

    /// The list of the extents of the segment with no page in use.
    pub fn free(&self) -> (r: ListBaseNode)
        ensures
            r == list_base_node_of(self@.subrange(12, 28)),
    {
        proof {
            use_type_invariant(self);
        }
        ListBaseNode::new(sub_slice(self.buffer.as_slice(), 12, 28))
    }

    /// The list of the extents of the segment with some pages in use.
    pub fn not_full(&self) -> (r: ListBaseNode)
        ensures
            r == list_base_node_of(self@.subrange(28, 44)),
    {
        proof {
            use_type_invariant(self);
        }
        ListBaseNode::new(sub_slice(self.buffer.as_slice(), 28, 44))
    }

    /// The list of the extents of the segment with all pages in use.
    pub fn full(&self) -> (r: ListBaseNode)
        ensures
            r == list_base_node_of(self@.subrange(44, 60)),
    {
        proof {
            use_type_invariant(self);
        }
        ListBaseNode::new(sub_slice(self.buffer.as_slice(), 44, 60))
    }

    /// The magic number, `INODE_MAGIC` on an entry that is in use.
    pub fn magic_number(&self) -> (r: u32)
        ensures
            r == be_u32(self@.subrange(60, 64)),
    {
        proof {
            use_type_invariant(self);
        }
        read_be_u32(self.buffer.as_slice(), 60)
    }

    /// The numbers of the 32 single pages of the segment.
    pub fn fragment_array(&self) -> (r: [u32; 32])
        ensures
            forall|i: int|
                0 <= i < 32 ==> #[trigger] r@[i] == be_u32(
                    self@.subrange(64 + 4 * i, 68 + 4 * i),
                ),
    {
        proof {
            use_type_invariant(self);
        }
        let s = self.buffer.as_slice();
        let mut array = [0u32;32];
        let mut index: usize = 0;
        while index < 32
            invariant
                index <= 32,
                s@ == self@,
                self@.len() == INODE_ENTRY_LEN,
                forall|i: int|
                    0 <= i < index ==> #[trigger] array@[i] == be_u32(
                        self@.subrange(64 + 4 * i, 68 + 4 * i),
                    ),
            decreases 32 - index,
        {
            let start: usize = 64 + index * 4;
            array[index] = read_be_u32(s, start);
            index += 1;
        }
        array
    }
}

} // verus!

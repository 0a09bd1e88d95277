use crate::buffer::{be_u32, be_u64, read_be_u32, read_be_u64, sub_slice, ByteBuf};
use crate::error::DecodeError;
use crate::page::{list_base_node_of, ListBaseNode};
use vstd::prelude::*;

verus! {

/// The number of bytes of the header of the file space.
pub const FSP_HEADER_LEN: usize = 112;

/// The 112 bytes that describe the file space, at the start of the payload
/// of page 0.
///
/// | bytes    | field |
/// |----------|-------|
/// | 0..4     | space id |
/// | 4..8     | not used |
/// | 8..12    | size of the space in pages |
/// | 12..16   | first page that was never used |
/// | 16..20   | flags of the space |
/// | 20..24   | pages used in the extents of the list `free_frag` |
/// | 24..40   | list of the extents with no page in use |
/// | 40..56   | list of the extents with some pages in use |
/// | 56..72   | list of the extents with all pages in use |
/// | 72..80   | id of the next segment |
/// | 80..96   | list of the inode pages with no free entry |
/// | 96..112  | list of the inode pages with free entries |
pub struct HdrFspHeader<B: ByteBuf> {
    buffer: B,
}

impl<B: ByteBuf> HdrFspHeader<B> {
    /// The bytes the header is laid over.
    pub closed spec fn view(&self) -> Seq<u8> {
        self.buffer.bytes()
    }

    /// The header lies over exactly 112 bytes.
    pub open spec fn wf(&self) -> bool {
        self@.len() == FSP_HEADER_LEN
    }

    /// Every header that exists is well formed.
    #[verifier::type_invariant]
    spec fn inv(&self) -> bool {
        self.wf()
    }

    /// Lays a header over `buffer`, which must hold exactly 112 bytes.
    pub fn new(buffer: B) -> (r: Result<HdrFspHeader<B>, DecodeError>)
        ensures
            buffer.bytes().len() == FSP_HEADER_LEN ==> r is Ok && r.unwrap()@ == buffer.bytes()
                && r.unwrap().wf(),
            buffer.bytes().len() != FSP_HEADER_LEN ==> r == Err::<HdrFspHeader<B>, DecodeError>(
                DecodeError::MalformedLength,
            ),
    {
        if buffer.as_slice().len() != FSP_HEADER_LEN {
            Err(DecodeError::MalformedLength)
        } else {
            Ok(Self { buffer })
        }
    }

    /// The id of the space the file belongs to.
    pub fn space_id(&self) -> (r: u32)
        ensures
            r == be_u32(self@.subrange(0, 4)),
    {
        proof {
            use_type_invariant(self);
        }
        read_be_u32(self.buffer.as_slice(), 0)
    }

    /// Four bytes that are not used.
    pub fn not_used(&self) -> (r: u32)
        ensures
            r == be_u32(self@.subrange(4, 8)),
    {
        proof {
            use_type_invariant(self);
        }
        read_be_u32(self.buffer.as_slice(), 4)
    }

    /// The size of the space, in pages.
    pub fn size(&self) -> (r: u32)
        ensures
            r == be_u32(self@.subrange(8, 12)),
    {
        proof {
            use_type_invariant(self);
        }
        read_be_u32(self.buffer.as_slice(), 8)
    }

    /// The first page that was never used: the pages from it on are
    /// allocated but on no free list yet.
    pub fn free_limit(&self) -> (r: u32)
        ensures
            r == be_u32(self@.subrange(12, 16)),
    {
        proof {
            use_type_invariant(self);
        }
        read_be_u32(self.buffer.as_slice(), 12)
    }

    /// The flags of the space.
    pub fn space_flags(&self) -> (r: u32)
        ensures
            r == be_u32(self@.subrange(16, 20)),
    {
        proof {
            use_type_invariant(self);
        }
        read_be_u32(self.buffer.as_slice(), 16)
    }

    /// The number of pages in use in the extents of the list `free_frag`.
    pub fn frag_n_used(&self) -> (r: u32)
        ensures
            r == be_u32(self@.subrange(20, 24)),
    {
        proof {
            use_type_invariant(self);
        }
        read_be_u32(self.buffer.as_slice(), 20)
    }

    /// The list of the extents with no page in use.
    pub fn free(&self) -> (r: ListBaseNode)
        ensures
            r == list_base_node_of(self@.subrange(24, 40)),
    {
        proof {
            use_type_invariant(self);
        }
        ListBaseNode::new(sub_slice(self.buffer.as_slice(), 24, 40))
    }

    /// The list of the extents with some pages in use.
    pub fn free_frag(&self) -> (r: ListBaseNode)
        ensures
            r == list_base_node_of(self@.subrange(40, 56)),
    {
        proof {
            use_type_invariant(self);
        }
        ListBaseNode::new(sub_slice(self.buffer.as_slice(), 40, 56))
    }

    /// The list of the extents with all pages in use.
    pub fn full_frag(&self) -> (r: ListBaseNode)
        ensures
            r == list_base_node_of(self@.subrange(56, 72)),
    {
        proof {
            use_type_invariant(self);
        }
        ListBaseNode::new(sub_slice(self.buffer.as_slice(), 56, 72))
    }

    /// The id that the next segment will get.
    pub fn seg_id(&self) -> (r: u64)
        ensures
            r == be_u64(self@.subrange(72, 80)),
    {
        proof {
            use_type_invariant(self);
        }
        read_be_u64(self.buffer.as_slice(), 72)
    }

    /// The list of the inode pages with no free entry.
    pub fn seg_inodes_full(&self) -> (r: ListBaseNode)
        ensures
            r == list_base_node_of(self@.subrange(80, 96)),
    {
        proof {
            use_type_invariant(self);
        }
        ListBaseNode::new(sub_slice(self.buffer.as_slice(), 80, 96))
    }

    /// The list of the inode pages with free entries.
    pub fn seg_inodes_free(&self) -> (r: ListBaseNode)
        ensures
            r == list_base_node_of(self@.subrange(96, 112)),
    {
        proof {
            use_type_invariant(self);
        }
        ListBaseNode::new(sub_slice(self.buffer.as_slice(), 96, 112))
    }
}

} // verus!

use crate::buffer::{be_u32, be_u64, read_be_u32, read_be_u64, sub_slice, ByteBuf};
use crate::error::DecodeError;
use crate::page::{list_node_of, ListNode};
use vstd::prelude::*;

verus! {

/// The number of bytes of an extent descriptor.
pub const XDES_ENTRY_LEN: usize = 40;

/// The 40 bytes that describe an extent of 64 pages.
///
/// | bytes  | field |
/// |--------|-------|
/// | 0..8   | id of the segment the extent belongs to |
/// | 8..20  | links of the list the extent is on |
/// | 20..24 | state: 1 free, 2 partly used, 3 full, 4 owned by a segment |
/// | 24..40 | two bits for each page of the extent |
pub struct XDesEntry<B: ByteBuf> {
    buffer: B,
}

impl<B: ByteBuf> XDesEntry<B> {
    /// The bytes the descriptor is laid over.
    pub closed spec fn view(&self) -> Seq<u8> {
        self.buffer.bytes()
    }

    /// The descriptor lies over exactly 40 bytes.
    pub open spec fn wf(&self) -> bool {
        self@.len() == XDES_ENTRY_LEN
    }

    /// Every descriptor that exists is well formed.
    #[verifier::type_invariant]
    spec fn inv(&self) -> bool {
        self.wf()
    }

    /// Lays a descriptor over `buffer`, which must hold exactly 40 bytes.
    pub fn new(buffer: B) -> (r: Result<XDesEntry<B>, DecodeError>)
        ensures
            buffer.bytes().len() == XDES_ENTRY_LEN ==> r is Ok && r.unwrap()@ == buffer.bytes()
                && r.unwrap().wf(),
            buffer.bytes().len() != XDES_ENTRY_LEN ==> r == Err::<XDesEntry<B>, DecodeError>(
                DecodeError::MalformedLength,
            ),
    {
        if buffer.as_slice().len() != XDES_ENTRY_LEN {
            Err(DecodeError::MalformedLength)
        } else {
            Ok(Self { buffer })
        }
    }

    /// The id of the segment the extent belongs to, if it belongs to one.
    pub fn segment_id(&self) -> (r: u64)
        ensures
            r == be_u64(self@.subrange(0, 8)),
    {
        proof {
            use_type_invariant(self);
        }
        read_be_u64(self.buffer.as_slice(), 0)
    }

    /// The links of the list of extents that the extent is on.
    pub fn flst_node(&self) -> (r: ListNode)
        ensures
            r == list_node_of(self@.subrange(8, 20)),
    {
        proof {
            use_type_invariant(self);
        }
        ListNode::new(sub_slice(self.buffer.as_slice(), 8, 20))
    }

    /// The state of the extent: 1 on the list of free extents, 2 on the
    /// list of partly used extents, 3 on the list of full extents, 4 owned
    /// by the segment that `segment_id` names.
    pub fn state(&self) -> (r: u32)
        ensures
            r == be_u32(self@.subrange(20, 24)),
    {
        proof {
            use_type_invariant(self);
        }
        read_be_u32(self.buffer.as_slice(), 20)
    }

    /// Two bits for each of the 64 pages of the extent.
    pub fn bitmap(&self) -> (r: &[u8])
        ensures
            r@ == self@.subrange(24, 40),
    {
        proof {
            use_type_invariant(self);
        }
        sub_slice(self.buffer.as_slice(), 24, 40)
    }
}

} // verus!

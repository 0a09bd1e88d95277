use crate::buffer::{be_i16, be_u16, read_be_i16, read_be_u16, ByteBuf};
use crate::error::DecodeError;
use vstd::prelude::*;

verus! {

/// The number of bytes of the header of a record in the compact format.
pub const NEW_HEAD_LEN: usize = 5;

/// The 5 bytes in front of the data of a record in the compact format.
///
/// | bits   | field |
/// |--------|-------|
/// | 2      | not used |
/// | 1      | the record is deleted |
/// | 1      | the record is the smallest of its level |
/// | 4      | number of records owned by this one in the page directory |
/// | 13     | position of the record in the heap |
/// | 3      | kind: 0 ordinary, 1 node pointer, 2 infimum, 3 supremum |
/// | 16     | distance to the next record, signed |
pub struct RecordHeader<B: ByteBuf> {
    buffer: B,
}

impl<B: ByteBuf> RecordHeader<B> {
    /// The bytes the header is laid over.
    pub closed spec fn view(&self) -> Seq<u8> {
        self.buffer.bytes()
    }

    /// The header lies over exactly 5 bytes.
    pub open spec fn wf(&self) -> bool {
        self@.len() == NEW_HEAD_LEN
    }

    /// Every header that exists is well formed.
    #[verifier::type_invariant]
    spec fn inv(&self) -> bool {
        self.wf()
    }

    /// Lays a header over `buffer`, which must hold exactly 5 bytes.
    pub fn new(buffer: B) -> (r: Result<RecordHeader<B>, DecodeError>)
        ensures
            buffer.bytes().len() == NEW_HEAD_LEN ==> r is Ok && r.unwrap()@ == buffer.bytes()
                && r.unwrap().wf(),
            buffer.bytes().len() != NEW_HEAD_LEN ==> r == Err::<RecordHeader<B>, DecodeError>(
                DecodeError::MalformedLength,
            ),
    {
        if buffer.as_slice().len() != NEW_HEAD_LEN {
            Err(DecodeError::MalformedLength)
        } else {
            Ok(Self { buffer })
        }
    }

    /// The five bytes of the header.
    pub fn buf(&self) -> (r: &[u8])
        ensures
            r@ == self@,
    {
        self.buffer.as_slice()
    }

    /// The two bits that are not used: the top two of byte 0.
    pub fn not_used(&self) -> (r: u8)
        ensures
            r == self@[0] / 64,
    {
        proof {
            use_type_invariant(self);
        }
        self.buffer.as_slice()[0] / 64
    }

    /// 1 when the record is deleted: bit 5 of byte 0.
    pub fn delete_mask(&self) -> (r: u8)
        ensures
            r == (self@[0] / 32) % 2,
    {
        proof {
            use_type_invariant(self);
        }
        (self.buffer.as_slice()[0] / 32) % 2
    }

    /// 1 when the record is the smallest of its level: bit 4 of byte 0.
    pub fn min_rec_mask(&self) -> (r: u8)
        ensures
            r == (self@[0] / 16) % 2,
    {
        proof {
            use_type_invariant(self);
        }
        (self.buffer.as_slice()[0] / 16) % 2
    }

    /// The number of records this one owns: the low four bits of byte 0.
    pub fn n_owned(&self) -> (r: u8)
        ensures
            r == self@[0] % 16,
    {
        proof {
            use_type_invariant(self);
        }
        self.buffer.as_slice()[0] % 16
    }

    /// The position of the record in the heap: the top 13 bits of bytes 1..3.
    pub fn heap_no(&self) -> (r: u16)
        ensures
            r == be_u16(self@.subrange(1, 3)) / 8,
    {
        proof {
            use_type_invariant(self);
        }
        read_be_u16(self.buffer.as_slice(), 1) / 8
    }

    /// The kind of the record: the low three bits of byte 2.
    pub fn record_type(&self) -> (r: u8)
        ensures
            r == self@[2] % 8,
    {
        proof {
            use_type_invariant(self);
        }
        self.buffer.as_slice()[2] % 8
    }

    /// The distance from the start of this record's data to the start of the
    /// next record's data.
    pub fn next_record(&self) -> (r: i16)
        ensures
            r == be_i16(self@.subrange(3, 5)),
    {
        proof {
            use_type_invariant(self);
        }
        read_be_i16(self.buffer.as_slice(), 3)
    }
}

} // verus!

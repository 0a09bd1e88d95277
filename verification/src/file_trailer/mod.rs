use crate::buffer::{be_u32, read_be_u32, ByteBuf};
use crate::error::DecodeError;
use vstd::prelude::*;

verus! {

/// The number of bytes of a file trailer.
pub const FILE_TRAILER_LEN: usize = 8;

/// The 8 bytes that every page ends with: a checksum and the low 32 bits of
/// the page's LSN.
pub struct FileTrailer<B: ByteBuf> {
    buffer: B,
}

impl<B: ByteBuf> FileTrailer<B> {
    /// The bytes the trailer is laid over.
    pub closed spec fn view(&self) -> Seq<u8> {
        self.buffer.bytes()
    }

    /// The trailer lies over exactly 8 bytes.
    pub open spec fn wf(&self) -> bool {
        self@.len() == FILE_TRAILER_LEN
    }

    /// Every trailer that exists is well formed.
    #[verifier::type_invariant]
    spec fn inv(&self) -> bool {
        self.wf()
    }

    /// Lays a trailer over `buffer`, which must hold exactly 8 bytes.
    pub fn new(buffer: B) -> (r: Result<FileTrailer<B>, DecodeError>)
        ensures
            buffer.bytes().len() == FILE_TRAILER_LEN ==> r is Ok && r.unwrap()@ == buffer.bytes()
                && r.unwrap().wf(),
            buffer.bytes().len() != FILE_TRAILER_LEN ==> r == Err::<FileTrailer<B>, DecodeError>(
                DecodeError::MalformedLength,
            ),
    {
        if buffer.as_slice().len() != FILE_TRAILER_LEN {
            Err(DecodeError::MalformedLength)
        } else {
            Ok(Self { buffer })
        }
    }

    /// The checksum of the page, as stored; it is not verified.
    pub fn check_sum(&self) -> (r: u32)
        ensures
            r == be_u32(self@.subrange(0, 4)),
    {
        proof {
            use_type_invariant(self);
        }
        read_be_u32(self.buffer.as_slice(), 0)
    }

    /// The low 32 bits of the LSN of the page's last change.
    pub fn lsn(&self) -> (r: u32)
        ensures
            r == be_u32(self@.subrange(4, 8)),
    {
        proof {
            use_type_invariant(self);
        }
        read_be_u32(self.buffer.as_slice(), 4)
    }
}

} // verus!

use crate::buffer::{be_u16, be_u32, be_u64, read_be_u16, read_be_u32, read_be_u64, ByteBuf};
use crate::error::DecodeError;
use crate::file_header::page_type::{page_type_of, PageType};
use vstd::prelude::*;

pub mod page_type;

verus! {

/// The number of bytes of a file header.
pub const FILE_HEADER_LEN: usize = 38;

/// The 38 bytes that every page starts with.
///
/// | bytes  | field     |
/// |--------|-----------|
/// | 0..4   | checksum  |
/// | 4..8   | page number |
/// | 8..12  | previous page |
/// | 12..16 | next page |
/// | 16..24 | LSN of the last change |
/// | 24..26 | page type |
/// | 26..34 | flushed LSN |
/// | 34..38 | space id |
pub struct FileHeader<B: ByteBuf> {
    buffer: B,
}

impl<B: ByteBuf> FileHeader<B> {
    /// The bytes the header is laid over.
    pub closed spec fn view(&self) -> Seq<u8> {
        self.buffer.bytes()
    }

    /// The header lies over exactly 38 bytes.
    pub open spec fn wf(&self) -> bool {
        self@.len() == FILE_HEADER_LEN
    }

    /// Every header that exists is well formed.
    #[verifier::type_invariant]
    spec fn inv(&self) -> bool {
        self.wf()
    }

    /// Lays a header over `buffer`, which must hold exactly 38 bytes.
    pub fn new(buffer: B) -> (r: Result<FileHeader<B>, DecodeError>)
        ensures
            buffer.bytes().len() == FILE_HEADER_LEN ==> r is Ok && r.unwrap()@ == buffer.bytes()
                && r.unwrap().wf(),
            buffer.bytes().len() != FILE_HEADER_LEN ==> r == Err::<FileHeader<B>, DecodeError>(
                DecodeError::MalformedLength,
            ),
    {
        if buffer.as_slice().len() != FILE_HEADER_LEN {
            Err(DecodeError::MalformedLength)
        } else {
            Ok(Self { buffer })
        }
    }

    /// The checksum of the page, as stored; it is not verified.
    pub fn check_sum(&self) -> (r: u32)
        ensures
            r == be_u32(self@.subrange(0, 4)),
    {
        proof {
            use_type_invariant(self);
        }
        read_be_u32(self.buffer.as_slice(), 0)
    }

    /// The number of this page.
    pub fn offset(&self) -> (r: u32)
        ensures
            r == be_u32(self@.subrange(4, 8)),
    {
        proof {
            use_type_invariant(self);
        }
        read_be_u32(self.buffer.as_slice(), 4)
    }

    /// The number of the previous page on the same level; `0xFFFFFFFF` for none.
    pub fn prev(&self) -> (r: u32)
        ensures
            r == be_u32(self@.subrange(8, 12)),
    {
        proof {
            use_type_invariant(self);
        }
        read_be_u32(self.buffer.as_slice(), 8)
    }

    /// The number of the next page on the same level; `0xFFFFFFFF` for none.
    pub fn next(&self) -> (r: u32)
        ensures
            r == be_u32(self@.subrange(12, 16)),
    {
        proof {
            use_type_invariant(self);
        }
        read_be_u32(self.buffer.as_slice(), 12)
    }

    /// The log sequence number of the last change of the page.
    pub fn lsn(&self) -> (r: u64)
        ensures
            r == be_u64(self@.subrange(16, 24)),
    {
        proof {
            use_type_invariant(self);
        }
        read_be_u64(self.buffer.as_slice(), 16)
    }

    /// The page type; a code outside the known set gives `FilPageTypeUnknown`.
    pub fn page_type(&self) -> (r: PageType)
        ensures
            r == page_type_of(be_u16(self@.subrange(24, 26))),
    {
        proof {
            use_type_invariant(self);
        }
        PageType::from(read_be_u16(self.buffer.as_slice(), 24))
    }

    /// The log sequence number up to which the file was flushed; it means
    /// something on one page of the system tablespace only.
    pub fn flush_lsn(&self) -> (r: u64)
        ensures
            r == be_u64(self@.subrange(26, 34)),
    {
        proof {
            use_type_invariant(self);
        }
        read_be_u64(self.buffer.as_slice(), 26)
    }

    /// The id of the space the page belongs to.
    pub fn space_id(&self) -> (r: u32)
        ensures
            r == be_u32(self@.subrange(34, 38)),
    {
        proof {
            use_type_invariant(self);
        }
        read_be_u32(self.buffer.as_slice(), 34)
    }
}

} // verus!

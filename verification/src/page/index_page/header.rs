use crate::buffer::{be_u16, be_u32, be_u64, read_be_u16, read_be_u32, read_be_u64, sub_slice, ByteBuf};
use crate::error::DecodeError;
use crate::page::index_page::direction::{direction_of, Direction};
use crate::page::index_page::format_flag::{record_format_of, RecordFormat};
use crate::page::{file_pointer_of, FilePointer};
use vstd::prelude::*;

verus! {

/// The number of bytes of an index header.
pub const INDEX_HEADER_LEN: usize = 36;

/// The number of bytes of a segment header.
pub const FSEG_HEADER_LEN: usize = 20;

/// The 36 bytes that describe an index page.
///
/// | bytes  | field |
/// |--------|-------|
/// | 0..2   | number of slots in the page directory |
/// | 2..4   | start of the free space |
/// | 4..6   | row format (top bit) and number of records in the heap (low 15 bits) |
/// | 6..8   | first deleted record |
/// | 8..10  | bytes taken by deleted records |
/// | 10..12 | position of the last insert |
/// | 12..14 | direction of the last inserts |
/// | 14..16 | number of inserts in that direction |
/// | 16..18 | number of user records |
/// | 18..26 | highest transaction id that changed the page |
/// | 26..28 | level of the page in the tree, 0 for a leaf |
/// | 28..36 | id of the index the page belongs to |
pub struct IndexHeader<B: ByteBuf> {
    buffer: B,
}

impl<B: ByteBuf> IndexHeader<B> {
    /// The bytes the header is laid over.
    pub closed spec fn view(&self) -> Seq<u8> {
        self.buffer.bytes()
    }

    /// The header lies over exactly 36 bytes.
    pub open spec fn wf(&self) -> bool {
        self@.len() == INDEX_HEADER_LEN
    }

    /// Every header that exists is well formed.
    #[verifier::type_invariant]
    spec fn inv(&self) -> bool {
        self.wf()
    }

    /// Lays a header over `buffer`, which must hold exactly 36 bytes.
    pub fn new(buffer: B) -> (r: Result<IndexHeader<B>, DecodeError>)
        ensures
            buffer.bytes().len() == INDEX_HEADER_LEN ==> r is Ok && r.unwrap()@ == buffer.bytes()
                && r.unwrap().wf(),
            buffer.bytes().len() != INDEX_HEADER_LEN ==> r == Err::<IndexHeader<B>, DecodeError>(
                DecodeError::MalformedLength,
            ),
    {
        if buffer.as_slice().len() != INDEX_HEADER_LEN {
            Err(DecodeError::MalformedLength)
        } else {
            Ok(Self { buffer })
        }
    }

    /// The number of slots in the page directory.
    pub fn slots(&self) -> (r: u16)
        ensures
            r == be_u16(self@.subrange(0, 2)),
    {
        proof {
            use_type_invariant(self);
        }
        read_be_u16(self.buffer.as_slice(), 0)
    }

    /// Where the free space of the page starts.
    pub fn heap_top(&self) -> (r: u16)
        ensures
            r == be_u16(self@.subrange(2, 4)),
    {
        proof {
            use_type_invariant(self);
        }
        read_be_u16(self.buffer.as_slice(), 2)
    }

    /// The number of records in the heap, the two sentinels and deleted
    /// records included: the low 15 bits of bytes 4..6.
    pub fn heap_num(&self) -> (r: u16)
        ensures
            r == be_u16(self@.subrange(4, 6)) % 0x8000,
    {
        proof {
            use_type_invariant(self);
        }
        read_be_u16(self.buffer.as_slice(), 4) % 0x8000
    }

    /// The row format: the top bit of byte 4.
    pub fn format_flag(&self) -> (r: RecordFormat)
        ensures
            r == record_format_of(self@[4] / 0x80),
            r != RecordFormat::Unknown,
    {
        proof {
            use_type_invariant(self);
        }
        let s = self.buffer.as_slice();
        RecordFormat::from(s[4] / 0x80)
    }

    /// Where the first deleted record lies; the deleted records form a list
    /// of their own.
    pub fn free(&self) -> (r: u16)
        ensures
            r == be_u16(self@.subrange(6, 8)),
    {
        proof {
            use_type_invariant(self);
        }
        read_be_u16(self.buffer.as_slice(), 6)
    }

    /// The number of bytes that deleted records take.
    pub fn garbage(&self) -> (r: u16)
        ensures
            r == be_u16(self@.subrange(8, 10)),
    {
        proof {
            use_type_invariant(self);
        }
        read_be_u16(self.buffer.as_slice(), 8)
    }

    /// Where the record that was inserted last lies.
    pub fn last_insert(&self) -> (r: u16)
        ensures
            r == be_u16(self@.subrange(10, 12)),
    {
        proof {
            use_type_invariant(self);
        }
        read_be_u16(self.buffer.as_slice(), 10)
    }

    /// The direction of the last inserts; a code outside the known set
    /// gives `Unknown`.
    pub fn direction(&self) -> (r: Direction)
        ensures
            r == direction_of(be_u16(self@.subrange(12, 14))),
    {
        proof {
            use_type_invariant(self);
        }
        Direction::from(read_be_u16(self.buffer.as_slice(), 12))
    }

    /// The number of inserts in a row in the direction of the last one.
    pub fn direction_num(&self) -> (r: u16)
        ensures
            r == be_u16(self@.subrange(14, 16)),
    {
        proof {
            use_type_invariant(self);
        }
        read_be_u16(self.buffer.as_slice(), 14)
    }

    /// The number of user records that are not deleted.
    pub fn recs(&self) -> (r: u16)
        ensures
            r == be_u16(self@.subrange(16, 18)),
    {
        proof {
            use_type_invariant(self);
        }
        read_be_u16(self.buffer.as_slice(), 16)
    }

    /// The highest id of a transaction that changed the page; it is kept on
    /// the pages of secondary indexes only.
    pub fn max_trx_id(&self) -> (r: u64)
        ensures
            r == be_u64(self@.subrange(18, 26)),
    {
        proof {
            use_type_invariant(self);
        }
        read_be_u64(self.buffer.as_slice(), 18)
    }

    /// The level of the page in the tree; 0 for a leaf.
    pub fn level(&self) -> (r: u16)
        ensures
            r == be_u16(self@.subrange(26, 28)),
    {
        proof {
            use_type_invariant(self);
        }
        read_be_u16(self.buffer.as_slice(), 26)
    }

    /// The id of the index the page belongs to.
    pub fn index_id(&self) -> (r: u64)
        ensures
            r == be_u64(self@.subrange(28, 36)),
    {
        proof {
            use_type_invariant(self);
        }
        read_be_u64(self.buffer.as_slice(), 28)
    }
}

/// The 20 bytes that name the two segments of an index; they mean something
/// on the root page only.
///
/// | bytes  | field |
/// |--------|-------|
/// | 0..4   | space id of the leaf segment |
/// | 4..10  | inode of the leaf segment |
/// | 10..14 | space id of the segment of the inner nodes |
/// | 14..20 | inode of the segment of the inner nodes |
pub struct FSegHeader<B: ByteBuf> {
    buffer: B,
}

impl<B: ByteBuf> FSegHeader<B> {
    /// The bytes the header is laid over.
    pub closed spec fn view(&self) -> Seq<u8> {
        self.buffer.bytes()
    }

    /// The header lies over exactly 20 bytes.
    pub open spec fn wf(&self) -> bool {
        self@.len() == FSEG_HEADER_LEN
    }

    /// Every header that exists is well formed.
    #[verifier::type_invariant]
    spec fn inv(&self) -> bool {
        self.wf()
    }

    /// Lays a header over `buffer`, which must hold exactly 20 bytes.
    pub fn new(buffer: B) -> (r: Result<FSegHeader<B>, DecodeError>)
        ensures
            buffer.bytes().len() == FSEG_HEADER_LEN ==> r is Ok && r.unwrap()@ == buffer.bytes()
                && r.unwrap().wf(),
            buffer.bytes().len() != FSEG_HEADER_LEN ==> r == Err::<FSegHeader<B>, DecodeError>(
                DecodeError::MalformedLength,
            ),
    {
        if buffer.as_slice().len() != FSEG_HEADER_LEN {
            Err(DecodeError::MalformedLength)
        } else {
            Ok(Self { buffer })
        }
    }

    /// The id of the space that holds the segment of the leaves.
    pub fn leaf_space_id(&self) -> (r: u32)
        ensures
            r == be_u32(self@.subrange(0, 4)),
    {
        proof {
            use_type_invariant(self);
        }
        read_be_u32(self.buffer.as_slice(), 0)
    }

    /// Where the inode of the segment of the leaves lies.
    pub fn leaf_pointer(&self) -> (r: FilePointer)
        ensures
            r == file_pointer_of(self@.subrange(4, 10)),
    {
        proof {
            use_type_invariant(self);
        }
        FilePointer::new(sub_slice(self.buffer.as_slice(), 4, 10))
    }

    /// The id of the space that holds the segment of the inner nodes.
    pub fn internal_space_id(&self) -> (r: u32)
        ensures
            r == be_u32(self@.subrange(10, 14)),
    {
        proof {
            use_type_invariant(self);
        }
        read_be_u32(self.buffer.as_slice(), 10)
    }

    /// Where the inode of the segment of the inner nodes lies.
    pub fn internal_pointer(&self) -> (r: FilePointer)
        ensures
            r == file_pointer_of(self@.subrange(14, 20)),
    {
        proof {
            use_type_invariant(self);
        }
        FilePointer::new(sub_slice(self.buffer.as_slice(), 14, 20))
    }
}

} // verus!

use crate::buffer::{
    be_u16, be_u32, be_u64, bytes_len, bytes_seq, bytes_slice, read_be_u16, read_be_u32,
    read_be_u64, sub_slice, ByteBuf,
};
use crate::error::DecodeError;
use crate::file_header::page_type::{page_type_of, PageType};
use crate::file_header::{FileHeader, FILE_HEADER_LEN};
use crate::page::base_page::{
    base_index_page_error, base_page_error, header_of, payload_of, BasePage, InternalIndexPage,
    InternalPage, UnKnowPage,
};
use crate::page::hdr_page::page::FspHdrPage;
use crate::page::index_page::page::IndexPage;
use crate::page::inode_page::InodePage;
use crate::page::sdi_blob_page::SdiBlobPage;
use crate::page::sdi_page::SdiPage;
use crate::tablespace::table::{Index, TableInfo};
use bytes::Bytes;
use vstd::prelude::*;

pub mod base_page;
pub mod hdr_page;
pub mod index_page;
pub mod inode_page;
pub mod sdi_blob_page;
pub mod sdi_page;

verus! {

/// The page number that stands for "no page".
pub const NO_PAGE: u32 = 0xFFFF_FFFF;

/// A position inside the tablespace: a page and a byte offset in it.
#[derive(Debug, Copy, Clone, PartialEq, Eq, Structural)]
pub struct FilePointer {
    /// Number of the page within the space.
    pub page_num: u32,
    /// Byte offset within the page.
    pub offset: u16,
}

/// The file pointer that the first six bytes of `s` spell.
pub open spec fn file_pointer_of(s: Seq<u8>) -> FilePointer
    recommends
        s.len() >= 6,
{
    FilePointer { page_num: be_u32(s.subrange(0, 4)), offset: be_u16(s.subrange(4, 6)) }
}

impl FilePointer {
    /// Reads a file pointer from the first six bytes of `buffer`.
    pub fn new(buffer: &[u8]) -> (r: FilePointer)
        requires
            buffer@.len() >= 6,
        ensures
            r == file_pointer_of(buffer@),
    {
        let page_num = read_be_u32(buffer, 0);
        let offset = read_be_u16(buffer, 4);
        Self { page_num, offset }
    }

    /// Whether this is the null pointer, `(0xFFFFFFFF, 0)`.
    pub fn is_null(&self) -> (r: bool)
        ensures
            r == (self.page_num == NO_PAGE && self.offset == 0),
    {
        self.page_num == NO_PAGE && self.offset == 0
    }
}

/// The links of one node of an on-disk list: 6 bytes for the previous node
/// and 6 for the next.
#[derive(Debug, Copy, Clone, PartialEq, Eq, Structural)]
pub struct ListNode {
    pub prev: FilePointer,
    pub next: FilePointer,
}

/// The list node that the first twelve bytes of `s` spell.
pub open spec fn list_node_of(s: Seq<u8>) -> ListNode
    recommends
        s.len() >= 12,
{
    ListNode { prev: file_pointer_of(s.subrange(0, 6)), next: file_pointer_of(s.subrange(6, 12)) }
}

impl ListNode {
    /// Reads a list node from the first twelve bytes of `buffer`.
    pub fn new(buffer: &[u8]) -> (r: ListNode)
        requires
            buffer@.len() >= 12,
        ensures
            r == list_node_of(buffer@),
    {
        let prev = FilePointer::new(sub_slice(buffer, 0, 6));
        let next = FilePointer::new(sub_slice(buffer, 6, 12));
        Self { prev, next }
    }
}

/// The head of an on-disk list: its length (4 bytes) and pointers to its
/// first and last node (6 bytes each).
#[derive(Debug, Copy, Clone, PartialEq, Eq, Structural)]
pub struct ListBaseNode {
    pub len: u32,
    pub first: FilePointer,
    pub last: FilePointer,
}

/// The list head that the first sixteen bytes of `s` spell.
pub open spec fn list_base_node_of(s: Seq<u8>) -> ListBaseNode
    recommends
        s.len() >= 16,
{
    ListBaseNode {
        len: be_u32(s.subrange(0, 4)),
        first: file_pointer_of(s.subrange(4, 10)),
        last: file_pointer_of(s.subrange(10, 16)),
    }
}

impl ListBaseNode {
    /// Reads a list head from the first sixteen bytes of `buffer`.
    pub fn new(buffer: &[u8]) -> (r: ListBaseNode)
        requires
            buffer@.len() >= 16,
        ensures
            r == list_base_node_of(buffer@),
    {
        let len = read_be_u32(buffer, 0);
        let first = FilePointer::new(sub_slice(buffer, 4, 10));
        let last = FilePointer::new(sub_slice(buffer, 10, 16));
        Self { len, first, last }
    }
}

/// The number of bytes of an overflow pointer.
pub const OVERFLOW_POINTER_LEN: usize = 20;

/// The 20 bytes at the end of an overflowed column that say where the rest
/// of the value is stored.
#[derive(Debug)]
pub struct OverflowPointer<B> {
    pub buf: B,
}

impl<B: ByteBuf> OverflowPointer<B> {
    /// The pointer lies over exactly 20 bytes.
    pub open spec fn wf(&self) -> bool {
        self.buf.bytes().len() == OVERFLOW_POINTER_LEN
    }

    /// Lays an overflow pointer over `buf`. The fields can be read where
    /// `buf` holds exactly 20 bytes.
    pub fn new(buf: B) -> (r: OverflowPointer<B>)
        ensures
            r.buf == buf,
    {
        Self { buf }
    }

    /// The id of the space that holds the rest of the value.
    pub fn space_id(&self) -> (r: u32)
        requires
            self.wf(),
        ensures
            r == be_u32(self.buf.bytes().subrange(0, 4)),
    {
        read_be_u32(self.buf.as_slice(), 0)
    }

    /// The first page of the chain that holds the rest of the value.
    pub fn page_num(&self) -> (r: u32)
        requires
            self.wf(),
        ensures
            r == be_u32(self.buf.bytes().subrange(4, 8)),
    {
        read_be_u32(self.buf.as_slice(), 4)
    }

    /// Four bytes of no known meaning.
    pub fn un_know(&self) -> (r: u32)
        requires
            self.wf(),
        ensures
            r == be_u32(self.buf.bytes().subrange(8, 12)),
    {
        read_be_u32(self.buf.as_slice(), 8)
    }

    /// The number of bytes stored outside the record.
    pub fn len(&self) -> (r: u64)
        requires
            self.wf(),
        ensures
            r == be_u64(self.buf.bytes().subrange(12, 20)),
    {
        read_be_u64(self.buf.as_slice(), 12)
    }
}

/// A page, decoded according to its type.
pub enum PageEnums {
    Index(BasePage<IndexPage>),
    FspHdr(BasePage<FspHdrPage>),
    XDex(BasePage<FspHdrPage>),
    Inode(BasePage<InodePage>),
    Sdi(BasePage<SdiPage>),
    SdiBlob(BasePage<SdiBlobPage>),
    Undefine(BasePage<UnKnowPage>),
}

impl PageEnums {
    /// The bytes of the page.
    pub open spec fn bytes(&self) -> Seq<u8> {
        match *self {
            PageEnums::Index(page) => bytes_seq(page.buf),
            PageEnums::FspHdr(page) => bytes_seq(page.buf),
            PageEnums::XDex(page) => bytes_seq(page.buf),
            PageEnums::Inode(page) => bytes_seq(page.buf),
            PageEnums::Sdi(page) => bytes_seq(page.buf),
            PageEnums::SdiBlob(page) => bytes_seq(page.buf),
            PageEnums::Undefine(page) => bytes_seq(page.buf),
        }
    }

    /// The header and the trailer are those of the bytes of the page.
    pub open spec fn framed(&self) -> bool {
        match *self {
            PageEnums::Index(page) => page.framed(),
            PageEnums::FspHdr(page) => page.framed(),
            PageEnums::XDex(page) => page.framed(),
            PageEnums::Inode(page) => page.framed(),
            PageEnums::Sdi(page) => page.framed(),
            PageEnums::SdiBlob(page) => page.framed(),
            PageEnums::Undefine(page) => page.framed(),
        }
    }

    /// The file header of the page.
    pub open spec fn header(&self) -> Seq<u8> {
        match *self {
            PageEnums::Index(page) => page.fil_header@,
            PageEnums::FspHdr(page) => page.fil_header@,
            PageEnums::XDex(page) => page.fil_header@,
            PageEnums::Inode(page) => page.fil_header@,
            PageEnums::Sdi(page) => page.fil_header@,
            PageEnums::SdiBlob(page) => page.fil_header@,
            PageEnums::Undefine(page) => page.fil_header@,
        }
    }

    /// The type of the page, as its file header names it.
    pub fn page_type(&self) -> (r: PageType)
        ensures
            r == page_type_of(be_u16(self.header().subrange(24, 26))),
            self.framed() ==> r == page_kind(self.bytes()),
    {
        match self {
            PageEnums::Index(page) => page.fil_header.page_type(),
            PageEnums::FspHdr(page) => page.fil_header.page_type(),
            PageEnums::XDex(page) => page.fil_header.page_type(),
            PageEnums::Inode(page) => page.fil_header.page_type(),
            PageEnums::Sdi(page) => page.fil_header.page_type(),
            PageEnums::SdiBlob(page) => page.fil_header.page_type(),
            PageEnums::Undefine(page) => page.fil_header.page_type(),
        }
    }
}

/// The type that the file header of a page names.
pub open spec fn page_kind(page: Seq<u8>) -> PageType {
    page_type_of(be_u16(header_of(page).subrange(24, 26)))
}

/// Why the bytes of a page of a table with the indexes `indexes` cannot be
/// decoded, if they cannot: they have no room for the file header, or they
/// cannot be decoded as a page of the type that the header names.
pub open spec fn page_error(page: Seq<u8>, indexes: Map<u64, Index>) -> Option<DecodeError> {
    if page.len() < FILE_HEADER_LEN {
        Some(DecodeError::MalformedLength)
    } else {
        match page_kind(page) {
            PageType::FilPageTypeFspHdr => base_page_error::<FspHdrPage>(page),
            PageType::FilPageTypeXdes => base_page_error::<FspHdrPage>(page),
            PageType::FilPageIndex => base_index_page_error::<IndexPage>(page, indexes),
            PageType::FilPageInode => base_page_error::<InodePage>(page),
            PageType::FilPageSdi => base_page_error::<SdiPage>(page),
            _ => base_page_error::<UnKnowPage>(page),
        }
    }
}

/// Whether `decoded` is what the bytes `page` hold, for a table with the
/// indexes `indexes`: file space headers and extent descriptor pages are
/// read alike, index pages by the index they name, pages of the dictionary
/// information by its fixed description, inode pages as such, and pages of
/// every other type are not read any further.
pub open spec fn page_decodes(decoded: PageEnums, page: Seq<u8>, indexes: Map<u64, Index>) -> bool {
    let payload = payload_of(page);
    let header = header_of(page);
    &&& decoded.bytes() == page
    &&& decoded.framed()
    &&& match page_kind(page) {
        PageType::FilPageTypeFspHdr | PageType::FilPageTypeXdes => decoded matches PageEnums::FspHdr(
            base,
        ) && base.page.decodes(payload, header),
        PageType::FilPageIndex => decoded matches PageEnums::Index(base) && InternalIndexPage::decodes(
            &base.page,
            payload,
            indexes,
        ),
        PageType::FilPageInode => decoded matches PageEnums::Inode(base) && base.page.decodes(
            payload,
            header,
        ),
        PageType::FilPageSdi => decoded matches PageEnums::Sdi(base) && base.page.decodes(
            payload,
            header,
        ),
        _ => decoded is Undefine,
    }
}

/// Decodes the bytes of a page of the table that `table_info` describes,
/// according to the page type in its file header.
pub fn page(buf: Bytes, table_info: &TableInfo) -> (r: Result<PageEnums, DecodeError>)
    ensures
        match r {
            Ok(decoded) => page_error(bytes_seq(buf), table_info.indexes@) is None && page_decodes(
                decoded,
                bytes_seq(buf),
                table_info.indexes@,
            ),
            Err(e) => page_error(bytes_seq(buf), table_info.indexes@) == Some(e),
        },
{
    if bytes_len(&buf) < FILE_HEADER_LEN {
        return Err(DecodeError::MalformedLength);
    }
    let fil = FileHeader::new(bytes_slice(&buf, 0, FILE_HEADER_LEN)).unwrap();
    match fil.page_type() {
        PageType::FilPageTypeFspHdr => match BasePage::<FspHdrPage>::new(buf) {
            Ok(base) => Ok(PageEnums::FspHdr(base)),
            Err(e) => Err(e),
        },
        PageType::FilPageTypeXdes => match BasePage::<FspHdrPage>::new(buf) {
            Ok(base) => Ok(PageEnums::FspHdr(base)),
            Err(e) => Err(e),
        },
        PageType::FilPageIndex => match BasePage::<IndexPage>::new_index(buf, table_info) {
            Ok(base) => Ok(PageEnums::Index(base)),
            Err(e) => Err(e),
        },
        PageType::FilPageInode => match BasePage::<InodePage>::new(buf) {
            Ok(base) => Ok(PageEnums::Inode(base)),
            Err(e) => Err(e),
        },
        PageType::FilPageSdi => match BasePage::<SdiPage>::new(buf) {
            Ok(base) => Ok(PageEnums::Sdi(base)),
            Err(e) => Err(e),
        },
        _ => match BasePage::<UnKnowPage>::new(buf) {
            Ok(base) => Ok(PageEnums::Undefine(base)),
            Err(e) => Err(e),
        },
    }
}

} // verus!

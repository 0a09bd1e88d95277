use crate::buffer::{bytes_len, bytes_seq, bytes_slice};
use crate::error::DecodeError;
use crate::file_header::{FileHeader, FILE_HEADER_LEN};
use crate::file_trailer::{FileTrailer, FILE_TRAILER_LEN};
use crate::tablespace::table::{Index, TableInfo};
use bytes::Bytes;
use vstd::prelude::*;

verus! {

/// A page: its bytes, the header and the trailer that every page has, and
/// what lies between them, decoded.
pub struct BasePage<P> {
    pub buf: Bytes,
    pub fil_header: FileHeader<Bytes>,
    pub page: P,
    pub fil_trailer: FileTrailer<Bytes>,
}

/// A page of a type that is not decoded any further.
pub struct UnKnowPage;

/// What lies between the header and the trailer of a page of one type.
pub trait InternalPage: Sized {
    /// Why the payload `buf` of a page with the file header `header` cannot
    /// be decoded, if it cannot.
    spec fn payload_error(buf: Seq<u8>, header: Seq<u8>) -> Option<DecodeError>;

    /// Whether this is what the payload `buf` of a page with the file
    /// header `header` holds.
    spec fn decodes(&self, buf: Seq<u8>, header: Seq<u8>) -> bool;

    /// Decodes the payload `buf` of the page with the header `fil_header`.
    fn new(buf: Bytes, fil_header: &FileHeader<Bytes>) -> (r: Result<Self, DecodeError>)
        ensures
            match r {
                Ok(page) => Self::payload_error(bytes_seq(buf), fil_header@) is None
                    && page.decodes(bytes_seq(buf), fil_header@),
                Err(e) => Self::payload_error(bytes_seq(buf), fil_header@) == Some(e),
            },
    ;
}

/// What lies between the header and the trailer of a page whose records
/// are read by the description of a table.
pub trait InternalIndexPage: Sized {
    /// Why the payload `buf` cannot be decoded with the indexes `indexes`,
    /// if it cannot.
    spec fn payload_error(buf: Seq<u8>, indexes: Map<u64, Index>) -> Option<DecodeError>;

    /// Whether this is what the payload `buf` holds, read with the indexes
    /// `indexes`.
    spec fn decodes(&self, buf: Seq<u8>, indexes: Map<u64, Index>) -> bool;

    /// Decodes the payload `buf` of the page with the header `fil_header`,
    /// with the description `table_info` of the table.
    fn new(buf: Bytes, fil_header: &FileHeader<Bytes>, table_info: &TableInfo) -> (r: Result<
        Self,
        DecodeError,
    >)
        ensures
            match r {
                Ok(page) => Self::payload_error(bytes_seq(buf), table_info.indexes@) is None
                    && page.decodes(bytes_seq(buf), table_info.indexes@),
                Err(e) => Self::payload_error(bytes_seq(buf), table_info.indexes@) == Some(e),
            },
    ;
}

impl InternalPage for UnKnowPage {
    open spec fn payload_error(buf: Seq<u8>, header: Seq<u8>) -> Option<DecodeError> {
        None
    }

    open spec fn decodes(&self, buf: Seq<u8>, header: Seq<u8>) -> bool {
        true
    }

    fn new(buf: Bytes, fil_header: &FileHeader<Bytes>) -> (r: Result<Self, DecodeError>) {
        Ok(UnKnowPage)
    }
}

/// The number of bytes that the header and the trailer of a page take.
pub const PAGE_FRAME_LEN: usize = 46;

/// The file header of a page.
pub open spec fn header_of(page: Seq<u8>) -> Seq<u8> {
    page.subrange(0, FILE_HEADER_LEN as int)
}

/// What lies between the header and the trailer of a page.
pub open spec fn payload_of(page: Seq<u8>) -> Seq<u8> {
    page.subrange(FILE_HEADER_LEN as int, page.len() - FILE_TRAILER_LEN)
}

/// The file trailer of a page.
pub open spec fn trailer_of(page: Seq<u8>) -> Seq<u8> {
    page.subrange(page.len() - FILE_TRAILER_LEN, page.len() as int)
}

impl<P> BasePage<P> {
    /// The header and the trailer are those of the bytes of the page.
    pub open spec fn framed(&self) -> bool {
        &&& bytes_seq(self.buf).len() >= PAGE_FRAME_LEN
        &&& self.fil_header.wf()
        &&& self.fil_header@ == header_of(bytes_seq(self.buf))
        &&& self.fil_trailer.wf()
        &&& self.fil_trailer@ == trailer_of(bytes_seq(self.buf))
    }

    /// The page of the bytes `buf`, with `page` for what lies between the
    /// header and the trailer. `buf` must have room for the two.
    pub fn new0(buf: Bytes, page: P) -> (r: Result<BasePage<P>, DecodeError>)
        ensures
            match r {
                Ok(base) => bytes_seq(buf).len() >= PAGE_FRAME_LEN && base.buf == buf && base.page
                    == page && base.framed(),
                Err(e) => bytes_seq(buf).len() < PAGE_FRAME_LEN && e == DecodeError::MalformedLength,
            },
    {
        let len = bytes_len(&buf);
        if len < PAGE_FRAME_LEN {
            return Err(DecodeError::MalformedLength);
        }
        let fil_header = FileHeader::new(bytes_slice(&buf, 0, FILE_HEADER_LEN)).unwrap();
        let fil_trailer = FileTrailer::new(bytes_slice(&buf, len - FILE_TRAILER_LEN, len)).unwrap();
        Ok(Self { buf, fil_header, page, fil_trailer })
    }
}

/// Why the bytes of a page cannot be decoded as a page of the type `P`, if
/// they cannot: there is no room for the header and the trailer, or the
/// payload cannot be decoded.
pub open spec fn base_page_error<P: InternalPage>(page: Seq<u8>) -> Option<DecodeError> {
    if page.len() < PAGE_FRAME_LEN {
        Some(DecodeError::MalformedLength)
    } else {
        P::payload_error(payload_of(page), header_of(page))
    }
}

/// Why the bytes of a page cannot be decoded as a page of the type `P` of a
/// table with the indexes `indexes`, if they cannot.
pub open spec fn base_index_page_error<P: InternalIndexPage>(
    page: Seq<u8>,
    indexes: Map<u64, Index>,
) -> Option<DecodeError> {
    if page.len() < PAGE_FRAME_LEN {
        Some(DecodeError::MalformedLength)
    } else {
        P::payload_error(payload_of(page), indexes)
    }
}

impl<P: InternalPage> BasePage<P> {
    /// Decodes the bytes of a page.
    pub fn new(buf: Bytes) -> (r: Result<BasePage<P>, DecodeError>)
        ensures
            match r {
                Ok(base) => {
                    &&& base_page_error::<P>(bytes_seq(buf)) is None
                    &&& base.buf == buf
                    &&& base.framed()
                    &&& base.page.decodes(payload_of(bytes_seq(buf)), header_of(bytes_seq(buf)))
                },
                Err(e) => base_page_error::<P>(bytes_seq(buf)) == Some(e),
            },
    {
        let len = bytes_len(&buf);
        if len < PAGE_FRAME_LEN {
            return Err(DecodeError::MalformedLength);
        }
        let fil_header = FileHeader::new(bytes_slice(&buf, 0, FILE_HEADER_LEN)).unwrap();
        let page = match P::new(bytes_slice(&buf, FILE_HEADER_LEN, len - FILE_TRAILER_LEN), &fil_header) {
            Ok(page) => page,
            Err(e) => {
                return Err(e);
            },
        };
        let fil_trailer = FileTrailer::new(bytes_slice(&buf, len - FILE_TRAILER_LEN, len)).unwrap();
        Ok(Self { buf, fil_header, page, fil_trailer })
    }
}

impl<P: InternalIndexPage> BasePage<P> {
    /// Decodes the bytes of a page of an index of the table that
    /// `table_info` describes.
    pub fn new_index(buf: Bytes, table_info: &TableInfo) -> (r: Result<BasePage<P>, DecodeError>)
        ensures
            match r {
                Ok(base) => {
                    &&& base_index_page_error::<P>(bytes_seq(buf), table_info.indexes@) is None
                    &&& base.buf == buf
                    &&& base.framed()
                    &&& base.page.decodes(payload_of(bytes_seq(buf)), table_info.indexes@)
                },
                Err(e) => base_index_page_error::<P>(bytes_seq(buf), table_info.indexes@) == Some(
                    e,
                ),
            },
    {
        let len = bytes_len(&buf);
        if len < PAGE_FRAME_LEN {
            return Err(DecodeError::MalformedLength);
        }
        let fil_header = FileHeader::new(bytes_slice(&buf, 0, FILE_HEADER_LEN)).unwrap();
        let page = match P::new(
            bytes_slice(&buf, FILE_HEADER_LEN, len - FILE_TRAILER_LEN),
            &fil_header,
            table_info,
        ) {
            Ok(page) => page,
            Err(e) => {
                return Err(e);
            },
        };
        let fil_trailer = FileTrailer::new(bytes_slice(&buf, len - FILE_TRAILER_LEN, len)).unwrap();
        Ok(Self { buf, fil_header, page, fil_trailer })
    }
}

} // verus!

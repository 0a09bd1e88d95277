use crate::buffer::{be_u32, bytes_get_u32, bytes_len, bytes_seq, bytes_slice};
use crate::error::DecodeError;
use crate::file_header::FileHeader;
use crate::page::base_page::InternalPage;
use bytes::Bytes;
use vstd::prelude::*;

verus! {

/// The number of bytes in front of the data of a part of a value.
pub const SDI_BLOB_HEADER_LEN: usize = 8;

/// The payload of a page that holds one part of a value of the dictionary
/// information that does not fit into its record: the number of bytes of
/// the part, the page with the next part (`0xFFFFFFFF` on the last), and
/// the bytes of the part.
pub struct SdiBlobPage {
    pub part_len: u32,
    pub next_page_num: u32,
    pub data: Bytes,
}

/// The number of bytes of the part that a payload holds.
pub open spec fn blob_part_len(buf: Seq<u8>) -> u32 {
    be_u32(buf.subrange(0, 4))
}

/// The page with the next part that a payload names.
pub open spec fn blob_next_page(buf: Seq<u8>) -> u32 {
    be_u32(buf.subrange(4, 8))
}

/// The bytes of the part that a payload holds.
pub open spec fn blob_data(buf: Seq<u8>) -> Seq<u8> {
    buf.subrange(SDI_BLOB_HEADER_LEN as int, SDI_BLOB_HEADER_LEN + blob_part_len(buf))
}

/// Why a payload cannot be decoded as a part of a value, if it cannot: it
/// has no room for the two numbers, or for as many bytes as the part is
/// said to have.
pub open spec fn blob_page_error(buf: Seq<u8>) -> Option<DecodeError> {
    if buf.len() < SDI_BLOB_HEADER_LEN || SDI_BLOB_HEADER_LEN + blob_part_len(buf) > buf.len() {
        Some(DecodeError::MalformedLength)
    } else {
        None
    }
}

impl InternalPage for SdiBlobPage {
    open spec fn payload_error(buf: Seq<u8>, header: Seq<u8>) -> Option<DecodeError> {
        blob_page_error(buf)
    }

    open spec fn decodes(&self, buf: Seq<u8>, header: Seq<u8>) -> bool {
        &&& self.part_len == blob_part_len(buf)
        &&& self.next_page_num == blob_next_page(buf)
        &&& bytes_seq(self.data) == blob_data(buf)
    }

    fn new(buf: Bytes, fil_header: &FileHeader<Bytes>) -> (r: Result<Self, DecodeError>) {
        let len = bytes_len(&buf);
        if len < SDI_BLOB_HEADER_LEN {
            return Err(DecodeError::MalformedLength);
        }
        let mut first = bytes_slice(&buf, 0, 4);
        let mut second = bytes_slice(&buf, 4, 8);
        proof {
            assert(bytes_seq(first).subrange(0, 4) =~= bytes_seq(first));
            assert(bytes_seq(second).subrange(0, 4) =~= bytes_seq(second));
        }
        let part_len = bytes_get_u32(&mut first);
        let next_page_num = bytes_get_u32(&mut second);
        if part_len as usize > len - SDI_BLOB_HEADER_LEN {
            return Err(DecodeError::MalformedLength);
        }
        let data = bytes_slice(&buf, SDI_BLOB_HEADER_LEN, SDI_BLOB_HEADER_LEN + part_len as usize);
        Ok(Self { part_len, next_page_num, data })
    }
}

} // verus!

use crate::buffer::{bytes_len, bytes_seq, bytes_slice};
use crate::error::DecodeError;
use crate::file_header::FileHeader;
use crate::page::base_page::InternalPage;
use crate::page::hdr_page::header::{HdrFspHeader, FSP_HEADER_LEN};
use crate::page::hdr_page::x_des_entry::{XDesEntry, XDES_ENTRY_LEN};
use crate::page::list_base_node_of;
use bytes::Bytes;
use vstd::prelude::*;

verus! {

/// The payload of the page that describes the file space and its first
/// extents: the header of the space and the extent descriptors in use.
pub struct FspHdrPage {
    pub fsp_header: HdrFspHeader<Bytes>,
    pub entry_list: Vec<XDesEntry<Bytes>>,
}

/// The number of extent descriptors of a payload that are read: the
/// lengths of the five lists of the header of the space, added up.
pub open spec fn fsp_entry_count(buf: Seq<u8>) -> int {
    let header = buf.subrange(0, FSP_HEADER_LEN as int);
    list_base_node_of(header.subrange(24, 40)).len + list_base_node_of(
        header.subrange(40, 56),
    ).len + list_base_node_of(header.subrange(56, 72)).len + list_base_node_of(
        header.subrange(96, 112),
    ).len + list_base_node_of(header.subrange(80, 96)).len
}

/// The bytes of extent descriptor `i` of a payload.
pub open spec fn fsp_entry_bytes(buf: Seq<u8>, i: int) -> Seq<u8> {
    buf.subrange(FSP_HEADER_LEN + XDES_ENTRY_LEN * i, FSP_HEADER_LEN + XDES_ENTRY_LEN * (i + 1))
}

/// Why a payload cannot be decoded as the description of a file space, if
/// it cannot: it has no room for the header, or for the extent descriptors
/// that the header counts.
pub open spec fn fsp_page_error(buf: Seq<u8>) -> Option<DecodeError> {
    if buf.len() < FSP_HEADER_LEN || FSP_HEADER_LEN + XDES_ENTRY_LEN * fsp_entry_count(buf)
        > buf.len() {
        Some(DecodeError::MalformedLength)
    } else {
        None
    }
}

impl InternalPage for FspHdrPage {
    open spec fn payload_error(buf: Seq<u8>, header: Seq<u8>) -> Option<DecodeError> {
        fsp_page_error(buf)
    }

    open spec fn decodes(&self, buf: Seq<u8>, header: Seq<u8>) -> bool {
        &&& self.fsp_header.wf()
        &&& self.fsp_header@ == buf.subrange(0, FSP_HEADER_LEN as int)
        &&& self.entry_list@.len() == fsp_entry_count(buf)
        &&& forall|i: int|
            0 <= i < self.entry_list@.len() ==> (#[trigger] self.entry_list@[i]).wf()
                && self.entry_list@[i]@ == fsp_entry_bytes(buf, i)
    }

    fn new(buf: Bytes, fil_header: &FileHeader<Bytes>) -> (r: Result<Self, DecodeError>) {
        let ghost bytes = bytes_seq(buf);
        let len = bytes_len(&buf);
        if len < FSP_HEADER_LEN {
            return Err(DecodeError::MalformedLength);
        }
        let fsp_header = HdrFspHeader::new(bytes_slice(&buf, 0, FSP_HEADER_LEN)).unwrap();
        let count: u64 = fsp_header.free().len as u64 + fsp_header.free_frag().len as u64
            + fsp_header.full_frag().len as u64 + fsp_header.seg_inodes_free().len as u64
            + fsp_header.seg_inodes_full().len as u64;
        assert(count == fsp_entry_count(bytes));
        let room: usize = (len - FSP_HEADER_LEN) / XDES_ENTRY_LEN;
        if count > room as u64 {
            return Err(DecodeError::MalformedLength);
        }
        let count: usize = count as usize;
        let mut entry_list: Vec<XDesEntry<Bytes>> = Vec::new();
        let mut offset: usize = 0;
        while offset < count
            invariant
                offset <= count,
                bytes == bytes_seq(buf),
                len == bytes.len(),
                FSP_HEADER_LEN + XDES_ENTRY_LEN * count <= len,
                entry_list@.len() == offset,
                forall|i: int|
                    0 <= i < offset ==> (#[trigger] entry_list@[i]).wf() && entry_list@[i]@
                        == fsp_entry_bytes(bytes, i),
            decreases count - offset,
        {
            let start: usize = FSP_HEADER_LEN + offset * XDES_ENTRY_LEN;
            let end: usize = start + XDES_ENTRY_LEN;
            entry_list.push(XDesEntry::new(bytes_slice(&buf, start, end)).unwrap());
            offset += 1;
        }
        Ok(Self { fsp_header, entry_list })
    }
}

} // verus!

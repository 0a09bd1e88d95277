use crate::buffer::{bytes_as_slice, bytes_len, bytes_seq, bytes_slice, sub_slice};
use crate::error::DecodeError;
use crate::file_header::FileHeader;
use crate::page::base_page::InternalPage;
use crate::page::inode_page::inode_entry::{InodeEntry, INODE_ENTRY_LEN};
use crate::page::{list_node_of, ListNode};
use bytes::Bytes;
use vstd::prelude::*;

pub mod inode_entry;

verus! {

/// The number of inode entries of an inode page.
pub const INODES_PER_PAGE: usize = 85;

/// The number of bytes of the list node that an inode page starts with.
pub const INODE_LIST_NODE_LEN: usize = 12;

/// Where the inode entries of an inode page end.
pub const INODES_END: usize = 16332;

/// The payload of an inode page: the links of the list of inode pages, 85
/// inode entries, and bytes that are not used.
pub struct InodePage {
    pub list_node: ListNode,
    pub inode_list: Vec<InodeEntry<Bytes>>,
    pub empty_space: Bytes,
}

/// The bytes of inode entry `i` of a payload.
pub open spec fn inode_entry_bytes(buf: Seq<u8>, i: int) -> Seq<u8> {
    buf.subrange(
        INODE_LIST_NODE_LEN + INODE_ENTRY_LEN * i,
        INODE_LIST_NODE_LEN + INODE_ENTRY_LEN * (i + 1),
    )
}

impl InternalPage for InodePage {
    open spec fn payload_error(buf: Seq<u8>, header: Seq<u8>) -> Option<DecodeError> {
        if buf.len() < INODES_END {
            Some(DecodeError::MalformedLength)
        } else {
            None
        }
    }

    open spec fn decodes(&self, buf: Seq<u8>, header: Seq<u8>) -> bool {
        &&& self.list_node == list_node_of(buf.subrange(0, INODE_LIST_NODE_LEN as int))
        &&& self.inode_list@.len() == INODES_PER_PAGE
        &&& forall|i: int|
            0 <= i < INODES_PER_PAGE ==> (#[trigger] self.inode_list@[i]).wf()
                && self.inode_list@[i]@ == inode_entry_bytes(buf, i)
        &&& bytes_seq(self.empty_space) == buf.subrange(INODES_END as int, buf.len() as int)
    }

    fn new(buf: Bytes, fil_header: &FileHeader<Bytes>) -> (r: Result<Self, DecodeError>) {
        let ghost bytes = bytes_seq(buf);
        let len = bytes_len(&buf);
        if len < INODES_END {
            return Err(DecodeError::MalformedLength);
        }
        let list_node = ListNode::new(sub_slice(bytes_as_slice(&buf), 0, INODE_LIST_NODE_LEN));
        let mut inode_list: Vec<InodeEntry<Bytes>> = Vec::with_capacity(INODES_PER_PAGE);
        let mut end: usize = INODE_LIST_NODE_LEN;
        let mut index: usize = 0;
        while index < INODES_PER_PAGE
            invariant
                index <= INODES_PER_PAGE,
                bytes == bytes_seq(buf),
                len == bytes.len(),
                len >= INODES_END,
                end == INODE_LIST_NODE_LEN + INODE_ENTRY_LEN * index,
                inode_list@.len() == index,
                forall|i: int|
                    0 <= i < index ==> (#[trigger] inode_list@[i]).wf() && inode_list@[i]@
                        == inode_entry_bytes(bytes, i),
            decreases INODES_PER_PAGE - index,
        {
            let start: usize = INODE_LIST_NODE_LEN + INODE_ENTRY_LEN * index;
            end = start + INODE_ENTRY_LEN;
            let entry = InodeEntry::new(bytes_slice(&buf, start, end)).unwrap();
            inode_list.push(entry);
            index += 1;
        }
        let empty_space = bytes_slice(&buf, end, len);
        Ok(Self { list_node, inode_list, empty_space })
    }
}

} // verus!

use crate::buffer::be_u32;
use crate::error::DecodeError;
use crate::file_header::FileHeader;
use crate::page::base_page::InternalPage;
use crate::page::index_page::page::{index_page_error, IndexPage};
use crate::page::index_page::records::new::layout::{shapes, ColShape};
use crate::tablespace::data_type::DataType;
use crate::tablespace::table::{
    is_sdi_elements, is_sdi_indexes, sdi_index, Column, Index, SDI_INDEX_ID,
};
use bytes::Bytes;
use vstd::prelude::*;

verus! {

/// The payload of a page of the index that holds the dictionary
/// information: an index page whose records are read by the fixed
/// description of that index.
pub struct SdiPage {
    pub original: IndexPage,
}

/// A column that cannot be null.
pub open spec fn required(data_type: DataType) -> ColShape {
    ColShape { data_type, is_nullable: false }
}

/// The columns of the records on the leaves of the index of the dictionary
/// information: the kind and the id of the entry, the transaction id and
/// the roll pointer, the lengths of the value unpacked and packed, and the
/// packed value.
pub open spec fn sdi_leaf_shapes() -> Seq<ColShape> {
    seq![
        required(DataType::Int),
        required(DataType::Bigint),
        required(DataType::DbTrxId),
        required(DataType::DbRollPtr),
        required(DataType::Int),
        required(DataType::Int),
        required(DataType::Varchar),
    ]
}

/// The columns of the records on the inner pages of the index of the
/// dictionary information: the kind and the id of the entry, and the
/// number of the child page.
pub open spec fn sdi_inner_shapes() -> Seq<ColShape> {
    seq![required(DataType::Int), required(DataType::Bigint), required(DataType::Int)]
}

/// Whether `index` is the fixed description of the index of the dictionary
/// information, for a tree that starts at `root_page_num`.
pub open spec fn is_sdi_index(index: Index, root_page_num: u32) -> bool {
    &&& index.index_id == SDI_INDEX_ID
    &&& index.root_page_num == root_page_num
    &&& index.name@ == "sdi_index"@
    &&& index.is_primary
    &&& is_sdi_indexes(index.indexes@)
    &&& is_sdi_elements(index.elements@)
}

/// The fixed description of the index of the dictionary information has
/// the fixed shapes.
pub proof fn lemma_sdi_shapes(indexes: Seq<Column>, elements: Seq<Column>)
    requires
        is_sdi_indexes(indexes),
        is_sdi_elements(elements),
    ensures
        shapes(indexes) == sdi_inner_shapes(),
        shapes(elements) == sdi_leaf_shapes(),
{
    assert(shapes(indexes) =~= sdi_inner_shapes());
    assert(shapes(elements) =~= sdi_leaf_shapes());
}

impl InternalPage for SdiPage {
    open spec fn payload_error(buf: Seq<u8>, header: Seq<u8>) -> Option<DecodeError> {
        index_page_error(buf, sdi_inner_shapes(), sdi_leaf_shapes())
    }

    open spec fn decodes(&self, buf: Seq<u8>, header: Seq<u8>) -> bool {
        &&& is_sdi_index(self.original.index, be_u32(header.subrange(4, 8)))
        &&& self.original.decodes_payload(buf)
    }

    fn new(buf: Bytes, fil_header: &FileHeader<Bytes>) -> (r: Result<Self, DecodeError>) {
        let index = sdi_index(fil_header.offset());
        proof {
            lemma_sdi_shapes(index.indexes@, index.elements@);
        }
        match IndexPage::new0(buf, index) {
            Ok(original) => Ok(Self { original }),
            Err(e) => Err(e),
        }
    }
}

} // verus!

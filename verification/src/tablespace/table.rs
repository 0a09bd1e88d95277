use crate::tablespace::data_type::DataType;
use std::collections::HashMap;
use vstd::prelude::*;

verus! {

/// A column of a table.
#[derive(Debug)]
pub struct Column {
    pub name: String,
    pub data_type: DataType,
    pub is_nullable: bool,
    pub is_hidden: bool,
    pub ordinal_position: u16,
}

impl Clone for Column {
    fn clone(&self) -> (r: Self)
        ensures
            r == *self,
    {
        Column {
            name: self.name.clone(),
            data_type: self.data_type,
            is_nullable: self.is_nullable,
            is_hidden: self.is_hidden,
            ordinal_position: self.ordinal_position,
        }
    }
}

impl Column {
    /// A column with the given name, type and place in the table.
    pub fn new(
        name: String,
        data_type: DataType,
        is_nullable: bool,
        is_hidden: bool,
        ordinal_position: u16,
    ) -> (r: Self)
        ensures
            r == (Column { name, data_type, is_nullable, is_hidden, ordinal_position }),
    {
        Self { name, data_type, is_nullable, is_hidden, ordinal_position }
    }
}

/// A copy of a list of columns.
pub fn clone_columns(columns: &Vec<Column>) -> (r: Vec<Column>)
    ensures
        r@ == columns@,
{
    let mut r: Vec<Column> = Vec::new();
    let mut i: usize = 0;
    while i < columns.len()
        invariant
            i <= columns.len(),
            r@ == columns@.subrange(0, i as int),
        decreases columns.len() - i,
    {
        r.push(columns[i].clone());
        i += 1;
    }
    r
}

/// An index of a table: where its tree starts and which columns its records
/// hold.
#[derive(Debug)]
pub struct Index {
    pub index_id: u64,
    pub root_page_num: u32,
    pub name: String,
    pub is_primary: bool,
    /// The columns of the records on the inner pages, in storage order.
    pub indexes: Vec<Column>,
    /// The columns of the records on the leaf pages, in storage order.
    pub elements: Vec<Column>,
}

impl Clone for Index {
    fn clone(&self) -> (r: Self)
        ensures
            r.index_id == self.index_id,
            r.root_page_num == self.root_page_num,
            r.name == self.name,
            r.is_primary == self.is_primary,
            r.indexes@ == self.indexes@,
            r.elements@ == self.elements@,
    {
        Index {
            index_id: self.index_id,
            root_page_num: self.root_page_num,
            name: self.name.clone(),
            is_primary: self.is_primary,
            indexes: clone_columns(&self.indexes),
            elements: clone_columns(&self.elements),
        }
    }
}

impl Index {
    /// An index with the given id, root page, name and columns.
    pub fn new(
        index_id: u64,
        root_page_num: u32,
        name: String,
        is_primary: bool,
        indexes: Vec<Column>,
        elements: Vec<Column>,
    ) -> (r: Self)
        ensures
            r == (Index { index_id, root_page_num, name, is_primary, indexes, elements }),
    {
        Self { index_id, root_page_num, name, is_primary, indexes, elements }
    }

    /// The number of columns of a record on a leaf page.
    pub fn elements_size(&self) -> (r: usize)
        ensures
            r == self.elements@.len(),
    {
        self.elements.len()
    }

    /// The number of columns of a record on an inner page.
    pub fn index_size(&self) -> (r: usize)
        ensures
            r == self.indexes@.len(),
    {
        self.indexes.len()
    }
}

/// A table: its name and its indexes by their ids.
pub struct TableInfo {
    pub name: String,
    pub indexes: HashMap<u64, Index>,
}

/// The id under which the index of the dictionary information goes.
pub const SDI_INDEX_ID: u64 = 0xFFFF_FFFF_FFFF_FFFF;

/// Whether `c` is the visible, non-null column with this name, type and
/// position.
pub open spec fn is_plain_column(c: Column, name: Seq<char>, data_type: DataType, position: u16) -> bool {
    &&& c.name@ == name
    &&& c.data_type == data_type
    &&& !c.is_nullable
    &&& !c.is_hidden
    &&& c.ordinal_position == position
}

/// The columns of the records on the leaves of the index of the dictionary
/// information.
pub open spec fn is_sdi_elements(columns: Seq<Column>) -> bool {
    &&& columns.len() == 7
    &&& is_plain_column(columns[0], "sdi_type"@, DataType::Int, 1)
    &&& is_plain_column(columns[1], "sdi_id"@, DataType::Bigint, 2)
    &&& is_plain_column(columns[2], "DB_TRX_ID"@, DataType::DbTrxId, 3)
    &&& is_plain_column(columns[3], "DB_ROLL_PTR"@, DataType::DbRollPtr, 4)
    &&& is_plain_column(columns[4], "sdi_uncomp_len"@, DataType::Int, 5)
    &&& is_plain_column(columns[5], "sdi_comp_len"@, DataType::Int, 6)
    &&& is_plain_column(columns[6], "sdi_value"@, DataType::Varchar, 7)
}

/// The columns of the records on the inner pages of the index of the
/// dictionary information.
pub open spec fn is_sdi_indexes(columns: Seq<Column>) -> bool {
    &&& columns.len() == 3
    &&& is_plain_column(columns[0], "sdi_type"@, DataType::Int, 1)
    &&& is_plain_column(columns[1], "sdi_id"@, DataType::Bigint, 2)
    &&& is_plain_column(columns[2], "child_page_num"@, DataType::Int, 8)
}

/// The fixed description of the index that holds the dictionary
/// information, for a tree that starts at `root_page_num`.
pub fn sdi_index(root_page_num: u32) -> (r: Index)
    ensures
        r.index_id == SDI_INDEX_ID,
        r.root_page_num == root_page_num,
        r.name@ == "sdi_index"@,
        r.is_primary,
        is_sdi_indexes(r.indexes@),
        is_sdi_elements(r.elements@),
{
    let c1 = Column::new("sdi_type".to_owned(), DataType::Int, false, false, 1);
    let c2 = Column::new("sdi_id".to_owned(), DataType::Bigint, false, false, 2);
    let c3 = Column::new("DB_TRX_ID".to_owned(), DataType::DbTrxId, false, false, 3);
    let c4 = Column::new("DB_ROLL_PTR".to_owned(), DataType::DbRollPtr, false, false, 4);
    let c5 = Column::new("sdi_uncomp_len".to_owned(), DataType::Int, false, false, 5);
    let c6 = Column::new("sdi_comp_len".to_owned(), DataType::Int, false, false, 6);
    let c7 = Column::new("sdi_value".to_owned(), DataType::Varchar, false, false, 7);
    let c_page_num = Column::new("child_page_num".to_owned(), DataType::Int, false, false, 8);
    let mut indexes: Vec<Column> = Vec::new();
    indexes.push(c1.clone());
    indexes.push(c2.clone());
    indexes.push(c_page_num);
    let mut sdi_elements: Vec<Column> = Vec::new();
    sdi_elements.push(c1);
    sdi_elements.push(c2);
    sdi_elements.push(c3);
    sdi_elements.push(c4);
    sdi_elements.push(c5);
    sdi_elements.push(c6);
    sdi_elements.push(c7);
    Index::new(SDI_INDEX_ID, root_page_num, "sdi_index".to_owned(), true, indexes, sdi_elements)
}

} // verus!

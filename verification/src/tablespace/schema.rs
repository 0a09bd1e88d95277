use crate::error::DecodeError;
use crate::tablespace::data_type::{data_type_of, DataType};
use crate::tablespace::json::Json;
use crate::tablespace::private_data::{parse_private_data, private_data_of};
use crate::tablespace::table::{Column, Index, TableInfo};
use std::collections::HashMap;
use vstd::prelude::*;
use vstd::utf8::encode_utf8;

verus! {

/// What the dictionary says of an index.
pub struct IndexModel {
    pub index_id: u64,
    pub root_page_num: u32,
    pub name: String,
    pub is_primary: bool,
    pub indexes: Seq<Column>,
    pub elements: Seq<Column>,
}

/// What the dictionary says of a table.
pub struct TableModel {
    pub name: String,
    pub indexes: Map<u64, IndexModel>,
}

/// Whether `index` is the index that `model` describes.
pub open spec fn index_matches(index: Index, model: IndexModel) -> bool {
    &&& index.index_id == model.index_id
    &&& index.root_page_num == model.root_page_num
    &&& index.name == model.name
    &&& index.is_primary == model.is_primary
    &&& index.indexes@ == model.indexes
    &&& index.elements@ == model.elements
}

/// Whether `table` is the table that `model` describes.
pub open spec fn table_matches(table: TableInfo, model: TableModel) -> bool {
    &&& table.name == model.name
    &&& table.indexes@.dom() == model.indexes.dom()
    &&& forall|id: u64| #[trigger]
        model.indexes.contains_key(id) ==> index_matches(table.indexes@[id], model.indexes[id])
}

/// The text of the member `key` of `val`.
pub open spec fn field_text(val: Json, key: Seq<char>) -> Option<String> {
    match val.field(key) {
        Some(v) => v.text(),
        None => None,
    }
}

/// The number of the member `key` of `val`.
pub open spec fn field_number(val: Json, key: Seq<char>) -> Option<u64> {
    match val.field(key) {
        Some(v) => v.number(),
        None => None,
    }
}

/// The truth value of the member `key` of `val`.
pub open spec fn field_truth(val: Json, key: Seq<char>) -> Option<bool> {
    match val.field(key) {
        Some(v) => v.truth(),
        None => None,
    }
}

/// The elements of the member `key` of `val`.
pub open spec fn field_elements(val: Json, key: Seq<char>) -> Option<Seq<Json>> {
    match val.field(key) {
        Some(v) => v.elements(),
        None => None,
    }
}

/// The type of the hidden column with the name `name`.
pub open spec fn hidden_type(name: Seq<char>) -> Option<DataType> {
    if name == "DB_TRX_ID"@ {
        Some(DataType::DbTrxId)
    } else if name == "DB_ROW_ID"@ {
        Some(DataType::DbRowId)
    } else if name == "DB_ROLL_PTR"@ {
        Some(DataType::DbRollPtr)
    } else {
        None
    }
}

/// The type of the column that `val` describes, whose name is `name` and
/// whose declared length is `len`: a hidden column has the type that goes
/// with its name, any other column the type that its type code stands for.
/// A type code is a number below 256.
pub open spec fn column_type(val: Json, name: Seq<char>, len: usize, is_hidden: bool) -> Option<
    DataType,
> {
    if is_hidden {
        hidden_type(name)
    } else {
        match field_number(val, "type"@) {
            Some(code) => if code <= 0xFF {
                Some(data_type_of(code as u8, len))
            } else {
                None
            },
            None => None,
        }
    }
}

/// The column that `val` describes: an object with the members `name`,
/// `char_length`, `is_nullable`, `hidden`, `ordinal_position` and, unless
/// the column is hidden, `type`. A column is hidden where `hidden` is 2.
/// The declared length must fit the machine, and the position must be a
/// number from 1 to 65535.
pub open spec fn column_of(val: Json) -> Option<Column> {
    let name = field_text(val, "name"@);
    let len = field_number(val, "char_length"@);
    let nullable = field_truth(val, "is_nullable"@);
    let hidden = field_number(val, "hidden"@);
    let position = field_number(val, "ordinal_position"@);
    if name is None || len is None || nullable is None || hidden is None || position is None {
        None
    } else if len.unwrap() > usize::MAX || position.unwrap() == 0 || position.unwrap() > 0xFFFF {
        None
    } else {
        match column_type(val, name.unwrap()@, len.unwrap() as usize, hidden.unwrap() == 2) {
            Some(data_type) => Some(
                Column {
                    name: name.unwrap(),
                    data_type,
                    is_nullable: nullable.unwrap(),
                    is_hidden: hidden.unwrap() == 2,
                    ordinal_position: position.unwrap() as u16,
                },
            ),
            None => None,
        }
    }
}

/// The columns that the first `i` of `vals` describe, if each of them
/// describes one.
pub open spec fn columns_of(vals: Seq<Json>, i: int) -> Option<Seq<Column>>
    decreases i,
{
    if i <= 0 {
        Some(Seq::empty())
    } else {
        match (columns_of(vals, i - 1), column_of(vals[i - 1])) {
            (Some(columns), Some(column)) => Some(columns.push(column)),
            _ => None,
        }
    }
}

/// The first `i` of `columns` by their positions, counted from 0; of two
/// columns with the same position the later one counts.
pub open spec fn columns_by_position(columns: Seq<Column>, i: int) -> Map<u16, Column>
    decreases i,
{
    if i <= 0 {
        Map::empty()
    } else {
        columns_by_position(columns, i - 1).insert(
            (columns[i - 1].ordinal_position - 1) as u16,
            columns[i - 1],
        )
    }
}

/// The column that the element `val` of an index names, and whether it is
/// part of the key: `val` is an object with the members `length` and
/// `column_opx`, the position of the column counted from 0; the column is
/// part of the key where the length is below 2^32 - 1.
pub open spec fn element_of(val: Json, by_position: Map<u16, Column>) -> Option<(Column, bool)> {
    let length = field_number(val, "length"@);
    let position = field_number(val, "column_opx"@);
    if length is None || position is None {
        None
    } else if position.unwrap() > 0xFFFF || !by_position.contains_key(position.unwrap() as u16) {
        None
    } else {
        Some(
            (
                by_position[position.unwrap() as u16],
                length.unwrap() < 0xFFFF_FFFF,
            ),
        )
    }
}

/// The columns that the first `i` elements of an index name, if each of
/// them names one: first those that are part of the key, then all of them.
pub open spec fn elements_of(vals: Seq<Json>, by_position: Map<u16, Column>, i: int) -> Option<
    (Seq<Column>, Seq<Column>),
>
    decreases i,
{
    if i <= 0 {
        Some((Seq::empty(), Seq::empty()))
    } else {
        match (elements_of(vals, by_position, i - 1), element_of(vals[i - 1], by_position)) {
            (Some((keys, all)), Some((column, is_key))) => Some(
                (
                    if is_key {
                        keys.push(column)
                    } else {
                        keys
                    },
                    all.push(column),
                ),
            ),
            _ => None,
        }
    }
}

/// The index that `val` describes: an object with the members `name`,
/// `se_private_data`, `type` and `elements`. The private data must name the
/// id and the root page of the index. An index is the primary one where
/// `type` is 1.
pub open spec fn index_of(val: Json, by_position: Map<u16, Column>) -> Option<IndexModel> {
    let name = field_text(val, "name"@);
    let private = field_text(val, "se_private_data"@);
    let kind = field_number(val, "type"@);
    let elements = field_elements(val, "elements"@);
    if name is None || private is None || kind is None || elements is None {
        None
    } else {
        match (
            private_data_of(encode_utf8(private.unwrap()@)),
            elements_of(elements.unwrap(), by_position, elements.unwrap().len() as int),
        ) {
            (Some(data), Some((keys, all))) => if data.id is Some && data.root is Some {
                Some(
                    IndexModel {
                        index_id: data.id.unwrap(),
                        root_page_num: data.root.unwrap(),
                        name: name.unwrap(),
                        is_primary: kind.unwrap() == 1,
                        indexes: keys,
                        elements: all,
                    },
                )
            } else {
                None
            },
            _ => None,
        }
    }
}

/// The indexes that the first `i` of `vals` describe, by their ids, if
/// each of them describes one; of two indexes with the same id the later
/// one counts.
pub open spec fn indexes_of(vals: Seq<Json>, by_position: Map<u16, Column>, i: int) -> Option<
    Map<u64, IndexModel>,
>
    decreases i,
{
    if i <= 0 {
        Some(Map::empty())
    } else {
        match (indexes_of(vals, by_position, i - 1), index_of(vals[i - 1], by_position)) {
            (Some(indexes), Some(index)) => Some(indexes.insert(index.index_id, index)),
            _ => None,
        }
    }
}

/// The table that the dictionary information `json` describes: the member
/// `dd_object` is an object with the members `name`, `columns` and
/// `indexes`.
pub open spec fn table_of(json: Json) -> Option<TableModel> {
    match json.field("dd_object"@) {
        None => None,
        Some(table) => {
            let name = field_text(table, "name"@);
            let columns = field_elements(table, "columns"@);
            let indexes = field_elements(table, "indexes"@);
            if name is None || columns is None || indexes is None {
                None
            } else {
                match columns_of(columns.unwrap(), columns.unwrap().len() as int) {
                    None => None,
                    Some(cols) => match indexes_of(
                        indexes.unwrap(),
                        columns_by_position(cols, cols.len() as int),
                        indexes.unwrap().len() as int,
                    ) {
                        None => None,
                        Some(by_id) => Some(TableModel { name: name.unwrap(), indexes: by_id }),
                    },
                }
            }
        },
    }
}

/// The text of the member `key` of `val`.
pub fn get_text<'a>(val: &'a Json, key: &str) -> (r: Option<&'a String>)
    ensures
        match r {
            Some(s) => field_text(*val, key@) == Some(*s),
            None => field_text(*val, key@) is None,
        },
{
    match val.get(key) {
        Some(v) => v.as_str(),
        None => None,
    }
}

/// The number of the member `key` of `val`.
pub fn get_number(val: &Json, key: &str) -> (r: Option<u64>)
    ensures
        r == field_number(*val, key@),
{
    match val.get(key) {
        Some(v) => v.as_u64(),
        None => None,
    }
}

/// The truth value of the member `key` of `val`.
pub fn get_truth(val: &Json, key: &str) -> (r: Option<bool>)
    ensures
        r == field_truth(*val, key@),
{
    match val.get(key) {
        Some(v) => v.as_bool(),
        None => None,
    }
}

/// The elements of the member `key` of `val`.
pub fn get_elements<'a>(val: &'a Json, key: &str) -> (r: Option<&'a Vec<Json>>)
    ensures
        match r {
            Some(a) => field_elements(*val, key@) == Some(a@),
            None => field_elements(*val, key@) is None,
        },
{
    match val.get(key) {
        Some(v) => v.as_array(),
        None => None,
    }
}

/// Whether `text` is the text `wanted`.
pub fn text_is(text: &String, wanted: &str) -> (r: bool)
    ensures
        r == (text@ == wanted@),
{
    let other = wanted.to_owned();
    *text == other
}

/// The type of the hidden column with the name `name`.
pub fn hidden_column_type(name: &String) -> (r: Option<DataType>)
    ensures
        r == hidden_type(name@),
{
    if text_is(name, "DB_TRX_ID") {
        Some(DataType::DbTrxId)
    } else if text_is(name, "DB_ROW_ID") {
        Some(DataType::DbRowId)
    } else if text_is(name, "DB_ROLL_PTR") {
        Some(DataType::DbRollPtr)
    } else {
        None
    }
}

/// Reads the description of a column.
pub fn parse_column(val: &Json) -> (r: Option<Column>)
    ensures
        r == column_of(*val),
{
    let name = match get_text(val, "name") {
        Some(s) => s,
        None => {
            return None;
        },
    };
    let char_length = match get_number(val, "char_length") {
        Some(n) => n,
        None => {
            return None;
        },
    };
    let is_nullable = match get_truth(val, "is_nullable") {
        Some(b) => b,
        None => {
            return None;
        },
    };
    let hidden = match get_number(val, "hidden") {
        Some(n) => n,
        None => {
            return None;
        },
    };
    let position = match get_number(val, "ordinal_position") {
        Some(n) => n,
        None => {
            return None;
        },
    };
    if char_length > usize::MAX as u64 || position == 0 || position > 0xFFFF {
        return None;
    }
    let len: usize = char_length as usize;
    let is_hidden = hidden == 2;
    let data_type = if is_hidden {
        match hidden_column_type(name) {
            Some(t) => t,
            None => {
                return None;
            },
        }
    } else {
        match get_number(val, "type") {
            Some(code) => {
                if code > 0xFF {
                    return None;
                }
                DataType::new(code as u8, len)
            },
            None => {
                return None;
            },
        }
    };
    let ordinal_position: u16 = position as u16;
    Some(Column::new(name.clone(), data_type, is_nullable, is_hidden, ordinal_position))
}

/// Reads the descriptions of the columns of a table.
pub fn parse_columns(vals: &Vec<Json>) -> (r: Option<Vec<Column>>)
    ensures
        match r {
            Some(columns) => columns_of(vals@, vals@.len() as int) == Some(columns@),
            None => columns_of(vals@, vals@.len() as int) is None,
        },
{
    let mut columns: Vec<Column> = Vec::new();
    let mut i: usize = 0;
    while i < vals.len()
        invariant
            i <= vals@.len(),
            columns_of(vals@, i as int) == Some(columns@),
        decreases vals@.len() - i,
    {
        match parse_column(&vals[i]) {
            Some(column) => {
                columns.push(column);
            },
            None => {
                proof {
                    lemma_columns_of_fails(vals@, i + 1, vals@.len() as int);
                }
                return None;
            },
        }
        i += 1;
    }
    Some(columns)
}

/// Where the first `i` values do not all describe columns, no more of them
/// do.
pub proof fn lemma_columns_of_fails(vals: Seq<Json>, i: int, j: int)
    requires
        i <= j,
        columns_of(vals, i) is None,
    ensures
        columns_of(vals, j) is None,
    decreases j - i,
{
    if i < j {
        lemma_columns_of_fails(vals, i, j - 1);
    }
}

/// Where the first `i` elements do not all name columns, no more of them
/// do.
pub proof fn lemma_elements_of_fails(
    vals: Seq<Json>,
    by_position: Map<u16, Column>,
    i: int,
    j: int,
)
    requires
        i <= j,
        elements_of(vals, by_position, i) is None,
    ensures
        elements_of(vals, by_position, j) is None,
    decreases j - i,
{
    if i < j {
        lemma_elements_of_fails(vals, by_position, i, j - 1);
    }
}

/// Where the first `i` values do not all describe indexes, no more of them
/// do.
pub proof fn lemma_indexes_of_fails(vals: Seq<Json>, by_position: Map<u16, Column>, i: int, j: int)
    requires
        i <= j,
        indexes_of(vals, by_position, i) is None,
    ensures
        indexes_of(vals, by_position, j) is None,
    decreases j - i,
{
    if i < j {
        lemma_indexes_of_fails(vals, by_position, i, j - 1);
    }
}

/// The columns of a table by their positions, counted from 0.
pub fn index_columns(columns: &Vec<Column>) -> (r: HashMap<u16, Column>)
    requires
        forall|i: int| 0 <= i < columns@.len() ==> (#[trigger] columns@[i]).ordinal_position >= 1,
    ensures
        r@ == columns_by_position(columns@, columns@.len() as int),
{
    broadcast use vstd::std_specs::hash::group_hash_axioms;

    let mut map_col: HashMap<u16, Column> = HashMap::new();
    let mut i: usize = 0;
    while i < columns.len()
        invariant
            i <= columns@.len(),
            forall|k: int|
                0 <= k < columns@.len() ==> (#[trigger] columns@[k]).ordinal_position >= 1,
            map_col@ == columns_by_position(columns@, i as int),
        decreases columns@.len() - i,
    {
        let column = &columns[i];
        map_col.insert(column.ordinal_position - 1, column.clone());
        i += 1;
    }
    map_col
}

/// Reads the description of an index of a table with the columns `map_col`.
#[verifier::loop_isolation(false)]
pub fn parse_index(val: &Json, map_col: &HashMap<u16, Column>) -> (r: Option<Index>)
    ensures
        match r {
            Some(index) => index_of(*val, map_col@) is Some && index_matches(
                index,
                index_of(*val, map_col@).unwrap(),
            ),
            None => index_of(*val, map_col@) is None,
        },
{
    broadcast use vstd::std_specs::hash::group_hash_axioms;

    let name = match get_text(val, "name") {
        Some(s) => s,
        None => {
            return None;
        },
    };
    let private = match get_text(val, "se_private_data") {
        Some(s) => s,
        None => {
            return None;
        },
    };
    let kind = match get_number(val, "type") {
        Some(n) => n,
        None => {
            return None;
        },
    };
    let elements_v = match get_elements(val, "elements") {
        Some(a) => a,
        None => {
            return None;
        },
    };
    let data = match parse_private_data(private.as_str().as_bytes()) {
        Some(d) => d,
        None => {
            return None;
        },
    };
    let mut indexes: Vec<Column> = Vec::new();
    let mut elements: Vec<Column> = Vec::new();
    let mut i: usize = 0;
    while i < elements_v.len()
        invariant
            i <= elements_v@.len(),
            elements_of(elements_v@, map_col@, i as int) == Some((indexes@, elements@)),
        decreases elements_v@.len() - i,
    {
        let element = &elements_v[i];
        let length = get_number(element, "length");
        let position = get_number(element, "column_opx");
        if length.is_none() || position.is_none() {
            proof {
                lemma_elements_of_fails(elements_v@, map_col@, i + 1, elements_v@.len() as int);
            }
            return None;
        }
        if position.unwrap() > 0xFFFF {
            proof {
                lemma_elements_of_fails(elements_v@, map_col@, i + 1, elements_v@.len() as int);
            }
            return None;
        }
        let column_opx: u16 = position.unwrap() as u16;
        match map_col.get(&column_opx) {
            None => {
                proof {
                    lemma_elements_of_fails(elements_v@, map_col@, i + 1, elements_v@.len() as int);
                }
                return None;
            },
            Some(col) => {
                if length.unwrap() < 0xFFFF_FFFF {
                    indexes.push(col.clone());
                }
                elements.push(col.clone());
            },
        }
        i += 1;
    }
    match (data.id, data.root) {
        (Some(index_id), Some(root_page_num)) => Some(
            Index::new(index_id, root_page_num, name.clone(), kind == 1, indexes, elements),
        ),
        _ => None,
    }
}

/// Builds the description of a table from the dictionary information that
/// the tablespace holds for it.
#[verifier::loop_isolation(false)]
pub fn build_table_info(json: &Json) -> (r: Result<TableInfo, DecodeError>)
    ensures
        match r {
            Ok(table) => table_of(*json) is Some && table_matches(table, table_of(*json).unwrap()),
            Err(e) => e == DecodeError::SchemaBootstrap && table_of(*json) is None,
        },
{
    broadcast use vstd::std_specs::hash::group_hash_axioms;

    let table_val = match json.get("dd_object") {
        Some(v) => v,
        None => {
            return Err(DecodeError::SchemaBootstrap);
        },
    };
    let table_name = match get_text(table_val, "name") {
        Some(s) => s,
        None => {
            return Err(DecodeError::SchemaBootstrap);
        },
    };
    let columns = match get_elements(table_val, "columns") {
        Some(a) => a,
        None => {
            return Err(DecodeError::SchemaBootstrap);
        },
    };
    let indexes_v = match get_elements(table_val, "indexes") {
        Some(a) => a,
        None => {
            return Err(DecodeError::SchemaBootstrap);
        },
    };
    let column_list = match parse_columns(columns) {
        Some(list) => list,
        None => {
            return Err(DecodeError::SchemaBootstrap);
        },
    };
    proof {
        lemma_columns_have_positions(columns@, columns@.len() as int);
    }
    let map_col = index_columns(&column_list);
    let mut map: HashMap<u64, Index> = HashMap::new();
    let mut i: usize = 0;
    while i < indexes_v.len()
        invariant
            i <= indexes_v@.len(),
            indexes_of(indexes_v@, map_col@, i as int) is Some,
            map@.dom() == indexes_of(indexes_v@, map_col@, i as int).unwrap().dom(),
            forall|id: u64| #[trigger]
                map@.contains_key(id) ==> index_matches(
                    map@[id],
                    indexes_of(indexes_v@, map_col@, i as int).unwrap()[id],
                ),
        decreases indexes_v@.len() - i,
    {
        match parse_index(&indexes_v[i], &map_col) {
            None => {
                proof {
                    lemma_indexes_of_fails(indexes_v@, map_col@, i + 1, indexes_v@.len() as int);
                }
                return Err(DecodeError::SchemaBootstrap);
            },
            Some(index) => {
                map.insert(index.index_id, index);
            },
        }
        i += 1;
    }
    Ok(TableInfo { name: table_name.clone(), indexes: map })
}

/// The columns that a dictionary describes have positions from 1 on.
pub proof fn lemma_columns_have_positions(vals: Seq<Json>, i: int)
    requires
        0 <= i,
        columns_of(vals, i) is Some,
    ensures
        columns_of(vals, i).unwrap().len() == i,
        forall|k: int|
            0 <= k < i ==> (#[trigger] columns_of(vals, i).unwrap()[k]).ordinal_position >= 1,
    decreases i,
{
    if i > 0 {
        lemma_columns_have_positions(vals, i - 1);
    }
}

} // verus!

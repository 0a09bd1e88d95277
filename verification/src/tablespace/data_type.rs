use vstd::prelude::*;

verus! {

/// The type of a column, with the number of bytes of its values where the
/// type fixes it.
#[derive(Debug, Eq, PartialEq, Clone, Copy, Structural)]
pub enum DataType {
    /// 1 byte.
    Tinyint,
    /// 2 bytes.
    Smallint,
    /// 4 bytes.
    Int,
    /// 4 bytes.
    Float,
    /// 8 bytes.
    Double,
    /// 8 bytes.
    Bigint,
    /// 3 bytes.
    Mediumint,
    /// 4 bytes.
    Timestamp,
    /// 1 byte.
    Year,
    /// 3 bytes.
    Date,
    /// Variable length.
    Varchar,
    /// 1 byte.
    Bit,
    /// 8 bytes.
    Datetime,
    /// 3 bytes.
    Time,
    /// As many bytes as the column declares.
    Decimal(usize),
    /// Variable length.
    Tinytext,
    /// Variable length.
    Mediumtext,
    /// Variable length.
    Longtext,
    /// Variable length.
    Text,
    /// As many bytes as the column declares.
    Char(usize),
    /// The hidden row id, 6 bytes.
    DbRowId,
    /// The hidden transaction id, 6 bytes.
    DbTrxId,
    /// The hidden roll pointer, 7 bytes.
    DbRollPtr,
    /// A type code outside the known set, with the length the column declares.
    UnKnow(u8, usize),
}

/// The column type that a type code of the dictionary stands for; `len` is
/// the length the column declares.
pub open spec fn data_type_of(value: u8, len: usize) -> DataType {
    match value {
        2 => DataType::Tinyint,
        3 => DataType::Smallint,
        4 => DataType::Int,
        5 => DataType::Float,
        6 => DataType::Double,
        9 => DataType::Bigint,
        10 => DataType::Mediumint,
        13 => DataType::Timestamp,
        14 => DataType::Year,
        15 => DataType::Date,
        16 => DataType::Varchar,
        17 => DataType::Bit,
        19 => DataType::Datetime,
        20 => DataType::Time,
        21 => DataType::Decimal(len),
        24 => DataType::Tinytext,
        25 => DataType::Mediumtext,
        26 => DataType::Longtext,
        27 => DataType::Text,
        29 => DataType::Char(len),
        _ => DataType::UnKnow(value, len),
    }
}

impl DataType {
    /// The number of bytes that a value of the type takes in a record, 0 for
    /// the types of variable length (and for the unknown type, of which
    /// nothing is known).
    pub open spec fn spec_len(&self) -> usize {
        match *self {
            DataType::Tinyint => 1,
            DataType::Smallint => 2,
            DataType::Int => 4,
            DataType::Float => 4,
            DataType::Double => 8,
            DataType::Bigint => 8,
            DataType::Mediumint => 3,
            DataType::Timestamp => 4,
            DataType::Year => 1,
            DataType::Date => 3,
            DataType::Varchar => 0,
            DataType::Bit => 1,
            DataType::Datetime => 8,
            DataType::Time => 3,
            DataType::Decimal(len) => len,
            DataType::Tinytext => 0,
            DataType::Mediumtext => 0,
            DataType::Longtext => 0,
            DataType::Text => 0,
            DataType::Char(len) => len,
            DataType::DbRowId => 6,
            DataType::DbTrxId => 6,
            DataType::DbRollPtr => 7,
            DataType::UnKnow(_, _) => 0,
        }
    }

    /// Whether values of the type carry their length in the record.
    pub open spec fn spec_is_var(&self) -> bool {
        *self is Varchar || *self is Tinytext || *self is Mediumtext || *self is Longtext
            || *self is Text
    }

    /// Whether values of the type are text.
    pub open spec fn spec_is_str(&self) -> bool {
        self.spec_is_var() || *self is Char
    }

    /// The column type for a type code of the dictionary and the length the
    /// column declares.
    pub fn new(value: u8, len: usize) -> (r: DataType)
        ensures
            r == data_type_of(value, len),
    {
        match value {
            2 => DataType::Tinyint,
            3 => DataType::Smallint,
            4 => DataType::Int,
            5 => DataType::Float,
            6 => DataType::Double,
            9 => DataType::Bigint,
            10 => DataType::Mediumint,
            13 => DataType::Timestamp,
            14 => DataType::Year,
            15 => DataType::Date,
            16 => DataType::Varchar,
            17 => DataType::Bit,
            19 => DataType::Datetime,
            20 => DataType::Time,
            21 => DataType::Decimal(len),
            24 => DataType::Tinytext,
            25 => DataType::Mediumtext,
            26 => DataType::Longtext,
            27 => DataType::Text,
            29 => DataType::Char(len),
            _ => DataType::UnKnow(value, len),
        }
    }

    /// The number of bytes that a value of the type takes in a record, 0 for
    /// the types of variable length. The unknown type has no length.
    #[verifier::when_used_as_spec(spec_len)]
    pub fn len(&self) -> (r: usize)
        requires
            !(*self is UnKnow),
        ensures
            r == self.spec_len(),
    {
        match self {
            DataType::Tinyint => 1,
            DataType::Smallint => 2,
            DataType::Int => 4,
            DataType::Float => 4,
            DataType::Double => 8,
            DataType::Bigint => 8,
            DataType::Mediumint => 3,
            DataType::Timestamp => 4,
            DataType::Year => 1,
            DataType::Date => 3,
            DataType::Varchar => 0,
            DataType::Bit => 1,
            DataType::Datetime => 8,
            DataType::Time => 3,
            DataType::Decimal(len) => *len,
            DataType::Tinytext => 0,
            DataType::Mediumtext => 0,
            DataType::Longtext => 0,
            DataType::Text => 0,
            DataType::Char(len) => *len,
            DataType::UnKnow(_, _) => 0,
            DataType::DbRowId => 6,
            DataType::DbTrxId => 6,
            DataType::DbRollPtr => 7,
        }
    }

    /// Whether values of the type carry their length in the record.
    #[verifier::when_used_as_spec(spec_is_var)]
    pub fn is_var(&self) -> (r: bool)
        ensures
            r == self.spec_is_var(),
    {
        match self {
            DataType::Varchar
            | DataType::Tinytext
            | DataType::Mediumtext
            | DataType::Longtext
            | DataType::Text => true,
            _ => false,
        }
    }

    /// Whether values of the type are text.
    #[verifier::when_used_as_spec(spec_is_str)]
    pub fn is_str(&self) -> (r: bool)
        ensures
            r == self.spec_is_str(),
    {
        match self {
            DataType::Varchar
            | DataType::Tinytext
            | DataType::Mediumtext
            | DataType::Longtext
            | DataType::Text
            | DataType::Char(_) => true,
            _ => false,
        }
    }
}

} // verus!

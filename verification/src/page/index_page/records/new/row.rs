use crate::buffer::{sub_slice, ByteBuf};
use crate::error::DecodeError;
use crate::page::index_page::records::new::header::{RecordHeader, NEW_HEAD_LEN};
use crate::page::index_page::records::new::layout::{
    bit_is_set, col_info_at, col_infos, col_is_null, col_is_unknown, col_len, col_overflow,
    data_len, layout_ok, lemma_data_len_monotone, lemma_nullable_count_monotone,
    lemma_prefix_cursor_monotone, len_prefix_bytes, len_prefix_len, len_prefix_overflow,
    len_prefix_size, lens_sum, null_bitmap_len, nullable_count, prefix_cursor, prefix_error, shapes,
    starts_in_turn, ColInfo, ColShape, MAX_DATA_LEN,
};
use crate::page::{OverflowPointer, OVERFLOW_POINTER_LEN};
use crate::tablespace::data_type::DataType;
use crate::tablespace::table::Column;
use vstd::prelude::*;

verus! {

/// Whether bit `k` of `byte` is set, bit 0 being the lowest.
pub fn test_bit(byte: u8, k: u8) -> (r: bool)
    requires
        k < 8,
    ensures
        r == bit_is_set(byte, k),
{
    (byte >> k) & 1 == 1
}

/// Reads the length prefix that ends just before `cursor`: the length, the
/// overflow mark, and where the prefix starts. `None` if the prefix does
/// not lie inside `buf`.
pub fn decode_len_prefix(buf: &[u8], cursor: usize) -> (r: Option<(usize, bool, usize)>)
    requires
        cursor <= buf@.len(),
    ensures
        match r {
            Some((len, overflow, start)) => {
                &&& start == cursor - len_prefix_size(buf@, cursor as int)
                &&& len == len_prefix_len(buf@, cursor as int)
                &&& overflow == len_prefix_overflow(buf@, cursor as int)
            },
            None => cursor - len_prefix_size(buf@, cursor as int) < 0,
        },
{
    if cursor < 1 {
        return None;
    }
    let val = buf[cursor - 1];
    if val < 0x80 {
        Some((val as usize, false, cursor - 1))
    } else if cursor < 2 {
        None
    } else {
        let len: usize = (val % 64) as usize * 256 + buf[cursor - 2] as usize;
        Some((len, (val / 64) % 2 == 1, cursor - 2))
    }
}

/// Writes the length prefix of a column of `len` bytes, in the order in
/// which it is stored.
pub fn encode_len_prefix(len: u16, overflow: bool) -> (r: Vec<u8>)
    requires
        len < 0x4000,
    ensures
        r@ == len_prefix_bytes(len as int, overflow),
{
    let mut r: Vec<u8> = Vec::new();
    if len < 0x80 && !overflow {
        r.push(len as u8);
    } else {
        let mark: u16 = if overflow {
            0xC0
        } else {
            0x80
        };
        r.push((len % 256) as u8);
        r.push((mark + len / 256) as u8);
    }
    proof {
        assert(r@ =~= len_prefix_bytes(len as int, overflow));
    }
    r
}

/// The number of nullable columns.
pub fn count_nullable(columns: &Vec<Column>) -> (r: usize)
    ensures
        r == nullable_count(shapes(columns@), columns@.len() as int),
{
    let mut count: usize = 0;
    let mut i: usize = 0;
    while i < columns.len()
        invariant
            i <= columns.len(),
            count == nullable_count(shapes(columns@), i as int),
            count <= i,
        decreases columns.len() - i,
    {
        if columns[i].is_nullable {
            count += 1;
        }
        i += 1;
    }
    count
}

/// A record in the compact format: the bytes from its first length prefix
/// to the end of its data, with the place of its columns in them.
pub struct Row<B: ByteBuf> {
    col_info: Vec<ColInfo>,
    rec_offset: usize,
    buffer: B,
}

impl<B: ByteBuf> Row<B> {
    /// What is known of the columns.
    pub closed spec fn info(&self) -> Seq<ColInfo> {
        self.col_info@
    }

    /// Where the data starts in the record's bytes; the header is the five
    /// bytes in front of it.
    pub closed spec fn data_start(&self) -> int {
        self.rec_offset as int
    }

    /// The bytes of the record.
    pub closed spec fn bytes(&self) -> Seq<u8> {
        self.buffer.bytes()
    }

    /// The columns fill the data of the record exactly.
    pub open spec fn wf(&self) -> bool {
        layout_ok(self.info(), self.data_start(), self.bytes().len() as int)
    }

    /// Every record that exists is well formed.
    #[verifier::type_invariant]
    spec fn inv(&self) -> bool {
        self.wf()
    }

    /// The bytes of column `i`, the overflow pointer included if it ends in
    /// one.
    pub open spec fn col_bytes(&self, i: int) -> Seq<u8> {
        self.bytes().subrange(
            self.data_start() + self.info()[i].1,
            self.data_start() + self.info()[i].1 + self.info()[i].2,
        )
    }

    /// The lengths of the columns of a record add up to the number of
    /// bytes from the start of its data to its end.
    pub proof fn lemma_columns_fill_data(self)
        requires
            self.wf(),
        ensures
            lens_sum(self.info(), self.info().len() as int) == self.bytes().len()
                - self.data_start(),
    {
    }

    /// A column of a record that is null has no bytes.
    pub proof fn lemma_null_column_is_empty(self, i: int)
        requires
            self.wf(),
            0 <= i < self.info().len(),
            self.info()[i].4,
        ensures
            self.info()[i].2 == 0,
            self.col_bytes(i).len() == 0,
            i + 1 < self.info().len() ==> self.info()[i + 1].1 == self.info()[i].1,
    {
        lemma_lens_sum_monotone(self.info(), i + 1, self.info().len() as int);
        lemma_lens_sum_monotone(self.info(), 0, i);
        assert(starts_in_turn(self.info(), i));
        if i + 1 < self.info().len() {
            assert(starts_in_turn(self.info(), i + 1));
        }
    }

    /// A record of the bytes in `buffer`, whose data starts at `rec_offset`
    /// and holds the columns that `col_info` describes. The three must fit
    /// together.
    pub fn new(col_info: Vec<ColInfo>, rec_offset: usize, buffer: B) -> (r: Result<
        Row<B>,
        DecodeError,
    >)
        ensures
            layout_ok(col_info@, rec_offset as int, buffer.bytes().len() as int) ==> r is Ok
                && r.unwrap().wf() && r.unwrap().info() == col_info@ && r.unwrap().data_start()
                == rec_offset && r.unwrap().bytes() == buffer.bytes(),
            !layout_ok(col_info@, rec_offset as int, buffer.bytes().len() as int) ==> r == Err::<
                Row<B>,
                DecodeError,
            >(DecodeError::MalformedLength),
    {
        let len = buffer.as_slice().len();
        if rec_offset < NEW_HEAD_LEN || rec_offset > len {
            return Err(DecodeError::MalformedLength);
        }
        let room: usize = len - rec_offset;
        let mut sum: usize = 0;
        let mut i: usize = 0;
        while i < col_info.len()
            invariant
                i <= col_info.len(),
                sum == lens_sum(col_info@, i as int),
                sum <= room,
                rec_offset + room == len,
                len == buffer.bytes().len(),
                forall|j: int| 0 <= j < i ==> #[trigger] starts_in_turn(col_info@, j),
                forall|j: int| 0 <= j < i && (#[trigger] col_info@[j]).3 ==> col_info@[j].2 >= 20,
                forall|j: int| 0 <= j < i && (#[trigger] col_info@[j]).4 ==> col_info@[j].2 == 0,
            decreases col_info.len() - i,
        {
            let entry = col_info[i];
            let offset = entry.1;
            let col_len = entry.2;
            assert(entry == col_info@[i as int]);
            assert(offset as usize != sum ==> !starts_in_turn(col_info@, i as int));
            if offset as usize != sum || (entry.3 && (col_len as usize) < OVERFLOW_POINTER_LEN) || (
            entry.4 && col_len != 0) {
                return Err(DecodeError::MalformedLength);
            }
            proof {
                lemma_lens_sum_monotone(col_info@, i + 1, col_info@.len() as int);
                assert(lens_sum(col_info@, i + 1) == sum + col_len);
            }
            if col_len as usize > room - sum {
                return Err(DecodeError::MalformedLength);
            }
            sum += col_len as usize;
            i += 1;
        }
        if sum != room {
            return Err(DecodeError::MalformedLength);
        }
        let r = Self { col_info, rec_offset, buffer };
        assert(r.wf());
        Ok(r)
    }

    /// The header of the record.
    pub fn header(&self) -> (r: RecordHeader<&[u8]>)
        ensures
            r.wf(),
            r@ == self.bytes().subrange(self.data_start() - 5, self.data_start()),
    {
        proof {
            use_type_invariant(self);
        }
        let start = self.rec_offset - NEW_HEAD_LEN;
        let end = self.rec_offset;
        RecordHeader::new(sub_slice(self.buffer.as_slice(), start, end)).unwrap()
    }

    /// The data of the record: the bytes of its columns, one after the other.
    pub fn data(&self) -> (r: &[u8])
        ensures
            r@ == self.bytes().subrange(self.data_start(), self.bytes().len() as int),
    {
        proof {
            use_type_invariant(self);
        }
        let s = self.buffer.as_slice();
        sub_slice(s, self.rec_offset, s.len())
    }

    /// All bytes of the record, the length prefixes, the null bitmap and
    /// the header included.
    pub fn buf(&self) -> (r: &[u8])
        ensures
            r@ == self.bytes(),
    {
        self.buffer.as_slice()
    }

    /// The bytes of column `index` that are stored in the record, and the
    /// overflow pointer if the column ends in one: the pointer is the last
    /// 20 bytes of the column, and is not part of the bytes returned.
    pub fn col(&self, index: usize) -> (r: (&[u8], Option<OverflowPointer<&[u8]>>))
        requires
            index < self.info().len(),
        ensures
            !self.info()[index as int].3 ==> r.0@ == self.col_bytes(index as int) && r.1 is None,
            self.info()[index as int].3 ==> r.0@ == self.col_bytes(index as int).subrange(
                0,
                self.info()[index as int].2 - 20,
            ) && r.1 is Some && r.1.unwrap().wf() && r.1.unwrap().buf@ == self.col_bytes(
                index as int,
            ).subrange(self.info()[index as int].2 - 20, self.info()[index as int].2 as int),
    {
        proof {
            use_type_invariant(self);
        }
        let (_, bytes, ptr) = self.col_type(index);
        (bytes, ptr)
    }

    /// The type of column `index`, and what `col` returns for it.
    pub fn col_type(&self, index: usize) -> (r: (
        DataType,
        &[u8],
        Option<OverflowPointer<&[u8]>>,
    ))
        requires
            index < self.info().len(),
        ensures
            r.0 == self.info()[index as int].0,
            !self.info()[index as int].3 ==> r.1@ == self.col_bytes(index as int) && r.2 is None,
            self.info()[index as int].3 ==> r.1@ == self.col_bytes(index as int).subrange(
                0,
                self.info()[index as int].2 - 20,
            ) && r.2 is Some && r.2.unwrap().wf() && r.2.unwrap().buf@ == self.col_bytes(
                index as int,
            ).subrange(self.info()[index as int].2 - 20, self.info()[index as int].2 as int),
    {
        proof {
            use_type_invariant(self);
        }
        let entry = self.col_info[index];
        let data_type = entry.0;
        let offset = entry.1;
        let len = entry.2;
        let is_overflow = entry.3;
        proof {
            assert(entry == self.info()[index as int]);
            assert(starts_in_turn(self.info(), index as int));
            lemma_lens_sum_monotone(self.col_info@, index + 1, self.col_info@.len() as int);
            assert(lens_sum(self.col_info@, index + 1) == offset + len);
        }
        let s = self.buffer.as_slice();
        let total: usize = s.len();
        assert(self.rec_offset + offset + len <= total);
        let start: usize = self.rec_offset + offset as usize;
        let data = sub_slice(s, start, start + len as usize);
        if is_overflow {
            let split: usize = len as usize - OVERFLOW_POINTER_LEN;
            let local = sub_slice(data, 0, split);
            let ptr = OverflowPointer::new(sub_slice(data, split, len as usize));
            (data_type, local, Some(ptr))
        } else {
            (data_type, data, None)
        }
    }

    /// What is known of the columns.
    pub fn col_info(&self) -> (r: &Vec<ColInfo>)
        ensures
            r@ == self.info(),
    {
        &self.col_info
    }

    /// The number of bytes of the record.
    pub fn size(&self) -> (r: usize)
        ensures
            r == self.bytes().len(),
    {
        self.buffer.as_slice().len()
    }

    /// Finds the place of the columns of the record whose data starts at
    /// `rec_offset` in `buffer`: reads the null bitmap and the length
    /// prefixes that lie in front of the record's header, and returns where
    /// the first of them starts, with what is known of each column. The
    /// data of the record are not read, and need not lie inside `buffer`.
    pub fn parse_row_prefix(columns: &Vec<Column>, rec_offset: usize, buffer: &B) -> (r: Result<
        (usize, Vec<ColInfo>),
        DecodeError,
    >)
        ensures
            match r {
                Ok((start, info)) => {
                    &&& prefix_error(shapes(columns@), buffer.bytes(), rec_offset as int) is None
                    &&& start == prefix_cursor(
                        shapes(columns@),
                        buffer.bytes(),
                        rec_offset as int,
                        columns@.len() as int,
                    )
                    &&& info@ == col_infos(shapes(columns@), buffer.bytes(), rec_offset as int)
                },
                Err(e) => prefix_error(shapes(columns@), buffer.bytes(), rec_offset as int) == Some(
                    e,
                ),
            },
    {
        let buf = buffer.as_slice();
        let ghost cols = shapes(columns@);
        let ghost bytes = buf@;
        let ghost rec = rec_offset as int;
        let n = columns.len();
        if rec_offset < NEW_HEAD_LEN || rec_offset > buf.len() {
            return Err(DecodeError::MalformedLength);
        }
        let header_start: usize = rec_offset - NEW_HEAD_LEN;
        let nullable: usize = count_nullable(columns);
        proof {
            lemma_nullable_count_monotone(cols, 0, n as int);
        }
        assert(nullable <= n) by {
            lemma_nullable_count_le(cols, n as int);
        }
        let bitmap_len: usize = nullable / 8 + if nullable % 8 != 0 {
            1usize
        } else {
            0usize
        };
        assert(bitmap_len == null_bitmap_len(cols));
        if bitmap_len > header_start {
            return Err(DecodeError::MalformedLength);
        }
        // The null flags, and the check that every column with a value has a
        // known type.
        let mut nulls: Vec<bool> = Vec::new();
        let mut null_num: usize = 0;
        let mut i: usize = 0;
        while i < n
            invariant
                n == columns@.len(),
                cols == shapes(columns@),
                bytes == buf@,
                bytes == buffer.bytes(),
                rec == rec_offset,
                i <= n,
                5 <= rec <= bytes.len(),
                header_start == rec - 5,
                nullable == nullable_count(cols, n as int),
                bitmap_len == null_bitmap_len(cols),
                bitmap_len <= header_start,
                null_num == nullable_count(cols, i as int),
                nulls@.len() == i,
                forall|j: int| 0 <= j < i ==> nulls@[j] == col_is_null(cols, bytes, rec, j),
                forall|j: int| 0 <= j < i ==> !#[trigger] col_is_unknown(cols, bytes, rec, j),
            decreases n - i,
        {
            let column = &columns[i];
            let mut is_null = false;
            if column.is_nullable {
                proof {
                    lemma_nullable_count_monotone(cols, i + 1, n as int);
                }
                assert(null_num < nullable);
                let val = buf[header_start - null_num / 8 - 1];
                is_null = test_bit(val, (null_num % 8) as u8);
                null_num += 1;
            }
            assert(is_null == col_is_null(cols, bytes, rec, i as int));
            if !is_null {
                if let DataType::UnKnow(_, _) = column.data_type {
                    assert(col_is_unknown(cols, bytes, rec, i as int));
                    return Err(DecodeError::UnknownEnum);
                }
            }
            nulls.push(is_null);
            i += 1;
        }
        // The lengths, read backwards from the null bitmap, and the offsets.
        let mut cursor: usize = header_start - bitmap_len;
        let mut offset: usize = 0;
        let mut col_info: Vec<ColInfo> = Vec::with_capacity(n);
        let mut i: usize = 0;
        while i < n
            invariant
                n == columns@.len(),
                cols == shapes(columns@),
                bytes == buf@,
                bytes == buffer.bytes(),
                rec == rec_offset,
                i <= n,
                5 <= rec <= bytes.len(),
                prefix_cursor(cols, bytes, rec, 0) >= 0,
                nulls@.len() == n,
                forall|j: int| 0 <= j < n ==> nulls@[j] == col_is_null(cols, bytes, rec, j),
                forall|j: int| 0 <= j < n ==> !#[trigger] col_is_unknown(cols, bytes, rec, j),
                cursor == prefix_cursor(cols, bytes, rec, i as int),
                cursor <= rec - 5,
                offset == data_len(cols, bytes, rec, i as int),
                offset <= MAX_DATA_LEN,
                col_info@.len() == i,
                forall|j: int| 0 <= j < i ==> col_info@[j] == col_info_at(cols, bytes, rec, j),
            decreases n - i,
        {
            let data_type = columns[i].data_type;
            let is_null = nulls[i];
            let mut len: usize = 0;
            let mut is_overflow = false;
            proof {
                lemma_prefix_cursor_monotone(cols, bytes, rec, i + 1, n as int);
                lemma_data_len_monotone(cols, bytes, rec, i + 1, n as int);
            }
            if is_null {
            } else if data_type.is_var() {
                match decode_len_prefix(buf, cursor) {
                    Some((prefix_len, overflow, start)) => {
                        len = prefix_len;
                        is_overflow = overflow;
                        cursor = start;
                    },
                    None => {
                        return Err(DecodeError::MalformedLength);
                    },
                }
            } else {
                assert(!col_is_unknown(cols, bytes, rec, i as int));
                len = data_type.len();
            }
            assert(len == col_len(cols, bytes, rec, i as int));
            assert(is_overflow == col_overflow(cols, bytes, rec, i as int));
            if len > MAX_DATA_LEN - offset {
                return Err(DecodeError::MalformedLength);
            }
            col_info.push((data_type, offset as u16, len as u16, is_overflow, is_null));
            offset += len;
            i += 1;
        }
        proof {
            assert(col_info@ =~= col_infos(cols, bytes, rec));
        }
        Ok((cursor, col_info))
    }
}

/// The sum of the first `i` lengths is at most the sum of the first `j`.
pub proof fn lemma_lens_sum_monotone(info: Seq<ColInfo>, i: int, j: int)
    requires
        0 <= i <= j,
    ensures
        0 <= lens_sum(info, i) <= lens_sum(info, j),
    decreases j,
{
    if j <= 0 {
    } else if i < j {
        lemma_lens_sum_monotone(info, i, j - 1);
    } else {
        lemma_lens_sum_monotone(info, i - 1, j - 1);
    }
}

/// At most `i` of the first `i` columns are nullable.
pub proof fn lemma_nullable_count_le(cols: Seq<ColShape>, i: int)
    requires
        0 <= i,
    ensures
        nullable_count(cols, i) <= i,
    decreases i,
{
    if i > 0 {
        lemma_nullable_count_le(cols, i - 1);
    }
}

} // verus!

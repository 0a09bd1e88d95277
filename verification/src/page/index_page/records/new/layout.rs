use crate::error::DecodeError;
use crate::tablespace::data_type::DataType;
use crate::tablespace::table::Column;
use vstd::prelude::*;

verus! {

/// What is known of one column of a record: its type, the offset of its
/// bytes from the start of the record's data, the number of its bytes,
/// whether it ends in an overflow pointer, and whether it is null.
pub type ColInfo = (DataType, u16, u16, bool, bool);

/// What the layout of a record depends on in a column: its type and
/// whether it can be null.
pub struct ColShape {
    pub data_type: DataType,
    pub is_nullable: bool,
}

/// The shapes of a list of columns.
pub open spec fn shapes(columns: Seq<Column>) -> Seq<ColShape> {
    Seq::new(
        columns.len(),
        |i: int| ColShape { data_type: columns[i].data_type, is_nullable: columns[i].is_nullable },
    )
}

/// The limit on the number of data bytes of a record: offsets and lengths
/// of columns are 16-bit numbers.
pub const MAX_DATA_LEN: usize = 0xFFFF;

/// Whether bit `k` of `byte` is set, bit 0 being the lowest.
pub open spec fn bit_is_set(byte: u8, k: u8) -> bool {
    (byte >> k) & 1 == 1
}

/// The number of nullable columns among the first `i`.
pub open spec fn nullable_count(cols: Seq<ColShape>, i: int) -> int
    decreases i,
{
    if i <= 0 {
        0
    } else {
        nullable_count(cols, i - 1) + if cols[i - 1].is_nullable {
            1int
        } else {
            0int
        }
    }
}

/// The number of bytes of the null bitmap: one bit for each nullable column.
pub open spec fn null_bitmap_len(cols: Seq<ColShape>) -> int {
    (nullable_count(cols, cols.len() as int) + 7) / 8
}

/// Whether column `i` of the record whose data starts at `rec` is null: the
/// bitmap ends where the record header starts, five bytes before the data;
/// its last byte holds the bits of the first eight nullable columns, the
/// lowest bit the first.
pub open spec fn col_is_null(cols: Seq<ColShape>, buf: Seq<u8>, rec: int, i: int) -> bool {
    let k = nullable_count(cols, i);
    cols[i].is_nullable && bit_is_set(buf[rec - 6 - k / 8], (k % 8) as u8)
}

/// Whether column `i` cannot be laid out: it holds a value and its type is
/// not known.
pub open spec fn col_is_unknown(cols: Seq<ColShape>, buf: Seq<u8>, rec: int, i: int) -> bool {
    cols[i].data_type is UnKnow && !col_is_null(cols, buf, rec, i)
}

/// Whether column `i` stores its length in front of the record.
pub open spec fn has_len_prefix(cols: Seq<ColShape>, buf: Seq<u8>, rec: int, i: int) -> bool {
    cols[i].data_type.spec_is_var() && !col_is_null(cols, buf, rec, i)
}

/// The number of bytes of the length prefix that ends just before `c`.
pub open spec fn len_prefix_size(buf: Seq<u8>, c: int) -> int {
    if buf[c - 1] < 0x80 {
        1
    } else {
        2
    }
}

/// The length that the prefix ending just before `c` gives: the byte itself
/// in the one-byte form; in the two-byte form the low six bits of the byte
/// nearer to the header are the high bits, and the byte before it the low
/// bits.
pub open spec fn len_prefix_len(buf: Seq<u8>, c: int) -> int {
    if buf[c - 1] < 0x80 {
        buf[c - 1] as int
    } else {
        (buf[c - 1] % 64) * 256 + buf[c - 2]
    }
}

/// Whether the prefix ending just before `c` marks the column as overflowed:
/// only the two-byte form can, with the bit below its top bit.
pub open spec fn len_prefix_overflow(buf: Seq<u8>, c: int) -> bool {
    buf[c - 1] >= 0x80 && (buf[c - 1] / 64) % 2 == 1
}

/// Where the length prefixes of the columns from `i` on end: the prefixes
/// lie in front of the null bitmap, that of the first column nearest to it.
pub open spec fn prefix_cursor(cols: Seq<ColShape>, buf: Seq<u8>, rec: int, i: int) -> int
    decreases i,
{
    if i <= 0 {
        rec - 5 - null_bitmap_len(cols)
    } else {
        let c = prefix_cursor(cols, buf, rec, i - 1);
        if has_len_prefix(cols, buf, rec, i - 1) {
            c - len_prefix_size(buf, c)
        } else {
            c
        }
    }
}

/// The number of bytes of column `i`: none for a null column, what the
/// length prefix says for a column of variable length, and the length of
/// the type otherwise.
pub open spec fn col_len(cols: Seq<ColShape>, buf: Seq<u8>, rec: int, i: int) -> int {
    if col_is_null(cols, buf, rec, i) {
        0
    } else if cols[i].data_type.spec_is_var() {
        len_prefix_len(buf, prefix_cursor(cols, buf, rec, i))
    } else {
        cols[i].data_type.spec_len() as int
    }
}

/// Whether column `i` ends in an overflow pointer.
pub open spec fn col_overflow(cols: Seq<ColShape>, buf: Seq<u8>, rec: int, i: int) -> bool {
    has_len_prefix(cols, buf, rec, i) && len_prefix_overflow(buf, prefix_cursor(cols, buf, rec, i))
}

/// The number of bytes of the first `i` columns together, which is the
/// offset of column `i` from the start of the data.
pub open spec fn data_len(cols: Seq<ColShape>, buf: Seq<u8>, rec: int, i: int) -> int
    decreases i,
{
    if i <= 0 {
        0
    } else {
        data_len(cols, buf, rec, i - 1) + col_len(cols, buf, rec, i - 1)
    }
}

/// What is known of column `i` of the record whose data starts at `rec`.
pub open spec fn col_info_at(cols: Seq<ColShape>, buf: Seq<u8>, rec: int, i: int) -> ColInfo {
    (
        cols[i].data_type,
        data_len(cols, buf, rec, i) as u16,
        col_len(cols, buf, rec, i) as u16,
        col_overflow(cols, buf, rec, i),
        col_is_null(cols, buf, rec, i),
    )
}

/// What is known of the columns of the record whose data starts at `rec`.
pub open spec fn col_infos(cols: Seq<ColShape>, buf: Seq<u8>, rec: int) -> Seq<ColInfo> {
    Seq::new(cols.len(), |i: int| col_info_at(cols, buf, rec, i))
}

/// Why the place of the columns of the record whose data starts at `rec`
/// cannot be read from what lies in front of the data, if it cannot:
/// - the record's header or its null bitmap does not lie inside `buf`;
/// - a column that holds a value has a type that is not known;
/// - a length prefix does not lie inside `buf`, or the lengths of the
///   columns add up to more than `MAX_DATA_LEN`.
///
/// Nothing is asked of the data themselves: the bytes from `rec` on are not
/// read, and need not be there.
pub open spec fn prefix_error(cols: Seq<ColShape>, buf: Seq<u8>, rec: int) -> Option<DecodeError> {
    let n = cols.len() as int;
    if rec < 5 || rec > buf.len() || prefix_cursor(cols, buf, rec, 0) < 0 {
        Some(DecodeError::MalformedLength)
    } else if exists|i: int| 0 <= i < n && #[trigger] col_is_unknown(cols, buf, rec, i) {
        Some(DecodeError::UnknownEnum)
    } else if prefix_cursor(cols, buf, rec, n) < 0 || data_len(cols, buf, rec, n) > MAX_DATA_LEN {
        Some(DecodeError::MalformedLength)
    } else {
        None
    }
}

/// Whether one of the columns is said to end in an overflow pointer and is
/// shorter than one.
pub open spec fn has_short_overflow(cols: Seq<ColShape>, buf: Seq<u8>, rec: int) -> bool {
    exists|i: int|
        0 <= i < cols.len() && #[trigger] col_overflow(cols, buf, rec, i) && col_len(
            cols,
            buf,
            rec,
            i,
        ) < 20
}

/// Why the record whose data starts at `rec` cannot be decoded, if it
/// cannot: the place of its columns cannot be read, its data do not lie
/// inside `buf`, or a column said to end in an overflow pointer is shorter
/// than one.
pub open spec fn row_error(cols: Seq<ColShape>, buf: Seq<u8>, rec: int) -> Option<DecodeError> {
    match prefix_error(cols, buf, rec) {
        Some(e) => Some(e),
        None => if rec + data_len(cols, buf, rec, cols.len() as int) > buf.len()
            || has_short_overflow(cols, buf, rec) {
            Some(DecodeError::MalformedLength)
        } else {
            None
        },
    }
}

/// The sum of the lengths that the first `i` entries of `info` give.
pub open spec fn lens_sum(info: Seq<ColInfo>, i: int) -> int
    decreases i,
{
    if i <= 0 {
        0
    } else {
        lens_sum(info, i - 1) + info[i - 1].2
    }
}

/// Whether column `i` starts where the columns before it end.
pub open spec fn starts_in_turn(info: Seq<ColInfo>, i: int) -> bool {
    info[i].1 == lens_sum(info, i)
}

/// Whether `info` describes a record of `len` bytes whose data starts at
/// `rec_offset`: the header fits in front of the data; each column starts
/// where the one before it ends; the columns fill the data exactly; a
/// column that ends in an overflow pointer is long enough to hold one; and
/// a null column has no bytes.
pub open spec fn layout_ok(info: Seq<ColInfo>, rec_offset: int, len: int) -> bool {
    &&& 5 <= rec_offset <= len
    &&& rec_offset + lens_sum(info, info.len() as int) == len
    &&& forall|i: int| 0 <= i < info.len() ==> #[trigger] starts_in_turn(info, i)
    &&& forall|i: int| 0 <= i < info.len() && (#[trigger] info[i]).3 ==> info[i].2 >= 20
    &&& forall|i: int| 0 <= i < info.len() && (#[trigger] info[i]).4 ==> info[i].2 == 0
}

/// The nullable columns among the first `i` are among the first `j`.
pub proof fn lemma_nullable_count_monotone(cols: Seq<ColShape>, i: int, j: int)
    requires
        i <= j,
    ensures
        0 <= nullable_count(cols, i) <= nullable_count(cols, j),
    decreases j,
{
    if j <= 0 {
    } else if i < j {
        lemma_nullable_count_monotone(cols, i, j - 1);
    } else {
        if i > 0 {
            lemma_nullable_count_monotone(cols, i - 1, j - 1);
        }
    }
}

/// The length prefixes grow towards the front: the cursor never moves back
/// towards the header.
pub proof fn lemma_prefix_cursor_monotone(cols: Seq<ColShape>, buf: Seq<u8>, rec: int, i: int, j: int)
    requires
        0 <= i <= j,
    ensures
        prefix_cursor(cols, buf, rec, j) <= prefix_cursor(cols, buf, rec, i),
    decreases j,
{
    if i < j {
        lemma_prefix_cursor_monotone(cols, buf, rec, i, j - 1);
    }
}

/// No column has a negative length, so offsets only grow.
pub proof fn lemma_data_len_monotone(cols: Seq<ColShape>, buf: Seq<u8>, rec: int, i: int, j: int)
    requires
        0 <= i <= j,
    ensures
        0 <= data_len(cols, buf, rec, i) <= data_len(cols, buf, rec, j),
    decreases j,
{
    if j <= 0 {
    } else if i < j {
        lemma_data_len_monotone(cols, buf, rec, i, j - 1);
    } else {
        lemma_data_len_monotone(cols, buf, rec, i - 1, j - 1);
    }
}

/// The lengths in what is known of the columns add up to the offsets.
pub proof fn lemma_lens_sum_is_data_len(cols: Seq<ColShape>, buf: Seq<u8>, rec: int, i: int)
    requires
        prefix_error(cols, buf, rec) is None,
        0 <= i <= cols.len(),
    ensures
        lens_sum(col_infos(cols, buf, rec), i) == data_len(cols, buf, rec, i),
    decreases i,
{
    if i > 0 {
        lemma_lens_sum_is_data_len(cols, buf, rec, i - 1);
        lemma_data_len_monotone(cols, buf, rec, i, cols.len() as int);
        lemma_data_len_monotone(cols, buf, rec, i - 1, i);
        assert(col_infos(cols, buf, rec)[i - 1] == col_info_at(cols, buf, rec, i - 1));
    }
}

/// Where the place of the columns can be read, the length prefixes and the
/// null bitmap lie between the start of the buffer and the record's
/// header, and the lengths of the columns add up to no more than
/// `MAX_DATA_LEN`.
pub proof fn lemma_prefix_bounds(cols: Seq<ColShape>, buf: Seq<u8>, rec: int)
    requires
        prefix_error(cols, buf, rec) is None,
    ensures
        5 <= rec <= buf.len(),
        0 <= prefix_cursor(cols, buf, rec, cols.len() as int) <= rec - 5,
        0 <= data_len(cols, buf, rec, cols.len() as int) <= MAX_DATA_LEN,
{
    let n = cols.len() as int;
    lemma_prefix_cursor_monotone(cols, buf, rec, 0, n);
    lemma_nullable_count_monotone(cols, 0, n);
    lemma_data_len_monotone(cols, buf, rec, 0, n);
}

/// What is read of column `i` where the place of the columns can be read:
/// its type is that of the column, it starts where the columns before it
/// end (the first at 0), and its length is 0 if it is null, what its
/// length prefix says if it is of variable length, and the length of its
/// type otherwise.
pub proof fn lemma_column_in_turn(cols: Seq<ColShape>, buf: Seq<u8>, rec: int, i: int)
    requires
        prefix_error(cols, buf, rec) is None,
        0 <= i < cols.len(),
    ensures
        col_infos(cols, buf, rec).len() == cols.len(),
        col_infos(cols, buf, rec)[i].0 == cols[i].data_type,
        col_infos(cols, buf, rec)[i].1 == data_len(cols, buf, rec, i),
        col_infos(cols, buf, rec)[i].2 == col_len(cols, buf, rec, i),
        col_infos(cols, buf, rec)[i].3 == col_overflow(cols, buf, rec, i),
        col_infos(cols, buf, rec)[i].4 == col_is_null(cols, buf, rec, i),
        starts_in_turn(col_infos(cols, buf, rec), i),
        i == 0 ==> col_infos(cols, buf, rec)[i].1 == 0,
        i + 1 < cols.len() ==> col_infos(cols, buf, rec)[i + 1].1 == col_infos(cols, buf, rec)[i].1
            + col_infos(cols, buf, rec)[i].2,
        !cols[i].is_nullable && !cols[i].data_type.spec_is_var() ==> col_infos(cols, buf, rec)[i].2
            == cols[i].data_type.spec_len(),
{
    let n = cols.len() as int;
    let info = col_infos(cols, buf, rec);
    lemma_lens_sum_is_data_len(cols, buf, rec, i);
    lemma_data_len_monotone(cols, buf, rec, 0, i);
    lemma_data_len_monotone(cols, buf, rec, i, i + 1);
    lemma_data_len_monotone(cols, buf, rec, i + 1, n);
    assert(info[i] == col_info_at(cols, buf, rec, i));
    if i + 1 < n {
        assert(info[i + 1] == col_info_at(cols, buf, rec, i + 1));
    }
}

/// The lengths of the columns that are read add up to the number of bytes
/// that the data of the record take.
pub proof fn lemma_columns_add_up(cols: Seq<ColShape>, buf: Seq<u8>, rec: int)
    requires
        prefix_error(cols, buf, rec) is None,
    ensures
        lens_sum(col_infos(cols, buf, rec), cols.len() as int) == data_len(
            cols,
            buf,
            rec,
            cols.len() as int,
        ),
{
    lemma_lens_sum_is_data_len(cols, buf, rec, cols.len() as int);
}

/// Where a record can be decoded, its columns fill its data exactly: the
/// lengths of the columns add up to the distance from the start of the data
/// to the end of the record, each column starts where the one before it
/// ends, and the length prefixes and the null bitmap lie between the start
/// of the record and its header.
pub proof fn lemma_parsed_layout_ok(cols: Seq<ColShape>, buf: Seq<u8>, rec: int)
    requires
        row_error(cols, buf, rec) is None,
    ensures
        0 <= prefix_cursor(cols, buf, rec, cols.len() as int) <= rec - 5,
        0 <= data_len(cols, buf, rec, cols.len() as int) <= MAX_DATA_LEN,
        rec + data_len(cols, buf, rec, cols.len() as int) <= buf.len(),
        layout_ok(
            col_infos(cols, buf, rec),
            rec - prefix_cursor(cols, buf, rec, cols.len() as int),
            rec - prefix_cursor(cols, buf, rec, cols.len() as int) + data_len(
                cols,
                buf,
                rec,
                cols.len() as int,
            ),
        ),
{
    let n = cols.len() as int;
    let info = col_infos(cols, buf, rec);
    lemma_prefix_bounds(cols, buf, rec);
    lemma_columns_add_up(cols, buf, rec);
    assert forall|i: int| 0 <= i < info.len() implies #[trigger] starts_in_turn(info, i) by {
        lemma_column_in_turn(cols, buf, rec, i);
    }
    assert forall|i: int| 0 <= i < info.len() && (#[trigger] info[i]).3 implies info[i].2
        >= 20 by {
        lemma_column_in_turn(cols, buf, rec, i);
        assert(col_overflow(cols, buf, rec, i));
    }
    assert forall|i: int| 0 <= i < info.len() && (#[trigger] info[i]).4 implies info[i].2
        == 0 by {
        lemma_column_in_turn(cols, buf, rec, i);
    }
}

/// A record with a column that is said to end in an overflow pointer and
/// is shorter than one is not well laid out.
pub proof fn lemma_short_overflow_breaks_layout(
    cols: Seq<ColShape>,
    buf: Seq<u8>,
    rec: int,
    rec_offset: int,
    len: int,
)
    requires
        prefix_error(cols, buf, rec) is None,
        has_short_overflow(cols, buf, rec),
    ensures
        !layout_ok(col_infos(cols, buf, rec), rec_offset, len),
{
    let i = choose|i: int|
        0 <= i < cols.len() && #[trigger] col_overflow(cols, buf, rec, i) && col_len(
            cols,
            buf,
            rec,
            i,
        ) < 20;
    lemma_column_in_turn(cols, buf, rec, i);
    let info = col_infos(cols, buf, rec);
    assert(info[i].3 && info[i].2 < 20);
}

/// A column that the null bitmap marks as null has no bytes in the record:
/// it has no length prefix, its length is 0, and the next column starts
/// where it starts.
pub proof fn lemma_null_column_takes_no_bytes(cols: Seq<ColShape>, buf: Seq<u8>, rec: int, i: int)
    requires
        0 <= i < cols.len(),
        col_is_null(cols, buf, rec, i),
    ensures
        col_len(cols, buf, rec, i) == 0,
        !col_overflow(cols, buf, rec, i),
        data_len(cols, buf, rec, i + 1) == data_len(cols, buf, rec, i),
        prefix_cursor(cols, buf, rec, i + 1) == prefix_cursor(cols, buf, rec, i),
        col_info_at(cols, buf, rec, i).2 == 0,
        col_info_at(cols, buf, rec, i).4,
{
}

/// The bytes of the length prefix of a column of `len` bytes, in the order
/// in which they are stored: one byte for a length below 128 of a column
/// that does not overflow; else the low eight bits of the length, then a
/// byte with the top bit set, the overflow mark below it and the high six
/// bits of the length.
pub open spec fn len_prefix_bytes(len: int, overflow: bool) -> Seq<u8> {
    if len < 0x80 && !overflow {
        seq![len as u8]
    } else {
        seq![
            (len % 256) as u8,
            (0x80 + if overflow {
                0x40int
            } else {
                0int
            } + len / 256) as u8,
        ]
    }
}

/// Reading back a length prefix gives the length and the overflow mark
/// that were written: for every length below 16384, wherever the prefix
/// ends in the buffer.
pub proof fn lemma_len_prefix_round_trip(buf: Seq<u8>, c: int, len: int, overflow: bool)
    requires
        0 <= len < 0x4000,
        len_prefix_bytes(len, overflow).len() <= c <= buf.len(),
        buf.subrange(c - len_prefix_bytes(len, overflow).len(), c) == len_prefix_bytes(
            len,
            overflow,
        ),
    ensures
        len_prefix_size(buf, c) == len_prefix_bytes(len, overflow).len(),
        len_prefix_len(buf, c) == len,
        len_prefix_overflow(buf, c) == overflow,
{
    let e = len_prefix_bytes(len, overflow);
    let part = buf.subrange(c - e.len(), c);
    if len < 0x80 && !overflow {
        assert(part[0] == buf[c - 1]);
    } else {
        assert(part[1] == buf[c - 1]);
        assert(part[0] == buf[c - 2]);
    }
}

/// Reading back the length prefix of a column gives the length and the
/// overflow mark that were written: where the bytes in front of the place
/// at which the prefix of column `i` ends are those of the prefix of a
/// column of `len` bytes, the column is read with that length and that
/// mark, and the prefix of the next column ends where this one starts.
pub proof fn lemma_column_prefix_round_trip(
    cols: Seq<ColShape>,
    buf: Seq<u8>,
    rec: int,
    i: int,
    len: int,
    overflow: bool,
)
    requires
        0 <= i < cols.len(),
        has_len_prefix(cols, buf, rec, i),
        0 <= len < 0x4000,
        len_prefix_bytes(len, overflow).len() <= prefix_cursor(cols, buf, rec, i) <= buf.len(),
        buf.subrange(
            prefix_cursor(cols, buf, rec, i) - len_prefix_bytes(len, overflow).len(),
            prefix_cursor(cols, buf, rec, i),
        ) == len_prefix_bytes(len, overflow),
    ensures
        col_len(cols, buf, rec, i) == len,
        col_overflow(cols, buf, rec, i) == overflow,
        prefix_cursor(cols, buf, rec, i + 1) == prefix_cursor(cols, buf, rec, i) - len_prefix_bytes(
            len,
            overflow,
        ).len(),
{
    lemma_len_prefix_round_trip(buf, prefix_cursor(cols, buf, rec, i), len, overflow);
}

/// A record of one column of variable length that cannot be null, whose
/// buffer starts with the length prefix of a column of `len` bytes and
/// goes on with the record's header: the place of the column can be read,
/// whether or not the data follow; the prefix starts at 0; and the column
/// is read with the length and the overflow mark that were written.
pub proof fn lemma_single_variable_column(
    cols: Seq<ColShape>,
    buf: Seq<u8>,
    len: int,
    overflow: bool,
)
    requires
        cols.len() == 1,
        cols[0].data_type.spec_is_var(),
        !cols[0].is_nullable,
        0 <= len < 0x4000,
        buf.len() >= len_prefix_bytes(len, overflow).len() + 5,
        buf.subrange(0, len_prefix_bytes(len, overflow).len() as int) == len_prefix_bytes(
            len,
            overflow,
        ),
    ensures
        ({
            let rec = len_prefix_bytes(len, overflow).len() as int + 5;
            &&& prefix_error(cols, buf, rec) is None
            &&& prefix_cursor(cols, buf, rec, 1) == 0
            &&& col_infos(cols, buf, rec) == seq![
                (cols[0].data_type, 0u16, len as u16, overflow, false),
            ]
        }),
{
    let e = len_prefix_bytes(len, overflow);
    let rec = e.len() as int + 5;
    reveal_with_fuel(nullable_count, 2);
    reveal_with_fuel(prefix_cursor, 2);
    reveal_with_fuel(data_len, 2);
    assert(nullable_count(cols, 1) == 0);
    assert(prefix_cursor(cols, buf, rec, 0) == e.len());
    assert(has_len_prefix(cols, buf, rec, 0));
    lemma_column_prefix_round_trip(cols, buf, rec, 0, len, overflow);
    assert(data_len(cols, buf, rec, 1) == len);
    assert(!col_is_unknown(cols, buf, rec, 0));
    assert(col_infos(cols, buf, rec) =~= seq![
        (cols[0].data_type, 0u16, len as u16, overflow, false),
    ]);
}

/// How far two buffers that hold the same bytes in front of the data of a
/// record agree on the first `i` columns: on which of them are null, and
/// either on where the length prefixes end and on the lengths, or on that
/// a prefix does not lie inside the buffer.
pub open spec fn agree_up_to(cols: Seq<ColShape>, a: Seq<u8>, b: Seq<u8>, rec: int, i: int) -> bool {
    &&& forall|j: int|
        0 <= j < cols.len() ==> #[trigger] col_is_null(cols, a, rec, j) == col_is_null(
            cols,
            b,
            rec,
            j,
        )
    &&& {
        ||| prefix_cursor(cols, a, rec, i) < 0 && prefix_cursor(cols, b, rec, i) < 0
        ||| {
            &&& 0 <= prefix_cursor(cols, a, rec, i) == prefix_cursor(cols, b, rec, i)
            &&& data_len(cols, a, rec, i) == data_len(cols, b, rec, i)
            &&& forall|j: int|
                0 <= j < i ==> #[trigger] col_info_at(cols, a, rec, j) == col_info_at(
                    cols,
                    b,
                    rec,
                    j,
                )
        }
    }
}

/// Two buffers that hold the same bytes in front of the data of a record
/// agree on its first `i` columns.
pub proof fn lemma_agree_up_to(cols: Seq<ColShape>, a: Seq<u8>, b: Seq<u8>, rec: int, i: int)
    requires
        5 <= rec <= a.len(),
        rec <= b.len(),
        a.subrange(0, rec) == b.subrange(0, rec),
        prefix_cursor(cols, a, rec, 0) >= 0,
        0 <= i <= cols.len(),
    ensures
        agree_up_to(cols, a, b, rec, i),
    decreases i,
{
    assert forall|x: int| 0 <= x < rec implies a[x] == b[x] by {
        assert(a.subrange(0, rec)[x] == a[x]);
        assert(b.subrange(0, rec)[x] == b[x]);
    }
    assert forall|j: int| 0 <= j < cols.len() implies #[trigger] col_is_null(cols, a, rec, j)
        == col_is_null(cols, b, rec, j) by {
        lemma_nullable_count_monotone(cols, 0, j);
        lemma_nullable_count_monotone(cols, j + 1, cols.len() as int);
        if cols[j].is_nullable {
            let k = nullable_count(cols, j);
            assert(0 <= rec - 6 - k / 8 < rec);
        }
    }
    if i > 0 {
        lemma_agree_up_to(cols, a, b, rec, i - 1);
        lemma_prefix_cursor_monotone(cols, a, rec, 0, i - 1);
        lemma_nullable_count_monotone(cols, 0, cols.len() as int);
        let ca = prefix_cursor(cols, a, rec, i - 1);
        let cb = prefix_cursor(cols, b, rec, i - 1);
        if ca >= 0 {
            assert(ca == cb);
            assert(ca <= rec - 5);
            if has_len_prefix(cols, a, rec, i - 1) {
                if ca >= 1 {
                    assert(a[ca - 1] == b[ca - 1]);
                    if ca >= 2 {
                        assert(a[ca - 2] == b[ca - 2]);
                    }
                }
            }
            if prefix_cursor(cols, a, rec, i) >= 0 {
                assert(col_info_at(cols, a, rec, i - 1) == col_info_at(cols, b, rec, i - 1));
            }
        }
    }
}

/// The bytes of the data of a record, and what lies behind them, have no
/// part in where its columns are found: two buffers that hold the same
/// bytes in front of the data give the same error, or the same start of
/// the prefix and the same columns.
pub proof fn lemma_prefix_ignores_data(cols: Seq<ColShape>, a: Seq<u8>, b: Seq<u8>, rec: int)
    requires
        0 <= rec <= a.len(),
        rec <= b.len(),
        a.subrange(0, rec) == b.subrange(0, rec),
    ensures
        prefix_error(cols, a, rec) == prefix_error(cols, b, rec),
        prefix_error(cols, a, rec) is None ==> prefix_cursor(cols, a, rec, cols.len() as int)
            == prefix_cursor(cols, b, rec, cols.len() as int) && col_infos(cols, a, rec)
            == col_infos(cols, b, rec),
{
    let n = cols.len() as int;
    if rec >= 5 && prefix_cursor(cols, a, rec, 0) >= 0 {
        lemma_agree_up_to(cols, a, b, rec, n);
        assert forall|j: int| 0 <= j < n implies #[trigger] col_is_unknown(cols, a, rec, j)
            == col_is_unknown(cols, b, rec, j) by {
            assert(col_is_null(cols, a, rec, j) == col_is_null(cols, b, rec, j));
        }
        if exists|j: int| 0 <= j < n && #[trigger] col_is_unknown(cols, a, rec, j) {
            let j = choose|j: int| 0 <= j < n && #[trigger] col_is_unknown(cols, a, rec, j);
            assert(col_is_unknown(cols, b, rec, j));
        }
        if exists|j: int| 0 <= j < n && #[trigger] col_is_unknown(cols, b, rec, j) {
            let j = choose|j: int| 0 <= j < n && #[trigger] col_is_unknown(cols, b, rec, j);
            assert(col_is_unknown(cols, a, rec, j));
        }
        if prefix_error(cols, a, rec) is None {
            assert(col_infos(cols, a, rec) =~= col_infos(cols, b, rec));
        }
    }
}

} // verus!

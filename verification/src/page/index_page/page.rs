use crate::buffer::{
    be_i16, be_u16, be_u64, bytes_as_slice, bytes_get_u16, bytes_len, bytes_seq, bytes_slice,
    read_be_i16,
};
use crate::error::DecodeError;
use crate::file_header::FileHeader;
use crate::page::base_page::InternalIndexPage;
use crate::page::index_page::format_flag::{record_format_of, RecordFormat};
use crate::page::index_page::header::{FSegHeader, IndexHeader};
use crate::page::index_page::records::new::layout::{
    col_info_at, col_infos, col_len, data_len, has_short_overflow, lemma_column_in_turn,
    lemma_columns_add_up, lemma_data_len_monotone, lemma_parsed_layout_ok, lemma_prefix_bounds,
    lemma_short_overflow_breaks_layout, lens_sum, prefix_cursor, row_error, shapes, ColInfo,
    ColShape,
};
use crate::page::index_page::records::new::row::Row as CompactRow;
use crate::page::index_page::records::Row;
use crate::tablespace::data_type::DataType;
use crate::tablespace::table::{Column, Index, TableInfo};
use bytes::Bytes;
use vstd::prelude::*;

verus! {

/// Where the data of the infimum record starts in the payload of an index
/// page: after the two headers and the record's own header.
pub const INFIMUM_POS: usize = 61;

/// Where the data of the supremum record starts.
pub const SUPREMUM_POS: usize = 74;

/// Where the user records start: after the two headers and the two
/// sentinel records.
pub const HEAP_START: usize = 82;

/// The index header of a payload.
pub open spec fn page_header(buf: Seq<u8>) -> Seq<u8> {
    buf.subrange(0, 36)
}

/// The level that the index header of a payload gives.
pub open spec fn page_level(buf: Seq<u8>) -> u16 {
    be_u16(page_header(buf).subrange(26, 28))
}

/// The number of slots that the index header of a payload gives.
pub open spec fn page_slots(buf: Seq<u8>) -> u16 {
    be_u16(page_header(buf).subrange(0, 2))
}

/// The number of records in the heap that the index header of a payload
/// gives.
pub open spec fn page_heap_num(buf: Seq<u8>) -> u16 {
    (be_u16(page_header(buf).subrange(4, 6)) % 0x8000) as u16
}

/// Whether the index header of a payload names the compact row format.
pub open spec fn page_is_compact(buf: Seq<u8>) -> bool {
    record_format_of(page_header(buf)[4] / 0x80) == RecordFormat::Compact
}

/// The number of user records to decode: all records of the heap but the
/// two sentinels; none where the row format is not the compact one.
pub open spec fn page_user_count(buf: Seq<u8>) -> nat {
    if page_is_compact(buf) && page_heap_num(buf) >= 2 {
        (page_heap_num(buf) - 2) as nat
    } else {
        0
    }
}

/// The columns of the records of a page: `inner` above the leaves, `leaf`
/// on level 0.
pub open spec fn page_columns(buf: Seq<u8>, inner: Seq<ColShape>, leaf: Seq<ColShape>) -> Seq<
    ColShape,
> {
    if page_level(buf) != 0 {
        inner
    } else {
        leaf
    }
}

/// Where the data of the record after the one at `pos` starts: the last two
/// bytes of a record's header hold the signed distance from the start of
/// its data to the start of the data of the next record.
pub open spec fn next_pos(buf: Seq<u8>, pos: int) -> int {
    pos + be_i16(buf.subrange(pos - 2, pos))
}

/// `done`, followed by the positions in `rest`, if there are any.
pub open spec fn prepend(done: Seq<int>, rest: Result<Seq<int>, DecodeError>) -> Result<
    Seq<int>,
    DecodeError,
> {
    match rest {
        Ok(s) => Ok(done + s),
        Err(e) => Err(e),
    }
}

/// The positions of the `n` records of the list that starts at `pos`, or
/// why the list cannot be walked: each record must be laid out without
/// error, and the supremum must come after exactly `n` records.
pub open spec fn walk(cols: Seq<ColShape>, buf: Seq<u8>, pos: int, n: nat) -> Result<
    Seq<int>,
    DecodeError,
>
    decreases n,
{
    if n == 0 {
        if pos == SUPREMUM_POS {
            Ok(Seq::empty())
        } else {
            Err(DecodeError::MalformedLength)
        }
    } else if pos == SUPREMUM_POS {
        Err(DecodeError::MalformedLength)
    } else if row_error(cols, buf, pos) is Some {
        Err(row_error(cols, buf, pos).unwrap())
    } else {
        prepend(seq![pos], walk(cols, buf, next_pos(buf, pos), (n - 1) as nat))
    }
}

/// Where the data of the last of the records at `positions` ends; the start
/// of the heap where there is none.
pub open spec fn walk_end(cols: Seq<ColShape>, buf: Seq<u8>, positions: Seq<int>) -> int {
    if positions.len() == 0 {
        HEAP_START as int
    } else {
        positions.last() + data_len(cols, buf, positions.last(), cols.len() as int)
    }
}

/// The positions of the user records of a payload, in list order; none
/// where the row format is not the compact one.
pub open spec fn page_positions(buf: Seq<u8>, inner: Seq<ColShape>, leaf: Seq<ColShape>) -> Result<
    Seq<int>,
    DecodeError,
> {
    if page_is_compact(buf) {
        walk(
            page_columns(buf, inner, leaf),
            buf,
            next_pos(buf, INFIMUM_POS as int),
            page_user_count(buf),
        )
    } else {
        Ok(Seq::empty())
    }
}

/// Why a payload cannot be decoded as a page of an index whose records
/// have the columns `inner` above the leaves and `leaf` on them, if it
/// cannot: it is too short for the headers and the sentinels, its record
/// list cannot be walked, or its page directory does not fit behind its
/// records.
pub open spec fn index_page_error(buf: Seq<u8>, inner: Seq<ColShape>, leaf: Seq<ColShape>) -> Option<
    DecodeError,
> {
    if buf.len() < HEAP_START {
        Some(DecodeError::MalformedLength)
    } else {
        match page_positions(buf, inner, leaf) {
            Err(e) => Some(e),
            Ok(positions) => if walk_end(page_columns(buf, inner, leaf), buf, positions) + 2
                * page_slots(buf) > buf.len() {
                Some(DecodeError::MalformedLength)
            } else {
                None
            },
        }
    }
}

/// Whether `row` is the record of `buf` whose data starts at `pos`.
pub open spec fn row_matches(row: Row<Bytes>, cols: Seq<ColShape>, buf: Seq<u8>, pos: int) -> bool {
    let start = prefix_cursor(cols, buf, pos, cols.len() as int);
    &&& row.inner().wf()
    &&& row.inner().info() == col_infos(cols, buf, pos)
    &&& row.inner().data_start() == pos - start
    &&& row.inner().bytes() == buf.subrange(start, pos + data_len(cols, buf, pos, cols.len() as int))
}

/// What is known of the one column of a sentinel record: eight bytes of
/// text.
pub open spec fn sentinel_info() -> Seq<ColInfo> {
    seq![(DataType::Char(8), 0u16, 8u16, false, false)]
}

/// Whether `row` is the sentinel record that takes the 13 bytes of `buf`
/// from `start`.
pub open spec fn sentinel_matches(row: Row<Bytes>, buf: Seq<u8>, start: int) -> bool {
    &&& row.inner().wf()
    &&& row.inner().info() == sentinel_info()
    &&& row.inner().data_start() == 5
    &&& row.inner().bytes() == buf.subrange(start, start + 13)
}

/// The entry of slot `i` of the page directory: the directory grows from
/// the end of the payload towards its start, two bytes for each slot.
pub open spec fn directory_entry(buf: Seq<u8>, i: int) -> u16 {
    be_u16(buf.subrange(buf.len() - 2 * (i + 1), buf.len() - 2 * i))
}

/// A walk that starts outside the payload fails.
pub proof fn lemma_walk_out_of_range(cols: Seq<ColShape>, buf: Seq<u8>, pos: int, n: nat)
    requires
        buf.len() >= HEAP_START,
        pos < 5 || pos > buf.len(),
    ensures
        walk(cols, buf, pos, n) == Err::<Seq<int>, DecodeError>(DecodeError::MalformedLength),
{
}

/// What a walk that succeeds has visited: as many records as asked for,
/// the first where the walk starts, each at the place that the record
/// before it names, none of them the supremum, each laid out without
/// error; and the last of them names the supremum as the next record.
pub proof fn lemma_walk_visits(cols: Seq<ColShape>, buf: Seq<u8>, pos: int, n: nat)
    requires
        walk(cols, buf, pos, n) is Ok,
    ensures
        ({
            let ps = walk(cols, buf, pos, n).unwrap();
            &&& ps.len() == n
            &&& n > 0 ==> ps[0] == pos
            &&& n == 0 ==> pos == SUPREMUM_POS
            &&& forall|k: int| 0 <= k < n ==> #[trigger] ps[k] != SUPREMUM_POS
            &&& forall|k: int| 0 <= k < n ==> row_error(cols, buf, #[trigger] ps[k]) is None
            &&& forall|k: int| 0 <= k < n - 1 ==> #[trigger] ps[k + 1] == next_pos(buf, ps[k])
            &&& n > 0 ==> next_pos(buf, ps[n - 1]) == SUPREMUM_POS
        }),
    decreases n,
{
    if n > 0 {
        let rest = walk(cols, buf, next_pos(buf, pos), (n - 1) as nat);
        lemma_walk_visits(cols, buf, next_pos(buf, pos), (n - 1) as nat);
        let ps = walk(cols, buf, pos, n).unwrap();
        let tail = rest.unwrap();
        assert(ps =~= seq![pos] + tail);
        assert forall|k: int| 0 <= k < n - 1 implies #[trigger] ps[k + 1] == next_pos(
            buf,
            ps[k],
        ) by {
            if k > 0 {
                assert(ps[k + 1] == tail[k]);
                assert(ps[k] == tail[k - 1]);
                assert(tail[k - 1 + 1] == next_pos(buf, tail[k - 1]));
            }
        }
        assert forall|k: int| 0 <= k < n implies #[trigger] ps[k] != SUPREMUM_POS by {
            if k > 0 {
                assert(ps[k] == tail[k - 1]);
            }
        }
        assert forall|k: int| 0 <= k < n implies row_error(cols, buf, #[trigger] ps[k])
            is None by {
            if k > 0 {
                assert(ps[k] == tail[k - 1]);
            }
        }
        if n > 1 {
            assert(ps[n - 1] == tail[n - 2]);
        }
    }
}

/// The signed distance to the next record that the header of the record at
/// `pos` holds.
pub fn next_record_at(buf: &[u8], pos: usize) -> (r: i16)
    requires
        2 <= pos <= buf@.len(),
    ensures
        pos + r == next_pos(buf@, pos as int),
{
    read_be_i16(buf, pos - 2)
}

/// The position `delta` bytes after `pos`, if it lies inside a payload of
/// `len` bytes.
pub fn advance(pos: usize, delta: i16, len: usize) -> (r: Option<usize>)
    requires
        pos <= len,
    ensures
        match r {
            Some(p) => p == pos + delta && p <= len,
            None => pos + delta < 0 || pos + delta > len,
        },
{
    if delta >= 0 {
        let d: usize = delta as usize;
        if d > len - pos {
            None
        } else {
            Some(pos + d)
        }
    } else {
        let d: usize = (0 - delta as i32) as usize;
        if d > pos {
            None
        } else {
            Some(pos - d)
        }
    }
}

/// Decodes the record of `buf` whose data starts at `pos`; returns it with
/// the position where its data ends. The place of the columns is read from
/// what lies in front of the data; the data must lie inside `buf`, and a
/// column that ends in an overflow pointer must be long enough to hold
/// one.
pub fn decode_record(columns: &Vec<Column>, buf: &Bytes, pos: usize) -> (r: Result<
    (Row<Bytes>, usize),
    DecodeError,
>)
    ensures
        match r {
            Ok((row, end)) => {
                &&& row_error(shapes(columns@), bytes_seq(*buf), pos as int) is None
                &&& row_matches(row, shapes(columns@), bytes_seq(*buf), pos as int)
                &&& end == pos + data_len(
                    shapes(columns@),
                    bytes_seq(*buf),
                    pos as int,
                    columns@.len() as int,
                )
            },
            Err(e) => row_error(shapes(columns@), bytes_seq(*buf), pos as int) == Some(e),
        },
{
    let ghost cols = shapes(columns@);
    let ghost bytes = bytes_seq(*buf);
    let (start, info) = match CompactRow::<Bytes>::parse_row_prefix(columns, pos, buf) {
        Ok(parsed) => parsed,
        Err(e) => {
            return Err(e);
        },
    };
    proof {
        lemma_prefix_bounds(cols, bytes, pos as int);
        lemma_columns_add_up(cols, bytes, pos as int);
    }
    let n = info.len();
    let total: usize = if n == 0 {
        0
    } else {
        let last = info[n - 1];
        proof {
            lemma_column_in_turn(cols, bytes, pos as int, n - 1);
        }
        last.1 as usize + last.2 as usize
    };
    assert(total == data_len(cols, bytes, pos as int, cols.len() as int));
    let len = bytes_len(buf);
    if total > len - pos {
        return Err(DecodeError::MalformedLength);
    }
    let end: usize = pos + total;
    let part = bytes_slice(buf, start, end);
    proof {
        if has_short_overflow(cols, bytes, pos as int) {
            lemma_short_overflow_breaks_layout(
                cols,
                bytes,
                pos as int,
                pos - start,
                end - start,
            );
        } else {
            lemma_parsed_layout_ok(cols, bytes, pos as int);
        }
    }
    match CompactRow::new(info, pos - start, part) {
        Ok(row) => Ok((Row::New(row), end)),
        Err(e) => Err(e),
    }
}

/// Walks the list of `num` user records that starts at `first`; returns the
/// records in list order, with the position where the data of the last one
/// ends.
pub fn walk_records(columns: &Vec<Column>, buf: &Bytes, first: usize, num: usize) -> (r: Result<
    (Vec<Row<Bytes>>, usize),
    DecodeError,
>)
    requires
        bytes_seq(*buf).len() >= HEAP_START,
        first <= bytes_seq(*buf).len(),
    ensures
        match r {
            Ok((rows, end)) => {
                &&& walk(shapes(columns@), bytes_seq(*buf), first as int, num as nat) is Ok
                &&& rows@.len() == num
                &&& forall|k: int|
                    0 <= k < num ==> row_matches(
                        #[trigger] rows@[k],
                        shapes(columns@),
                        bytes_seq(*buf),
                        walk(shapes(columns@), bytes_seq(*buf), first as int, num as nat).unwrap()[k],
                    )
                &&& end == walk_end(
                    shapes(columns@),
                    bytes_seq(*buf),
                    walk(shapes(columns@), bytes_seq(*buf), first as int, num as nat).unwrap(),
                )
            },
            Err(e) => walk(shapes(columns@), bytes_seq(*buf), first as int, num as nat) == Err::<
                Seq<int>,
                DecodeError,
            >(e),
        },
{
    let ghost cols = shapes(columns@);
    let ghost bytes = bytes_seq(*buf);
    let len = bytes_len(buf);
    let slice = bytes_as_slice(buf);
    let mut rows: Vec<Row<Bytes>> = Vec::new();
    let mut pos: usize = first;
    let mut end: usize = HEAP_START;
    let mut i: usize = 0;
    let ghost mut done: Seq<int> = Seq::empty();
    assert(prepend(done, walk(cols, bytes, pos as int, num as nat)) == walk(
        cols,
        bytes,
        first as int,
        num as nat,
    )) by {
        let w = walk(cols, bytes, first as int, num as nat);
        if w is Ok {
            assert(done + w.unwrap() =~= w.unwrap());
        }
    }
    while i < num
        invariant
            cols == shapes(columns@),
            bytes == bytes_seq(*buf),
            slice@ == bytes,
            len == bytes.len(),
            len >= HEAP_START,
            i <= num,
            pos <= len,
            walk(cols, bytes, first as int, num as nat) == prepend(
                done,
                walk(cols, bytes, pos as int, (num - i) as nat),
            ),
            done.len() == i,
            rows@.len() == i,
            forall|k: int| 0 <= k < i ==> row_matches(#[trigger] rows@[k], cols, bytes, done[k]),
            end == walk_end(cols, bytes, done),
        decreases num - i,
    {
        if pos == SUPREMUM_POS {
            return Err(DecodeError::MalformedLength);
        }
        match decode_record(columns, buf, pos) {
            Err(e) => {
                return Err(e);
            },
            Ok((row, row_end)) => {
                let delta = next_record_at(slice, pos);
                let ghost before = done;
                let ghost rest = walk(cols, bytes, next_pos(bytes, pos as int), (num - i - 1) as nat);
                proof {
                    done = done.push(pos as int);
                    assert(walk(cols, bytes, pos as int, (num - i) as nat) == prepend(
                        seq![pos as int],
                        rest,
                    ));
                    if rest is Ok {
                        assert(before + (seq![pos as int] + rest.unwrap()) =~= done
                            + rest.unwrap());
                    }
                    assert(done.last() == pos);
                }
                rows.push(row);
                end = row_end;
                match advance(pos, delta, len) {
                    None => {
                        proof {
                            lemma_walk_out_of_range(
                                cols,
                                bytes,
                                next_pos(bytes, pos as int),
                                (num - i - 1) as nat,
                            );
                        }
                        return Err(DecodeError::MalformedLength);
                    },
                    Some(p) => {
                        pos = p;
                    },
                }
            },
        }
        i += 1;
    }
    if pos != SUPREMUM_POS {
        return Err(DecodeError::MalformedLength);
    }
    proof {
        assert(done + Seq::<int>::empty() =~= done);
    }
    Ok((rows, end))
}

/// Reads the `slots` entries of the page directory, slot 0 first, from the
/// end of the payload.
pub fn read_page_directory(buf: &Bytes, slots: usize) -> (r: Vec<u16>)
    requires
        2 * slots <= bytes_seq(*buf).len(),
    ensures
        r@.len() == slots,
        forall|i: int| 0 <= i < slots ==> #[trigger] r@[i] == directory_entry(bytes_seq(*buf), i),
{
    let buf_len = bytes_len(buf);
    let mut page_directory: Vec<u16> = Vec::new();
    let mut slot: usize = 0;
    while slot < slots
        invariant
            slot <= slots,
            2 * slots <= buf_len,
            buf_len == bytes_seq(*buf).len(),
            page_directory@.len() == slot,
            forall|i: int|
                0 <= i < slot ==> #[trigger] page_directory@[i] == directory_entry(
                    bytes_seq(*buf),
                    i,
                ),
        decreases slots - slot,
    {
        let i1: usize = buf_len - 2 - slot * 2;
        let i2: usize = buf_len - slot * 2;
        let mut part = bytes_slice(buf, i1, i2);
        proof {
            assert(bytes_seq(part).subrange(0, 2) =~= bytes_seq(part));
        }
        let tmp = bytes_get_u16(&mut part);
        page_directory.push(tmp);
        slot += 1;
    }
    page_directory
}

/// An index page, decoded: its two headers, the two sentinel records, the
/// user records in list order, the free space between the records and the
/// page directory, and the page directory.
pub struct IndexPage {
    pub index: Index,
    pub index_header: IndexHeader<Bytes>,
    pub f_seg_header: FSegHeader<Bytes>,
    pub infimum: Row<Bytes>,
    pub supremum: Row<Bytes>,
    pub user_records: Vec<Row<Bytes>>,
    pub free_space: Bytes,
    pub page_directory: Vec<u16>,
}

impl IndexPage {
    /// The positions of the user records in the payload `buf`, read as a
    /// page of the index of this page.
    pub open spec fn positions(&self, buf: Seq<u8>) -> Seq<int> {
        page_positions(buf, shapes(self.index.indexes@), shapes(self.index.elements@)).unwrap()
    }

    /// Whether this is what the payload `buf` holds, read as a page of the
    /// index of this page.
    pub open spec fn decodes_payload(&self, buf: Seq<u8>) -> bool {
        let cols = page_columns(buf, shapes(self.index.indexes@), shapes(self.index.elements@));
        let positions = self.positions(buf);
        &&& self.index_header.wf()
        &&& self.index_header@ == page_header(buf)
        &&& self.f_seg_header.wf()
        &&& self.f_seg_header@ == buf.subrange(36, 56)
        &&& sentinel_matches(self.infimum, buf, 56)
        &&& sentinel_matches(self.supremum, buf, 69)
        &&& self.user_records@.len() == page_user_count(buf)
        &&& positions.len() == page_user_count(buf)
        &&& forall|k: int|
            0 <= k < self.user_records@.len() ==> row_matches(
                #[trigger] self.user_records@[k],
                cols,
                buf,
                positions[k],
            )
        &&& bytes_seq(self.free_space) == buf.subrange(
            walk_end(cols, buf, positions),
            buf.len() - 2 * page_slots(buf),
        )
        &&& self.page_directory@.len() == page_slots(buf)
        &&& forall|i: int|
            0 <= i < self.page_directory@.len() ==> #[trigger] self.page_directory@[i]
                == directory_entry(buf, i)
    }

    /// A page in the compact row format holds as many user records as its
    /// heap holds records besides the two sentinels.
    pub proof fn lemma_user_record_count(self, buf: Seq<u8>)
        requires
            self.decodes_payload(buf),
            page_is_compact(buf),
        ensures
            self.user_records@.len() == if page_heap_num(buf) >= 2 {
                page_heap_num(buf) - 2
            } else {
                0
            },
    {
    }

    /// The list of the records of a page in the compact row format leads
    /// from the infimum through the user records, in their order, to the
    /// supremum: the infimum names the first user record as the next one,
    /// each user record the one after it, and the last one the supremum; a
    /// page without user records has the infimum name the supremum. None
    /// of the user records is the supremum, and each of them is laid out
    /// without error.
    pub proof fn lemma_record_list(self, buf: Seq<u8>)
        requires
            index_page_error(buf, shapes(self.index.indexes@), shapes(self.index.elements@))
                is None,
            self.decodes_payload(buf),
            page_is_compact(buf),
        ensures
            ({
                let ps = self.positions(buf);
                let n = self.user_records@.len() as int;
                let cols = page_columns(
                    buf,
                    shapes(self.index.indexes@),
                    shapes(self.index.elements@),
                );
                &&& ps.len() == n
                &&& n > 0 ==> ps[0] == next_pos(buf, INFIMUM_POS as int)
                &&& n == 0 ==> next_pos(buf, INFIMUM_POS as int) == SUPREMUM_POS
                &&& forall|k: int| 0 <= k < n ==> #[trigger] ps[k] != SUPREMUM_POS
                &&& forall|k: int| 0 <= k < n ==> row_error(cols, buf, #[trigger] ps[k]) is None
                &&& forall|k: int| 0 <= k < n - 1 ==> #[trigger] ps[k + 1] == next_pos(buf, ps[k])
                &&& n > 0 ==> next_pos(buf, ps[n - 1]) == SUPREMUM_POS
            }),
    {
        lemma_walk_visits(
            page_columns(buf, shapes(self.index.indexes@), shapes(self.index.elements@)),
            buf,
            next_pos(buf, INFIMUM_POS as int),
            page_user_count(buf),
        );
    }

    /// The header of each user record of a decoded page names the record
    /// that comes after it in the list: the distance in the last two bytes
    /// of its header, added to the place of its data, gives the place of
    /// the data of the next user record, and for the last user record the
    /// place of the data of the supremum.
    pub proof fn lemma_record_links(self, buf: Seq<u8>, k: int)
        requires
            index_page_error(buf, shapes(self.index.indexes@), shapes(self.index.elements@))
                is None,
            self.decodes_payload(buf),
            page_is_compact(buf),
            0 <= k < self.user_records@.len(),
        ensures
            ({
                let row = self.user_records@[k].inner();
                let ps = self.positions(buf);
                ps[k] + be_i16(row.bytes().subrange(row.data_start() - 2, row.data_start())) == if k
                    + 1 < self.user_records@.len() {
                    ps[k + 1]
                } else {
                    SUPREMUM_POS as int
                }
            }),
    {
        let row = self.user_records@[k].inner();
        let ps = self.positions(buf);
        let cols = page_columns(buf, shapes(self.index.indexes@), shapes(self.index.elements@));
        self.lemma_record_list(buf);
        assert(row_error(cols, buf, ps[k]) is None);
        assert(row_matches(self.user_records@[k], cols, buf, ps[k]));
        lemma_row_header(self.user_records@[k], cols, buf, ps[k]);
        let header = row.bytes().subrange(row.data_start() - 5, row.data_start());
        assert(row.bytes().subrange(row.data_start() - 2, row.data_start()) =~= header.subrange(
            3,
            5,
        ));
        assert(buf.subrange(ps[k] - 5, ps[k]).subrange(3, 5) =~= buf.subrange(ps[k] - 2, ps[k]));
        if k + 1 < self.user_records@.len() {
            assert(ps[k + 1] == next_pos(buf, ps[k]));
        }
    }

    /// The page directory of a decoded page has as many entries as the
    /// index header counts slots, and entry `i` is the number that the two
    /// bytes `2 * (i + 1)` before the end of the payload spell.
    pub proof fn lemma_page_directory(self, buf: Seq<u8>, i: int)
        requires
            self.decodes_payload(buf),
            0 <= i < page_slots(buf),
        ensures
            self.page_directory@.len() == page_slots(buf),
            self.page_directory@[i] == be_u16(buf.subrange(buf.len() - 2 * (i + 1), buf.len() - 2 * i)),
    {
    }

    /// Decodes the payload of an index page (the page without its file
    /// header and trailer) as a page of `index`.
    ///
    /// The user records are found by following the list from the infimum,
    /// and there must be as many of them before the supremum as the heap
    /// holds besides the two sentinels. Of a page in the redundant row
    /// format no user record is decoded.
    pub fn new0(buf: Bytes, index: Index) -> (r: Result<IndexPage, DecodeError>)
        ensures
            match r {
                Ok(page) => {
                    &&& page.index == index
                    &&& index_page_error(
                        bytes_seq(buf),
                        shapes(index.indexes@),
                        shapes(index.elements@),
                    ) is None
                    &&& page.decodes_payload(bytes_seq(buf))
                },
                Err(e) => index_page_error(
                    bytes_seq(buf),
                    shapes(index.indexes@),
                    shapes(index.elements@),
                ) == Some(e),
            },
    {
        let ghost bytes = bytes_seq(buf);
        let len = bytes_len(&buf);
        if len < HEAP_START {
            return Err(DecodeError::MalformedLength);
        }
        let index_header = IndexHeader::new(bytes_slice(&buf, 0, 36)).unwrap();
        let f_seg_header = FSegHeader::new(bytes_slice(&buf, 36, 56)).unwrap();
        let infimum = sentinel(&buf, 56);
        let supremum = sentinel(&buf, 69);
        let compact = index_header.format_flag() == RecordFormat::Compact;
        let heap_num = index_header.heap_num();
        let num: usize = if compact && heap_num >= 2 {
            (heap_num - 2) as usize
        } else {
            0
        };
        assert(num == page_user_count(bytes));
        let level = index_header.level();
        assert(level == page_level(bytes));
        let mut user_records: Vec<Row<Bytes>> = Vec::new();
        let mut end: usize = HEAP_START;
        if compact {
            let columns = if level != 0 {
                &index.indexes
            } else {
                &index.elements
            };
            assert(shapes(columns@) == page_columns(
                bytes,
                shapes(index.indexes@),
                shapes(index.elements@),
            ));
            let delta = next_record_at(bytes_as_slice(&buf), INFIMUM_POS);
            match advance(INFIMUM_POS, delta, len) {
                None => {
                    proof {
                        lemma_walk_out_of_range(
                            shapes(columns@),
                            bytes,
                            next_pos(bytes, INFIMUM_POS as int),
                            num as nat,
                        );
                    }
                    return Err(DecodeError::MalformedLength);
                },
                Some(first) => {
                    match walk_records(columns, &buf, first, num) {
                        Err(e) => {
                            return Err(e);
                        },
                        Ok((rows, rows_end)) => {
                            proof {
                                lemma_walk_visits(shapes(columns@), bytes, first as int, num as nat);
                            }
                            user_records = rows;
                            end = rows_end;
                        },
                    }
                },
            }
        }
        let slots = index_header.slots() as usize;
        assert(slots == page_slots(bytes));
        if 2 * slots > len || end > len - 2 * slots {
            return Err(DecodeError::MalformedLength);
        }
        let empty_end: usize = len - slots * 2;
        let free_space = bytes_slice(&buf, end, empty_end);
        let page_directory = read_page_directory(&buf, slots);
        Ok(
            Self {
                index,
                index_header,
                f_seg_header,
                infimum,
                supremum,
                user_records,
                free_space,
                page_directory,
            },
        )
    }

    /// `Some(UnsupportedFormat)` for a page in the redundant row format,
    /// whose user records are not decoded.
    pub fn diagnostic(&self) -> (r: Option<DecodeError>)
        ensures
            r == if record_format_of(self.index_header@[4] / 0x80) == RecordFormat::Compact {
                None
            } else {
                Some(DecodeError::UnsupportedFormat)
            },
    {
        if self.index_header.format_flag() == RecordFormat::Compact {
            None
        } else {
            Some(DecodeError::UnsupportedFormat)
        }
    }
}

/// The id of the index that the index header of a payload names.
pub open spec fn page_index_id(buf: Seq<u8>) -> u64 {
    be_u64(page_header(buf).subrange(28, 36))
}

/// Whether two descriptions of an index say the same.
pub open spec fn same_index(a: Index, b: Index) -> bool {
    &&& a.index_id == b.index_id
    &&& a.root_page_num == b.root_page_num
    &&& a.name == b.name
    &&& a.is_primary == b.is_primary
    &&& a.indexes@ == b.indexes@
    &&& a.elements@ == b.elements@
}

impl InternalIndexPage for IndexPage {
    /// The payload must have room for the index header, the table must have
    /// the index that the header names, and the payload must decode as a
    /// page of that index.
    open spec fn payload_error(buf: Seq<u8>, indexes: Map<u64, Index>) -> Option<DecodeError> {
        if buf.len() < 36 {
            Some(DecodeError::MalformedLength)
        } else if !indexes.contains_key(page_index_id(buf)) {
            Some(DecodeError::UnknownEnum)
        } else {
            index_page_error(
                buf,
                shapes(indexes[page_index_id(buf)].indexes@),
                shapes(indexes[page_index_id(buf)].elements@),
            )
        }
    }

    open spec fn decodes(&self, buf: Seq<u8>, indexes: Map<u64, Index>) -> bool {
        &&& indexes.contains_key(page_index_id(buf))
        &&& same_index(self.index, indexes[page_index_id(buf)])
        &&& self.decodes_payload(buf)
    }

    fn new(buf: Bytes, fil_header: &FileHeader<Bytes>, table_info: &TableInfo) -> (r: Result<
        Self,
        DecodeError,
    >) {
        broadcast use vstd::std_specs::hash::group_hash_axioms;

        let len = bytes_len(&buf);
        if len < 36 {
            return Err(DecodeError::MalformedLength);
        }
        let index_header = IndexHeader::new(bytes_slice(&buf, 0, 36)).unwrap();
        let index_id = index_header.index_id();
        match table_info.indexes.get(&index_id) {
            None => Err(DecodeError::UnknownEnum),
            Some(index) => IndexPage::new0(buf, index.clone()),
        }
    }
}

/// The header of a record that was decoded is the five bytes of the
/// payload in front of its data.
pub proof fn lemma_row_header(row: Row<Bytes>, cols: Seq<ColShape>, buf: Seq<u8>, pos: int)
    requires
        row_error(cols, buf, pos) is None,
        row_matches(row, cols, buf, pos),
    ensures
        5 <= pos <= buf.len(),
        row.inner().info().len() == cols.len(),
        row.inner().bytes().subrange(row.inner().data_start() - 5, row.inner().data_start())
            == buf.subrange(pos - 5, pos),
{
    let inner = row.inner();
    lemma_parsed_layout_ok(cols, buf, pos);
    assert(inner.bytes().subrange(inner.data_start() - 5, inner.data_start()) =~= buf.subrange(
        pos - 5,
        pos,
    ));
}

/// Column `i` of a record that was decoded lies in the payload where the
/// columns before it end.
pub proof fn lemma_row_column(row: Row<Bytes>, cols: Seq<ColShape>, buf: Seq<u8>, pos: int, i: int)
    requires
        row_error(cols, buf, pos) is None,
        row_matches(row, cols, buf, pos),
        0 <= i < cols.len(),
    ensures
        row.inner().info()[i] == col_info_at(cols, buf, pos, i),
        row.inner().info()[i].2 == col_len(cols, buf, pos, i),
        row.inner().col_bytes(i) == buf.subrange(
            pos + data_len(cols, buf, pos, i),
            pos + data_len(cols, buf, pos, i) + col_len(cols, buf, pos, i),
        ),
{
    let n = cols.len() as int;
    let start = prefix_cursor(cols, buf, pos, n);
    let inner = row.inner();
    let off = data_len(cols, buf, pos, i);
    let len = col_len(cols, buf, pos, i);
    assert(0 <= start <= pos - 5 && 0 <= data_len(cols, buf, pos, n) <= 0xFFFF && pos + data_len(
        cols,
        buf,
        pos,
        n,
    ) <= buf.len()) by {
        lemma_parsed_layout_ok(cols, buf, pos);
    }
    lemma_data_len_monotone(cols, buf, pos, 0, i);
    lemma_data_len_monotone(cols, buf, pos, i, i + 1);
    lemma_data_len_monotone(cols, buf, pos, i + 1, n);
    assert(data_len(cols, buf, pos, i + 1) == off + len);
    assert(inner.info()[i] == col_info_at(cols, buf, pos, i));
    assert(inner.info()[i].1 == off);
    assert(inner.info()[i].2 == len);
    assert(inner.bytes().subrange(inner.data_start() + off, inner.data_start() + off + len)
        =~= buf.subrange(pos + off, pos + off + len));
}

/// The sentinel record that takes the 13 bytes of `buf` from `start`: a
/// header and eight bytes of text.
pub fn sentinel(buf: &Bytes, start: usize) -> (r: Row<Bytes>)
    requires
        start + 13 <= bytes_seq(*buf).len(),
    ensures
        sentinel_matches(r, bytes_seq(*buf), start as int),
{
    let mut info: Vec<ColInfo> = Vec::new();
    info.push((DataType::Char(8), 0, 8, false, false));
    proof {
        assert(info@ =~= sentinel_info());
        assert(lens_sum(info@, 0) == 0);
        assert(lens_sum(info@, 1) == 8);
    }
    let len = bytes_len(buf);
    assert(start + 13 <= len);
    let part = bytes_slice(buf, start, start + 13);
    Row::New(CompactRow::new(info, 5, part).unwrap())
}

} // verus!

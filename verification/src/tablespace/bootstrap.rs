use crate::buffer::{be_u32, be_u64, bytes_as_slice, bytes_seq, read_be_u32};
use crate::error::DecodeError;
use crate::page::base_page::{base_page_error, header_of, payload_of, BasePage};
use crate::page::index_page::page::{
    lemma_row_column, lemma_row_header, lemma_walk_visits, next_pos, page_is_compact, page_level,
    page_positions, page_user_count, row_matches, INFIMUM_POS,
};
use crate::page::index_page::records::new::layout::{col_len, col_overflow, data_len, row_error};
use crate::page::sdi_blob_page::{blob_data, blob_next_page, blob_part_len, SdiBlobPage};
use crate::page::sdi_page::{lemma_sdi_shapes, sdi_inner_shapes, sdi_leaf_shapes, SdiPage};
use crate::page::NO_PAGE;
use crate::tablespace::json::{json_of_text, parse_json};
use crate::tablespace::schema::{build_table_info, table_matches, table_of, TableModel};
use crate::tablespace::table::TableInfo;
use bytes::Bytes;
use std::io::Read;
use vstd::prelude::*;
use vstd::slice::slice_to_vec;

verus! {

/// The kind of the entries of the dictionary information that describe a
/// table.
pub const SDI_TYPE_TABLE: u32 = 1;

/// Where the search for the description of the table stands.
pub enum Bootstrap {
    /// On the way down to the leftmost leaf of the index of the dictionary
    /// information.
    Descend,
    /// On the leaves, looking for the entry of the table.
    Scan,
    /// Collecting the parts of the value of the entry, of which `bytes`
    /// have been read.
    Chain { bytes: Vec<u8> },
}

/// What the search does next.
pub enum Step {
    /// It needs the page `page_num`, and goes on from `state` with it.
    Read { state: Bootstrap, page_num: u32 },
    /// It is over: `packed` is the packed description of the table.
    Found { packed: Vec<u8> },
}

/// A state of the search, with the bytes read so far as a sequence.
pub enum StateModel {
    Descend,
    Scan,
    Chain { bytes: Seq<u8> },
}

/// A step of the search, with bytes as sequences.
pub enum StepModel {
    Read { state: StateModel, page_num: u32 },
    Found { packed: Seq<u8> },
}

impl View for Bootstrap {
    type V = StateModel;

    open spec fn view(&self) -> StateModel {
        match *self {
            Bootstrap::Descend => StateModel::Descend,
            Bootstrap::Scan => StateModel::Scan,
            Bootstrap::Chain { bytes } => StateModel::Chain { bytes: bytes@ },
        }
    }
}

impl View for Step {
    type V = StepModel;

    open spec fn view(&self) -> StepModel {
        match *self {
            Step::Read { state, page_num } => StepModel::Read { state: state@, page_num },
            Step::Found { packed } => StepModel::Found { packed: packed@ },
        }
    }
}

/// Whether the record of `buf` whose data starts at `pos` is marked as
/// deleted.
pub open spec fn is_deleted(buf: Seq<u8>, pos: int) -> bool {
    (buf[pos - 5] / 32) % 2 == 1
}

/// The first of the records at `positions` from `from` on that is not
/// deleted; their number if there is none.
pub open spec fn first_live(buf: Seq<u8>, positions: Seq<int>, from: int) -> int
    decreases positions.len() - from,
{
    if from >= positions.len() {
        positions.len() as int
    } else if !is_deleted(buf, positions[from]) {
        from
    } else {
        first_live(buf, positions, from + 1)
    }
}

/// Whether the record of a leaf at `pos` is an entry that is not deleted
/// and describes a table.
pub open spec fn is_table_entry(buf: Seq<u8>, pos: int) -> bool {
    !is_deleted(buf, pos) && be_u32(buf.subrange(pos, pos + 4)) == SDI_TYPE_TABLE
}

/// The first of the records at `positions` from `from` on that is an entry
/// of a table; their number if there is none.
pub open spec fn first_table_entry(buf: Seq<u8>, positions: Seq<int>, from: int) -> int
    decreases positions.len() - from,
{
    if from >= positions.len() {
        positions.len() as int
    } else if is_table_entry(buf, positions[from]) {
        from
    } else {
        first_table_entry(buf, positions, from + 1)
    }
}

/// The number of the child page in the record of an inner page at `pos`:
/// the third column, after the kind (4 bytes) and the id (8 bytes).
pub open spec fn child_page(buf: Seq<u8>, pos: int) -> u32 {
    be_u32(buf.subrange(pos + 12, pos + 16))
}

/// Where the value starts in the data of an entry: after the kind, the id,
/// the transaction id, the roll pointer and the two lengths.
pub const SDI_VALUE_OFFSET: usize = 33;

/// What follows when `bytes` of the value have been read and `next` is the
/// page with the next part: the search is over where there is no next
/// page.
pub open spec fn follow(bytes: Seq<u8>, next: u32) -> StepModel {
    if next == NO_PAGE {
        StepModel::Found { packed: bytes }
    } else {
        StepModel::Read { state: StateModel::Chain { bytes }, page_num: next }
    }
}

/// What follows the entry at `pos`: where the value lies in the record,
/// the search is over; where it ends in an overflow pointer, the bytes
/// before the pointer are the start of the value, and the rest is read
/// from the page that the pointer names.
pub open spec fn value_step(buf: Seq<u8>, pos: int) -> StepModel {
    let start = pos + SDI_VALUE_OFFSET;
    let len = col_len(sdi_leaf_shapes(), buf, pos, 6);
    if col_overflow(sdi_leaf_shapes(), buf, pos, 6) {
        follow(
            buf.subrange(start, start + len - 20),
            be_u32(buf.subrange(start + len - 20, start + len).subrange(4, 8)),
        )
    } else {
        StepModel::Found { packed: buf.subrange(start, start + len) }
    }
}

/// The positions of the user records of a payload of the index of the
/// dictionary information.
pub open spec fn sdi_positions(payload: Seq<u8>) -> Seq<int> {
    page_positions(payload, sdi_inner_shapes(), sdi_leaf_shapes()).unwrap()
}

/// What the search does with the page `page` in the state `state`.
///
/// While it collects a value, the page is a part of the value: its data
/// are added to the bytes read, and it names the next part.
///
/// Else the page is one of the index of the dictionary information. On the
/// way down, an inner page sends the search to the child of its first
/// record that is not deleted. A leaf is searched for the first entry that
/// is not deleted and describes a table; where it has none, the search
/// goes on with the next leaf. The search fails where an inner page has no
/// record to follow, where the leaves are exhausted, and where a page that
/// should be a leaf is none.
#[verifier::opaque]
pub open spec fn step_of(state: StateModel, page: Seq<u8>) -> Result<StepModel, DecodeError> {
    match state {
        StateModel::Chain { bytes } => match base_page_error::<SdiBlobPage>(page) {
            Some(e) => Err(e),
            None => Ok(
                follow(bytes + blob_data(payload_of(page)), blob_next_page(payload_of(page))),
            ),
        },
        _ => match base_page_error::<SdiPage>(page) {
            Some(e) => Err(e),
            None => {
                let payload = payload_of(page);
                let positions = sdi_positions(payload);
                if page_level(payload) != 0 {
                    let k = first_live(payload, positions, 0);
                    if state is Scan || k >= positions.len() {
                        Err(DecodeError::SchemaBootstrap)
                    } else {
                        Ok(
                            StepModel::Read {
                                state: StateModel::Descend,
                                page_num: child_page(payload, positions[k]),
                            },
                        )
                    }
                } else {
                    let k = first_table_entry(payload, positions, 0);
                    let next = be_u32(header_of(page).subrange(12, 16));
                    if k < positions.len() {
                        Ok(value_step(payload, positions[k]))
                    } else if next == NO_PAGE {
                        Err(DecodeError::SchemaBootstrap)
                    } else {
                        Ok(StepModel::Read { state: StateModel::Scan, page_num: next })
                    }
                }
            },
        },
    }
}

/// The text that `flate2` unpacks from zlib data, if the data are a zlib
/// stream of UTF-8 text.
pub uninterp spec fn zlib_text(data: Seq<u8>) -> Option<Seq<char>>;

/// `flate2::read::ZlibDecoder` over `data`, read to its end as text with
/// `Read::read_to_string`: the unpacked text, or `None` where the data are
/// no zlib stream or what they hold is no UTF-8. The result depends on the
/// data alone.
#[verifier::external_body]
pub(crate) fn inflate_text(data: &[u8]) -> (r: Option<String>)
    ensures
        match r {
            Some(text) => zlib_text(data@) == Some(text@),
            None => zlib_text(data@) is None,
        },
{
    let mut decoder = flate2::read::ZlibDecoder::new(data);
    let mut out = String::new();
    match decoder.read_to_string(&mut out) {
        Ok(_) => Some(out),
        Err(_) => None,
    }
}

/// The table that the text `text` describes, if it is JSON that describes
/// one.
pub open spec fn table_of_text(text: Seq<char>) -> Option<TableModel> {
    match json_of_text(text) {
        Some(json) => table_of(json),
        None => None,
    }
}

/// The table that the packed description `packed` describes.
pub open spec fn table_of_packed(packed: Seq<u8>) -> Option<TableModel> {
    match zlib_text(packed) {
        Some(text) => table_of_text(text),
        None => None,
    }
}

/// Builds the description of a table from the text of its dictionary
/// information.
pub fn table_from_text(text: &str) -> (r: Result<TableInfo, DecodeError>)
    ensures
        match r {
            Ok(table) => table_of_text(text@) is Some && table_matches(
                table,
                table_of_text(text@).unwrap(),
            ),
            Err(e) => e == DecodeError::SchemaBootstrap && table_of_text(text@) is None,
        },
{
    match parse_json(text) {
        Some(json) => build_table_info(&json),
        None => Err(DecodeError::SchemaBootstrap),
    }
}

/// Builds the description of a table from its packed dictionary
/// information.
pub fn table_from_packed(packed: &[u8]) -> (r: Result<TableInfo, DecodeError>)
    ensures
        match r {
            Ok(table) => table_of_packed(packed@) is Some && table_matches(
                table,
                table_of_packed(packed@).unwrap(),
            ),
            Err(e) => e == DecodeError::SchemaBootstrap && table_of_packed(packed@) is None,
        },
{
    match inflate_text(packed) {
        Some(text) => table_from_text(text.as_str()),
        None => Err(DecodeError::SchemaBootstrap),
    }
}

/// The bytes that the first `i` of the pages `pages` hold as parts of a
/// value, one part after the other.
pub open spec fn chain_bytes(pages: Seq<Seq<u8>>, i: int) -> Seq<u8>
    decreases i,
{
    if i <= 0 {
        Seq::empty()
    } else {
        chain_bytes(pages, i - 1) + blob_data(payload_of(pages[i - 1]))
    }
}

/// The number of bytes that the first `i` of the pages `pages` say their
/// parts have, taken together.
pub open spec fn chain_len(pages: Seq<Seq<u8>>, i: int) -> int
    decreases i,
{
    if i <= 0 {
        0
    } else {
        chain_len(pages, i - 1) + blob_part_len(payload_of(pages[i - 1]))
    }
}

/// The state of the search after the first `i` of the pages `pages` have
/// been read as the parts of a value of which `local` was read before, if
/// each of them can be decoded and names a next part.
pub open spec fn chain_state(local: Seq<u8>, pages: Seq<Seq<u8>>, i: int) -> StateModel {
    StateModel::Chain { bytes: local + chain_bytes(pages, i) }
}

/// The parts of a value that is read from a chain of pages add up to what
/// the pages say: where each page of the chain can be decoded, the bytes
/// read are as many as the lengths of the parts taken together. So where
/// these lengths add up to the length that an overflow pointer gives, the
/// value that is read from the chain has that length.
pub proof fn lemma_chain_length(pages: Seq<Seq<u8>>, i: int)
    requires
        0 <= i <= pages.len(),
        forall|k: int| 0 <= k < i ==> base_page_error::<SdiBlobPage>(#[trigger] pages[k]) is None,
    ensures
        chain_bytes(pages, i).len() == chain_len(pages, i),
    decreases i,
{
    if i > 0 {
        lemma_chain_length(pages, i - 1);
        assert(base_page_error::<SdiBlobPage>(pages[i - 1]) is None);
    }
}

/// The overflow pointer at the end of the value of the entry at `pos`.
pub open spec fn value_pointer(buf: Seq<u8>, pos: int) -> Seq<u8> {
    let end = pos + SDI_VALUE_OFFSET + col_len(sdi_leaf_shapes(), buf, pos, 6);
    buf.subrange(end - 20, end)
}

/// The bytes of the value of the entry at `pos` that lie in the record, in
/// front of its overflow pointer.
pub open spec fn value_in_record(buf: Seq<u8>, pos: int) -> Seq<u8> {
    let start = pos + SDI_VALUE_OFFSET;
    buf.subrange(start, start + col_len(sdi_leaf_shapes(), buf, pos, 6) - 20)
}

/// The value of an entry that ends in an overflow pointer is read from the
/// record and then from the chain of pages that starts at the page the
/// pointer names. Where the pages of the chain can be decoded and the
/// lengths of their parts add up to the length that the pointer gives,
/// what is read from the chain has the length that the pointer gives.
pub proof fn lemma_chain_has_pointer_length(buf: Seq<u8>, pos: int, pages: Seq<Seq<u8>>)
    requires
        col_overflow(sdi_leaf_shapes(), buf, pos, 6),
        forall|k: int|
            0 <= k < pages.len() ==> base_page_error::<SdiBlobPage>(#[trigger] pages[k]) is None,
        chain_len(pages, pages.len() as int) == be_u64(value_pointer(buf, pos).subrange(12, 20)),
    ensures
        value_step(buf, pos) == follow(
            value_in_record(buf, pos),
            be_u32(value_pointer(buf, pos).subrange(4, 8)),
        ),
        chain_bytes(pages, pages.len() as int).len() == be_u64(
            value_pointer(buf, pos).subrange(12, 20),
        ),
        chain_state(value_in_record(buf, pos), pages, pages.len() as int) == (StateModel::Chain {
            bytes: value_in_record(buf, pos) + chain_bytes(pages, pages.len() as int),
        }),
{
    lemma_chain_length(pages, pages.len() as int);
}

/// A step of the search on a part of a value adds the bytes of the part to
/// the bytes read: after the first `i + 1` pages of a chain the search has
/// read what it had read after `i` of them, and the part on the page after
/// these.
pub proof fn lemma_chain_step(local: Seq<u8>, pages: Seq<Seq<u8>>, i: int)
    requires
        0 <= i < pages.len(),
        base_page_error::<SdiBlobPage>(pages[i]) is None,
    ensures
        step_of(chain_state(local, pages, i), pages[i]) == Ok::<StepModel, DecodeError>(
            follow(local + chain_bytes(pages, i + 1), blob_next_page(payload_of(pages[i]))),
        ),
{
    reveal(step_of);
    assert((local + chain_bytes(pages, i)) + blob_data(payload_of(pages[i])) =~= local
        + chain_bytes(pages, i + 1));
}

/// Adds `other` to the end of `bytes`.
pub fn append_bytes(bytes: &mut Vec<u8>, other: &[u8])
    ensures
        final(bytes)@ == old(bytes)@ + other@,
{
    bytes.extend_from_slice(other);
    proof {
        assert(bytes@ =~= old(bytes)@ + other@);
    }
}

/// Where the columns of an entry of the dictionary information lie: the
/// kind takes the first four bytes, and the value starts after 33 bytes.
pub proof fn lemma_sdi_leaf_layout(buf: Seq<u8>, pos: int)
    ensures
        data_len(sdi_leaf_shapes(), buf, pos, 0) == 0,
        col_len(sdi_leaf_shapes(), buf, pos, 0) == 4,
        !col_overflow(sdi_leaf_shapes(), buf, pos, 0),
        data_len(sdi_leaf_shapes(), buf, pos, 6) == SDI_VALUE_OFFSET,
{
    reveal_with_fuel(data_len, 8);
}

/// Where the columns of a record of an inner page of the index of the
/// dictionary information lie: the number of the child page takes four
/// bytes after the first twelve.
pub proof fn lemma_sdi_inner_layout(buf: Seq<u8>, pos: int)
    ensures
        data_len(sdi_inner_shapes(), buf, pos, 2) == 12,
        col_len(sdi_inner_shapes(), buf, pos, 2) == 4,
        !col_overflow(sdi_inner_shapes(), buf, pos, 2),
{
    reveal_with_fuel(data_len, 4);
}

/// What follows when `bytes` of the value have been read and `next` is the
/// page with the next part.
pub fn follow_chain(bytes: Vec<u8>, next: u32) -> (r: Step)
    ensures
        r@ == follow(bytes@, next),
{
    if next == NO_PAGE {
        Step::Found { packed: bytes }
    } else {
        Step::Read { state: Bootstrap::Chain { bytes }, page_num: next }
    }
}

/// The step of the search in the state `Chain`: adds the part that the
/// page `buf` holds to the bytes read.
pub fn chain_step(bytes: Vec<u8>, buf: Bytes) -> (r: Result<Step, DecodeError>)
    ensures
        match r {
            Ok(s) => step_of(StateModel::Chain { bytes: bytes@ }, bytes_seq(buf)) == Ok::<
                StepModel,
                DecodeError,
            >(s@),
            Err(e) => step_of(StateModel::Chain { bytes: bytes@ }, bytes_seq(buf)) == Err::<
                StepModel,
                DecodeError,
            >(e),
        },
{
    reveal(step_of);
    let base = match BasePage::<SdiBlobPage>::new(buf) {
        Ok(base) => base,
        Err(e) => {
            return Err(e);
        },
    };
    let mut all = bytes;
    append_bytes(&mut all, bytes_as_slice(&base.page.data));
    Ok(follow_chain(all, base.page.next_page_num))
}

/// The step of the search on a page of the index of the dictionary
/// information: on the way down where `descending`, else on the leaves.
#[verifier::loop_isolation(false)]
pub fn tree_step(descending: bool, buf: Bytes) -> (r: Result<Step, DecodeError>)
    ensures
        match r {
            Ok(s) => step_of(
                if descending {
                    StateModel::Descend
                } else {
                    StateModel::Scan
                },
                bytes_seq(buf),
            ) == Ok::<StepModel, DecodeError>(s@),
            Err(e) => step_of(
                if descending {
                    StateModel::Descend
                } else {
                    StateModel::Scan
                },
                bytes_seq(buf),
            ) == Err::<StepModel, DecodeError>(e),
        },
{
    reveal(step_of);
    let ghost whole = bytes_seq(buf);
    let ghost payload = payload_of(whole);
    let ghost positions = sdi_positions(payload);
    let base = match BasePage::<SdiPage>::new(buf) {
        Ok(base) => base,
        Err(e) => {
            return Err(e);
        },
    };
    let page = &base.page.original;
    let level = page.index_header.level();
    let ghost cols = if level != 0 {
        sdi_inner_shapes()
    } else {
        sdi_leaf_shapes()
    };
    proof {
        lemma_sdi_shapes(page.index.indexes@, page.index.elements@);
        assert(positions == page.positions(payload));
        if page_is_compact(payload) {
            lemma_walk_visits(
                cols,
                payload,
                next_pos(payload, INFIMUM_POS as int),
                page_user_count(payload),
            );
        }
        assert forall|k: int| 0 <= k < positions.len() implies row_error(
            cols,
            payload,
            #[trigger] positions[k],
        ) is None by {}
    }
    let rows = &page.user_records;
    let n = rows.len();
    if level != 0 {
        if !descending {
            return Err(DecodeError::SchemaBootstrap);
        }
        let mut k: usize = 0;
        while k < n
            invariant
                k <= n,
                n == rows@.len(),
                n == positions.len(),
                cols == sdi_inner_shapes(),
                forall|j: int|
                    0 <= j < n ==> row_matches(#[trigger] rows@[j], cols, payload, positions[j]),
                forall|j: int| 0 <= j < n ==> row_error(cols, payload, #[trigger] positions[j]) is None,
                first_live(payload, positions, 0) == first_live(payload, positions, k as int),
            decreases n - k,
        {
            let row = rows[k].as_new();
            proof {
                lemma_row_header(rows@[k as int], cols, payload, positions[k as int]);
                lemma_row_column(rows@[k as int], cols, payload, positions[k as int], 2);
                lemma_sdi_inner_layout(payload, positions[k as int]);
            }
            if row.header().delete_mask() != 1 {
                let (data, _) = row.col(2);
                let child = read_be_u32(data, 0);
                proof {
                    assert(data@ == rows@[k as int].inner().col_bytes(2));
                    assert(data@.subrange(0, 4) =~= data@);
                }
                return Ok(Step::Read { state: Bootstrap::Descend, page_num: child });
            }
            k += 1;
        }
        Err(DecodeError::SchemaBootstrap)
    } else {
        let mut k: usize = 0;
        while k < n
            invariant
                k <= n,
                n == rows@.len(),
                n == positions.len(),
                cols == sdi_leaf_shapes(),
                forall|j: int|
                    0 <= j < n ==> row_matches(#[trigger] rows@[j], cols, payload, positions[j]),
                forall|j: int| 0 <= j < n ==> row_error(cols, payload, #[trigger] positions[j]) is None,
                first_table_entry(payload, positions, 0) == first_table_entry(
                    payload,
                    positions,
                    k as int,
                ),
            decreases n - k,
        {
            let row = rows[k].as_new();
            let ghost pos = positions[k as int];
            proof {
                lemma_row_header(rows@[k as int], cols, payload, pos);
                lemma_row_column(rows@[k as int], cols, payload, pos, 0);
                lemma_row_column(rows@[k as int], cols, payload, pos, 6);
                lemma_sdi_leaf_layout(payload, pos);
            }
            if row.header().delete_mask() != 1 {
                let (data, _) = row.col(0);
                proof {
                    assert(data@ == rows@[k as int].inner().col_bytes(0));
                    assert(data@.subrange(0, 4) =~= data@);
                }
                let sdi_type = read_be_u32(data, 0);
                if sdi_type == SDI_TYPE_TABLE {
                    assert(is_table_entry(payload, pos));
                    let (str_bytes, overflow_ptr) = row.col(6);
                    let ghost start = pos + SDI_VALUE_OFFSET;
                    let ghost len = col_len(cols, payload, pos, 6);
                    let ghost whole_col = payload.subrange(start, start + len);
                    assert(rows@[k as int].inner().col_bytes(6) == whole_col);
                    assert(first_table_entry(payload, positions, 0) == k);
                    match overflow_ptr {
                        Some(ptr) => {
                            let next = ptr.page_num();
                            proof {
                                assert(len >= 20);
                                assert(whole_col.subrange(0, len - 20) =~= payload.subrange(
                                    start,
                                    start + len - 20,
                                ));
                                assert(whole_col.subrange(len - 20, len) =~= payload.subrange(
                                    start + len - 20,
                                    start + len,
                                ));
                            }
                            return Ok(follow_chain(slice_to_vec(str_bytes), next));
                        },
                        None => {
                            return Ok(Step::Found { packed: slice_to_vec(str_bytes) });
                        },
                    }
                }
            }
            k += 1;
        }
        let next = base.fil_header.next();
        if next == NO_PAGE {
            Err(DecodeError::SchemaBootstrap)
        } else {
            Ok(Step::Read { state: Bootstrap::Scan, page_num: next })
        }
    }
}

/// The state in which the search starts, with the root page of the index
/// of the dictionary information.
pub fn start(page_num: u32) -> (r: Step)
    ensures
        r@ == (StepModel::Read { state: StateModel::Descend, page_num }),
{
    Step::Read { state: Bootstrap::Descend, page_num }
}

/// One step of the search for the description of the table: `buf` is the
/// page that the step before asked for.
pub fn step(state: Bootstrap, buf: Bytes) -> (r: Result<Step, DecodeError>)
    ensures
        match r {
            Ok(s) => step_of(state@, bytes_seq(buf)) == Ok::<StepModel, DecodeError>(s@),
            Err(e) => step_of(state@, bytes_seq(buf)) == Err::<StepModel, DecodeError>(e),
        },
{
    match state {
        Bootstrap::Chain { bytes } => chain_step(bytes, buf),
        Bootstrap::Descend => tree_step(true, buf),
        Bootstrap::Scan => tree_step(false, buf),
    }
}

} // verus!

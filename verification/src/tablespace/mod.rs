use crate::buffer::{bytes_len, bytes_seq, bytes_slice};
use crate::error::DecodeError;
use crate::page::base_page::{base_page_error, header_of, payload_of, BasePage, InternalPage};
use crate::page::hdr_page::page::FspHdrPage;
use crate::page::{page, page_decodes, page_error, PageEnums};
use crate::tablespace::bootstrap::{
    step, step_of, table_from_packed, table_of_packed, Bootstrap, StateModel, Step,
    StepModel,
};
use crate::tablespace::schema::table_matches;
use crate::tablespace::table::{Index, TableInfo};
use bytes::Bytes;
use vstd::prelude::*;
use vstd::std_specs::iter::IteratorSpec;

pub mod bootstrap;
pub mod data_type;
pub mod json;
pub mod private_data;
pub mod schema;
pub mod table;

verus! {

/// The number of bytes of a page.
pub const PAGE_SIZE: usize = 16384;

/// The page on which the index of the dictionary information starts.
pub const SDI_ROOT_PAGE: u32 = 3;

/// A tablespace: the file of one table, with the description of the table
/// that the file itself holds.
pub struct TableSpace {
    pub table_info: TableInfo,
    pub idb_file_path: String,
}

/// Where page `page_num` starts in the file.
pub open spec fn page_start(page_num: u32) -> int {
    page_num * PAGE_SIZE
}

/// The bytes of page `page_num` of a file with the bytes `image`, if the
/// file is long enough to hold the page.
pub open spec fn page_at(image: Seq<u8>, page_num: u32) -> Option<Seq<u8>> {
    if page_start(page_num) + PAGE_SIZE <= image.len() {
        Some(image.subrange(page_start(page_num), page_start(page_num) + PAGE_SIZE))
    } else {
        None
    }
}

/// The number of whole pages of a file with the bytes `image`.
pub open spec fn page_count(image: Seq<u8>) -> nat {
    image.len() / (PAGE_SIZE as nat)
}

/// The packed description of the table that the search finds in the file
/// `image`, when it goes on from `state` with page `page_num` and may take
/// `fuel` more steps. The search fails with `Io` where it is sent to a page
/// that the file does not hold, and with `SchemaBootstrap` where its steps
/// are used up.
pub open spec fn search(image: Seq<u8>, state: StateModel, page_num: u32, fuel: nat) -> Result<
    Seq<u8>,
    DecodeError,
>
    decreases fuel,
{
    match page_at(image, page_num) {
        None => Err(DecodeError::Io(page_num)),
        Some(page) => if fuel == 0 {
            Err(DecodeError::SchemaBootstrap)
        } else {
            match step_of(state, page) {
                Err(e) => Err(e),
                Ok(StepModel::Found { packed }) => Ok(packed),
                Ok(StepModel::Read { state: next, page_num: next_page }) => search(
                    image,
                    next,
                    next_page,
                    (fuel - 1) as nat,
                ),
            }
        },
    }
}

/// Whether `entry` is the name and the root page of one of `indexes`.
pub open spec fn lists_index(entry: (String, u32), indexes: Map<u64, Index>) -> bool {
    exists|id: u64| #[trigger]
        indexes.contains_key(id) && entry.0 == indexes[id].name && entry.1
            == indexes[id].root_page_num
}

/// Whether one of `entries` is the name and the root page of `index`.
pub open spec fn is_listed(index: Index, entries: Seq<(String, u32)>) -> bool {
    exists|i: int|
        0 <= i < entries.len() && (#[trigger] entries[i]).0 == index.name && entries[i].1
            == index.root_page_num
}

/// Where page `page_num` starts in a file of `file_len` bytes; the error
/// `Io` where the file is too short to hold the page.
pub fn locate_page(file_len: u64, page_num: u32) -> (r: Result<u64, DecodeError>)
    ensures
        match r {
            Ok(offset) => offset == page_start(page_num) && offset + PAGE_SIZE <= file_len,
            Err(e) => e == DecodeError::Io(page_num) && page_start(page_num) + PAGE_SIZE > file_len,
        },
{
    let offset: u64 = page_num as u64 * 16384;
    if offset + 16384 <= file_len {
        Ok(offset)
    } else {
        Err(DecodeError::Io(page_num))
    }
}

/// The number of steps that the search may take in a file of `file_len`
/// bytes: one for each whole page of the file. A search that needs more
/// walks in a circle.
pub fn step_budget(file_len: u64) -> (r: u64)
    ensures
        r == file_len as int / PAGE_SIZE as int,
{
    file_len / 16384
}

/// One step of a search that may take `left` more steps, with the page
/// `buf` that the step before asked for: the step that `step` takes, with
/// the number of steps that may follow it; the error `SchemaBootstrap`
/// where no step is left.
pub fn bounded_step(state: Bootstrap, buf: Bytes, left: u64) -> (r: Result<
    (Step, u64),
    DecodeError,
>)
    ensures
        match r {
            Ok((next, after)) => left > 0 && after == left - 1 && step_of(state@, bytes_seq(buf))
                == Ok::<StepModel, DecodeError>(next@),
            Err(e) => if left == 0 {
                e == DecodeError::SchemaBootstrap
            } else {
                step_of(state@, bytes_seq(buf)) == Err::<StepModel, DecodeError>(e)
            },
        },
{
    if left == 0 {
        return Err(DecodeError::SchemaBootstrap);
    }
    match step(state, buf) {
        Ok(next) => Ok((next, left - 1)),
        Err(e) => Err(e),
    }
}

/// Searches the file `image` for the description of its table, from the
/// page `page_num` on which the index of the dictionary information
/// starts. The search takes at most as many steps as the file has pages:
/// a search that needs more walks in a circle.
pub fn read_table_info(image: &Bytes, page_num: u32) -> (r: Result<TableInfo, DecodeError>)
    ensures
        match search(
            bytes_seq(*image),
            StateModel::Descend,
            page_num,
            page_count(bytes_seq(*image)),
        ) {
            Err(e) => r == Err::<TableInfo, DecodeError>(e),
            Ok(packed) => match r {
                Ok(table) => table_of_packed(packed) is Some && table_matches(
                    table,
                    table_of_packed(packed).unwrap(),
                ),
                Err(e) => e == DecodeError::SchemaBootstrap && table_of_packed(packed) is None,
            },
        },
{
    let ghost bytes = bytes_seq(*image);
    let total: u64 = step_budget(bytes_len(image) as u64);
    let mut fuel: u64 = total;
    let mut state = Bootstrap::Descend;
    let mut next: u32 = page_num;
    loop
        invariant
            bytes == bytes_seq(*image),
            total == page_count(bytes),
            search(bytes, StateModel::Descend, page_num, total as nat) == search(
                bytes,
                state@,
                next,
                fuel as nat,
            ),
        decreases fuel,
    {
        let buf = match TableSpace::read_page_(image, next) {
            Ok(buf) => buf,
            Err(e) => {
                return Err(e);
            },
        };
        match bounded_step(state, buf, fuel) {
            Err(e) => {
                return Err(e);
            },
            Ok((Step::Found { packed }, _)) => {
                return table_from_packed(packed.as_slice());
            },
            Ok((Step::Read { state: after, page_num: wanted }, left)) => {
                state = after;
                next = wanted;
                fuel = left;
            },
        }
    }
}

impl TableSpace {
    /// The tablespace in the file `idb_file_path`, whose table
    /// `table_info` describes.
    pub fn new(idb_file_path: String, table_info: TableInfo) -> (r: Self)
        ensures
            r.table_info == table_info,
            r.idb_file_path == idb_file_path,
    {
        Self { table_info, idb_file_path }
    }

    /// Decodes the bytes of page 0, which describes the file space.
    pub fn fsp_page(&self, buf: Bytes) -> (r: Result<BasePage<FspHdrPage>, DecodeError>)
        ensures
            match r {
                Ok(base) => {
                    &&& base_page_error::<FspHdrPage>(bytes_seq(buf)) is None
                    &&& base.buf == buf
                    &&& base.framed()
                    &&& base.page.decodes(payload_of(bytes_seq(buf)), header_of(bytes_seq(buf)))
                },
                Err(e) => base_page_error::<FspHdrPage>(bytes_seq(buf)) == Some(e),
            },
    {
        BasePage::new(buf)
    }

    /// Decodes the bytes of a page of the tablespace.
    pub fn page(&self, buf: Bytes) -> (r: Result<PageEnums, DecodeError>)
        ensures
            match r {
                Ok(decoded) => page_error(bytes_seq(buf), self.table_info.indexes@) is None
                    && page_decodes(decoded, bytes_seq(buf), self.table_info.indexes@),
                Err(e) => page_error(bytes_seq(buf), self.table_info.indexes@) == Some(e),
            },
    {
        page(buf, &self.table_info)
    }

    /// The name and the root page of each index of the table, in no
    /// particular order: one entry for each index.
    pub fn index_roots(&self) -> (r: Vec<(String, u32)>)
        ensures
            r@.len() == self.table_info.indexes@.dom().len(),
            forall|i: int| 0 <= i < r@.len() ==> lists_index(#[trigger] r@[i], self.table_info.indexes@),
            forall|id: u64| #[trigger]
                self.table_info.indexes@.contains_key(id) ==> is_listed(
                    self.table_info.indexes@[id],
                    r@,
                ),
    {
        broadcast use vstd::std_specs::hash::group_hash_axioms;

        let mut v: Vec<(String, u32)> = Vec::new();
        let ghost mut walked: Seq<Index> = Seq::empty();
        let ghost all = self.table_info.indexes.values().remaining();
        for index in it: self.table_info.indexes.values()
            invariant
                it.seq() == all,
                v@.len() == it.index(),
                it.seq().unref().to_set() == self.table_info.indexes@.values(),
                walked == it.seq().unref().subrange(0, it.index() as int),
                it.index() <= it.seq().len(),
                forall|i: int|
                    0 <= i < v@.len() ==> lists_index(#[trigger] v@[i], self.table_info.indexes@),
                forall|i: int|
                    0 <= i < v@.len() ==> (#[trigger] v@[i]).0 == walked[i].name && v@[i].1
                        == walked[i].root_page_num,
        {
            let ghost before = v@;
            let ghost walked_before = walked;
            let entry = (index.name.clone(), index.root_page_num);
            proof {
                let seen = it.seq().unref();
                let at = it.index() as int;
                assert(seen[at] == *index);
                assert(seen.to_set().contains(seen[at]));
                assert(self.table_info.indexes@.values().contains(*index));
                let id = choose|id: u64|
                    self.table_info.indexes@.contains_key(id) && self.table_info.indexes@[id]
                        == *index;
                assert(self.table_info.indexes@.contains_key(id) && entry.0
                    == self.table_info.indexes@[id].name && entry.1
                    == self.table_info.indexes@[id].root_page_num);
                assert(lists_index(entry, self.table_info.indexes@));
                walked = walked.push(*index);
                assert(walked =~= seen.subrange(0, at + 1));
            }
            v.push(entry);
            proof {
                assert forall|i: int| 0 <= i < v@.len() implies lists_index(
                    #[trigger] v@[i],
                    self.table_info.indexes@,
                ) by {
                    if i < before.len() {
                        assert(v@[i] == before[i]);
                    }
                }
                assert forall|i: int| 0 <= i < v@.len() implies (#[trigger] v@[i]).0
                    == walked[i].name && v@[i].1 == walked[i].root_page_num by {
                    if i < before.len() {
                        assert(v@[i] == before[i]);
                        assert(walked[i] == walked_before[i]);
                    }
                }
            }
        }
        proof {
            assert forall|id: u64| #[trigger]
                self.table_info.indexes@.contains_key(id) implies is_listed(
                self.table_info.indexes@[id],
                v@,
            ) by {
                let index = self.table_info.indexes@[id];
                assert(self.table_info.indexes@.values().contains(index));
                assert(walked =~= all.unref());
                assert(walked.to_set().contains(index));
                let i = choose|i: int| 0 <= i < walked.len() && walked[i] == index;
                assert(v@[i].0 == index.name && v@[i].1 == index.root_page_num);
            }
        }
        v
    }

    /// The index with the id `index_id`, if the table has one.
    pub fn index(&self, index_id: u64) -> (r: Option<&Index>)
        ensures
            match r {
                Some(index) => self.table_info.indexes@.contains_key(index_id) && *index
                    == self.table_info.indexes@[index_id],
                None => !self.table_info.indexes@.contains_key(index_id),
            },
    {
        broadcast use vstd::std_specs::hash::group_hash_axioms;

        self.table_info.indexes.get(&index_id)
    }

    /// The bytes of page `page_num` of the file with the bytes `image`.
    pub fn read_page(&self, image: &Bytes, page_num: u32) -> (r: Result<Bytes, DecodeError>)
        ensures
            match r {
                Ok(buf) => page_at(bytes_seq(*image), page_num) == Some(bytes_seq(buf)),
                Err(e) => e == DecodeError::Io(page_num) && page_at(bytes_seq(*image), page_num)
                    is None,
            },
    {
        TableSpace::read_page_(image, page_num)
    }

    /// The bytes of page `page_num` of the file with the bytes `image`: the
    /// 16384 bytes from `page_num` times 16384 on; the error `Io` where the
    /// file is too short to hold them.
    pub fn read_page_(image: &Bytes, page_num: u32) -> (r: Result<Bytes, DecodeError>)
        ensures
            match r {
                Ok(buf) => page_at(bytes_seq(*image), page_num) == Some(bytes_seq(buf)),
                Err(e) => e == DecodeError::Io(page_num) && page_at(bytes_seq(*image), page_num)
                    is None,
            },
    {
        let len = bytes_len(image);
        let pages: usize = len / PAGE_SIZE;
        if page_num as usize >= pages {
            return Err(DecodeError::Io(page_num));
        }
        let offset: usize = page_num as usize * PAGE_SIZE;
        Ok(bytes_slice(image, offset, offset + PAGE_SIZE))
    }
}

} // verus!

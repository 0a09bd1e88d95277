use bytes::Bytes;
use ibd_parser::error::DecodeError;
use ibd_parser::page::index_page::direction::Direction;
use ibd_parser::page::index_page::format_flag::RecordFormat;
use ibd_parser::page::index_page::page::{
    advance, decode_record, next_record_at, read_page_directory, sentinel, walk_records, IndexPage,
};
use ibd_parser::page::index_page::records::new::layout::ColInfo;
use ibd_parser::page::index_page::records::new::row::{
    count_nullable, decode_len_prefix, encode_len_prefix, test_bit, Row,
};
use ibd_parser::page::index_page::records::Row as AnyRow;
use ibd_parser::tablespace::data_type::DataType;
use ibd_parser::tablespace::table::{clone_columns, sdi_index, Column, Index};

const PAYLOAD_LEN: usize = 16338;

struct Rec {
    /// The length prefixes and the null bitmap, as they lie in front of
    /// the header.
    prefix: Vec<u8>,
    data: Vec<u8>,
    flags: u8,
    kind: u8,
}

fn rec(prefix: &[u8], data: &[u8]) -> Rec {
    Rec { prefix: prefix.to_vec(), data: data.to_vec(), flags: 0, kind: 0 }
}

fn put_u16(buf: &mut [u8], at: usize, v: u16) {
    buf[at..at + 2].copy_from_slice(&v.to_be_bytes());
}

fn put_header(buf: &mut [u8], at: usize, flags: u8, heap_no: u16, kind: u8, next: i16) {
    buf[at] = flags;
    put_u16(buf, at + 1, (heap_no << 3) | kind as u16);
    buf[at + 3..at + 5].copy_from_slice(&next.to_be_bytes());
}

/// The payload of an index page with the given records, linked in the
/// order given; returns it with the positions of the data of the records.
fn payload(level: u16, index_id: u64, recs: &[Rec], slots: &[u16]) -> (Vec<u8>, Vec<usize>) {
    let mut buf = vec![0u8; PAYLOAD_LEN];
    let mut positions = Vec::new();
    let mut cur = 82usize;
    for r in recs {
        buf[cur..cur + r.prefix.len()].copy_from_slice(&r.prefix);
        let pos = cur + r.prefix.len() + 5;
        buf[pos..pos + r.data.len()].copy_from_slice(&r.data);
        positions.push(pos);
        cur = pos + r.data.len();
    }
    for (i, r) in recs.iter().enumerate() {
        let next = if i + 1 < recs.len() { positions[i + 1] } else { 74 };
        let delta = next as i64 - positions[i] as i64;
        put_header(&mut buf, positions[i] - 5, r.flags, 2 + i as u16, r.kind, delta as i16);
    }
    let first = if recs.is_empty() { 74 } else { positions[0] };
    put_header(&mut buf, 56, 0x01, 0, 2, (first as i64 - 61) as i16);
    buf[61..69].copy_from_slice(b"infimum\0");
    put_header(&mut buf, 69, 0x01 + recs.len() as u8, 1, 3, 0);
    buf[74..82].copy_from_slice(b"supremum");
    put_u16(&mut buf, 0, slots.len() as u16);
    put_u16(&mut buf, 2, (38 + cur) as u16);
    put_u16(&mut buf, 4, 0x8000 | (2 + recs.len() as u16));
    put_u16(&mut buf, 12, 5);
    put_u16(&mut buf, 16, recs.len() as u16);
    put_u16(&mut buf, 26, level);
    buf[28..36].copy_from_slice(&index_id.to_be_bytes());
    for (i, s) in slots.iter().enumerate() {
        put_u16(&mut buf, PAYLOAD_LEN - 2 * (i + 1), *s);
    }
    (buf, positions)
}

fn col(name: &str, data_type: DataType, is_nullable: bool, position: u16) -> Column {
    Column::new(name.to_string(), data_type, is_nullable, false, position)
}

fn hidden(name: &str, data_type: DataType, position: u16) -> Column {
    Column::new(name.to_string(), data_type, false, true, position)
}

/// The index of a table with the key `id INT` and the other columns given.
fn index_of(others: Vec<Column>) -> Index {
    let id = col("id", DataType::Int, false, 1);
    let mut elements = vec![
        id.clone(),
        hidden("DB_TRX_ID", DataType::DbTrxId, 100),
        hidden("DB_ROLL_PTR", DataType::DbRollPtr, 101),
    ];
    elements.extend(others);
    let child = col("child_page_num", DataType::Int, false, 200);
    Index::new(155, 4, "PRIMARY".to_string(), true, vec![id, child], elements)
}

fn new_row(r: &AnyRow<Bytes>) -> &Row<Bytes> {
    r.as_new()
}

const TRX: [u8; 6] = [0, 0, 0, 0, 0x05, 0x01];
const ROLL: [u8; 7] = [0x81, 0, 0, 0, 0x8A, 0x01, 0x10];

fn leaf_data(id: u32, rest: &[u8]) -> Vec<u8> {
    let mut v = id.to_be_bytes().to_vec();
    v.extend_from_slice(&TRX);
    v.extend_from_slice(&ROLL);
    v.extend_from_slice(rest);
    v
}

#[test]
fn empty_table_single_page() {
    let (buf, _) = payload(0, 155, &[], &[112, 99]);
    let page = IndexPage::new0(Bytes::from(buf), index_of(vec![])).unwrap();
    assert_eq!(page.index_header.heap_num(), 2);
    assert_eq!(page.index_header.recs(), 0);
    assert_eq!(page.index_header.slots(), 2);
    assert_eq!(page.index_header.format_flag(), RecordFormat::Compact);
    assert_eq!(page.index_header.direction(), Direction::NoDirection);
    assert!(page.user_records.is_empty());
    assert_eq!(page.page_directory, vec![112, 99]);
    assert_eq!(page.diagnostic(), None);
    assert_eq!(new_row(&page.infimum).data(), b"infimum\0");
    assert_eq!(new_row(&page.supremum).data(), b"supremum");
    assert_eq!(new_row(&page.infimum).header().record_type(), 2);
    assert_eq!(new_row(&page.supremum).header().record_type(), 3);
    assert_eq!(new_row(&page.infimum).header().next_record(), 13);
    assert_eq!(new_row(&page.supremum).header().next_record(), 0);
    assert_eq!(page.free_space.len(), PAYLOAD_LEN - 82 - 4);
    assert_eq!(page.index.name, "PRIMARY");
}

#[test]
fn fixed_width_rows() {
    let v = col("v", DataType::Int, false, 2);
    let recs = [
        rec(&[], &leaf_data(1, &[0, 0, 0, 10])),
        rec(&[], &leaf_data(2, &[0, 0, 0, 20])),
        rec(&[], &leaf_data(3, &[0, 0, 0, 30])),
    ];
    let (buf, positions) = payload(0, 155, &recs, &[112, 99]);
    let page = IndexPage::new0(Bytes::from(buf), index_of(vec![v])).unwrap();
    assert_eq!(page.user_records.len(), 3);
    assert_eq!(page.user_records.len(), page.index_header.heap_num() as usize - 2);
    let mut at = 61i64 + new_row(&page.infimum).header().next_record() as i64;
    for (i, any) in page.user_records.iter().enumerate() {
        let row = new_row(any);
        assert_eq!(at, positions[i] as i64);
        assert_eq!(row.col(0).0, &(i as u32 + 1).to_be_bytes()[..]);
        assert!(row.col(0).1.is_none());
        assert_eq!(row.col(1).0, &TRX[..]);
        assert_eq!(row.col(2).0, &ROLL[..]);
        assert_eq!(row.col(3).0, &[0, 0, 0, 10 * (i as u8 + 1)][..]);
        assert_eq!(row.col_type(3).0, DataType::Int);
        assert_eq!(row.header().heap_no(), 2 + i as u16);
        assert_eq!(row.size(), 5 + 21);
        assert_eq!(row.data().len(), 21);
        let sum: usize = row.col_info().iter().map(|c| c.2 as usize).sum();
        assert_eq!(sum, row.data().len());
        at += row.header().next_record() as i64;
    }
    assert_eq!(at, 74);
    assert_eq!(page.free_space.len(), PAYLOAD_LEN - (82 + 3 * 26) - 4);
}

#[test]
fn nullable_and_variable_rows() {
    let s = col("s", DataType::Varchar, true, 2);
    let recs = [
        rec(&[2, 0x00], &leaf_data(1, b"hi")),
        rec(&[0x01], &leaf_data(2, b"")),
        rec(&[13, 0x00], &leaf_data(3, b"longer string")),
    ];
    let (buf, _) = payload(0, 155, &recs, &[112, 99]);
    let page = IndexPage::new0(Bytes::from(buf), index_of(vec![s])).unwrap();
    assert_eq!(page.user_records.len(), 3);
    let first = new_row(&page.user_records[0]);
    assert_eq!(first.col_info()[3], (DataType::Varchar, 17, 2, false, false));
    assert_eq!(first.col(3).0, b"hi");
    assert_eq!(first.buf()[..2], [2, 0]);
    let second = new_row(&page.user_records[1]);
    assert_eq!(second.col_info()[3], (DataType::Varchar, 17, 0, false, true));
    assert_eq!(second.col(3).0, b"");
    assert_eq!(second.data().len(), 17);
    assert_eq!(second.size(), 1 + 5 + 17);
    let third = new_row(&page.user_records[2]);
    assert_eq!(third.col_info()[3], (DataType::Varchar, 17, 13, false, false));
    assert_eq!(third.col(3).0, b"longer string");
    assert!(third.col_type(3).0.is_str());
}

#[test]
fn overflow_column() {
    let t = col("t", DataType::Text, false, 2);
    let mut pointer = Vec::new();
    pointer.extend_from_slice(&[0, 0, 0, 2]);
    pointer.extend_from_slice(&[0, 0, 0, 5]);
    pointer.extend_from_slice(&[0, 0, 0, 38]);
    pointer.extend_from_slice(&20480u64.to_be_bytes());
    let mut with_prefix = vec![0x61u8; 768];
    with_prefix.extend_from_slice(&pointer);
    let recs = [
        rec(&[0x14, 0xC0], &leaf_data(1, &pointer)),
        rec(&[0x14, 0xC3], &leaf_data(2, &with_prefix)),
    ];
    let (buf, _) = payload(0, 155, &recs, &[112, 99]);
    let page = IndexPage::new0(Bytes::from(buf), index_of(vec![t])).unwrap();
    let first = new_row(&page.user_records[0]);
    assert_eq!(first.col_info()[3], (DataType::Text, 17, 20, true, false));
    let (local, ptr) = first.col(3);
    assert_eq!(local.len(), 0);
    let ptr = ptr.unwrap();
    assert_eq!(ptr.len(), 20480);
    assert_eq!(ptr.page_num(), 5);
    assert_eq!(ptr.space_id(), 2);
    assert_eq!(ptr.buf, &pointer[..]);
    let second = new_row(&page.user_records[1]);
    assert_eq!(second.col_info()[3], (DataType::Text, 17, 788, true, false));
    let (data_type, local, ptr) = second.col_type(3);
    assert_eq!(data_type, DataType::Text);
    assert_eq!(local, &vec![0x61u8; 768][..]);
    assert_eq!(ptr.unwrap().len(), 20480);
    assert_eq!(&second.data()[second.data().len() - 20..], &pointer[..]);
}

#[test]
fn non_leaf_page() {
    let mut recs = Vec::new();
    for i in 0..4u32 {
        let mut data = (i * 100 + 1).to_be_bytes().to_vec();
        data.extend_from_slice(&(5 + i).to_be_bytes());
        let mut r = rec(&[], &data);
        r.kind = 1;
        if i == 0 {
            r.flags = 0x10;
        }
        recs.push(r);
    }
    let (buf, _) = payload(1, 155, &recs, &[112, 99]);
    let page = IndexPage::new0(Bytes::from(buf), index_of(vec![])).unwrap();
    assert!(page.index_header.level() > 0);
    assert_eq!(page.user_records.len(), 4);
    for (i, any) in page.user_records.iter().enumerate() {
        let row = new_row(any);
        assert_eq!(row.col_info().len(), 2);
        assert_eq!(row.col(0).0, &(i as u32 * 100 + 1).to_be_bytes()[..]);
        assert_eq!(row.col(1).0, &(5 + i as u32).to_be_bytes()[..]);
        assert_eq!(row.header().record_type(), 1);
        assert_eq!(row.header().min_rec_mask(), if i == 0 { 1 } else { 0 });
    }
}

#[test]
fn list_order_is_not_heap_order() {
    // Three records in the heap, linked as second, third, first.
    let recs = [
        rec(&[], &leaf_data(30, &[])),
        rec(&[], &leaf_data(10, &[])),
        rec(&[], &leaf_data(20, &[])),
    ];
    let (mut buf, positions) = payload(0, 155, &recs, &[112, 99]);
    let link = |buf: &mut Vec<u8>, from: usize, to: usize| {
        let delta = (to as i64 - from as i64) as i16;
        buf[from - 2..from].copy_from_slice(&delta.to_be_bytes());
    };
    link(&mut buf, 61, positions[1]);
    link(&mut buf, positions[1], positions[2]);
    link(&mut buf, positions[2], positions[0]);
    link(&mut buf, positions[0], 74);
    let page = IndexPage::new0(Bytes::from(buf), index_of(vec![])).unwrap();
    let ids: Vec<u32> = page
        .user_records
        .iter()
        .map(|r| u32::from_be_bytes(new_row(r).col(0).0.try_into().unwrap()))
        .collect();
    assert_eq!(ids, vec![10, 20, 30]);
    assert!(new_row(&page.user_records[1]).header().next_record() < 0);
    // the free space starts behind the record that comes last in the list
    assert_eq!(page.free_space.len(), PAYLOAD_LEN - (positions[0] + 17) - 4);
}

#[test]
fn supremum_before_the_heap_is_exhausted() {
    let recs = [rec(&[], &leaf_data(1, &[])), rec(&[], &leaf_data(2, &[]))];
    let (mut buf, _) = payload(0, 155, &recs, &[112, 99]);
    put_u16(&mut buf, 4, 0x8000 | 5);
    assert!(matches!(
        IndexPage::new0(Bytes::from(buf), index_of(vec![])),
        Err(DecodeError::MalformedLength)
    ));
}

#[test]
fn list_does_not_end_at_the_supremum() {
    let recs = [rec(&[], &leaf_data(1, &[])), rec(&[], &leaf_data(2, &[]))];
    let (mut buf, positions) = payload(0, 155, &recs, &[112, 99]);
    let pos = positions[1];
    buf[pos - 2..pos].copy_from_slice(&0i16.to_be_bytes());
    assert!(matches!(
        IndexPage::new0(Bytes::from(buf), index_of(vec![])),
        Err(DecodeError::MalformedLength)
    ));
}

#[test]
fn next_record_outside_the_page() {
    let recs = [rec(&[], &leaf_data(1, &[]))];
    let (mut buf, positions) = payload(0, 155, &recs, &[112, 99]);
    let pos = positions[0];
    buf[pos - 2..pos].copy_from_slice(&(-200i16).to_be_bytes());
    assert!(matches!(
        IndexPage::new0(Bytes::from(buf.clone()), index_of(vec![])),
        Err(DecodeError::MalformedLength)
    ));
    buf[pos - 2..pos].copy_from_slice(&i16::MAX.to_be_bytes());
    assert!(matches!(
        IndexPage::new0(Bytes::from(buf), index_of(vec![])),
        Err(DecodeError::MalformedLength)
    ));
}

#[test]
fn redundant_page_has_no_rows() {
    let recs = [rec(&[], &leaf_data(1, &[]))];
    let (mut buf, _) = payload(0, 155, &recs, &[112, 99]);
    put_u16(&mut buf, 4, 3);
    let page = IndexPage::new0(Bytes::from(buf), index_of(vec![])).unwrap();
    assert_eq!(page.index_header.format_flag(), RecordFormat::Redundant);
    assert_eq!(page.index_header.heap_num(), 3);
    assert!(page.user_records.is_empty());
    assert_eq!(page.diagnostic(), Some(DecodeError::UnsupportedFormat));
    assert_eq!(page.page_directory, vec![112, 99]);
}

#[test]
fn heap_num_below_two() {
    let (mut buf, _) = payload(0, 155, &[], &[112, 99]);
    put_u16(&mut buf, 4, 0x8000);
    let page = IndexPage::new0(Bytes::from(buf), index_of(vec![])).unwrap();
    assert_eq!(page.index_header.heap_num(), 0);
    assert!(page.user_records.is_empty());
}

#[test]
fn unknown_column_type_in_a_row() {
    let odd = col("odd", DataType::new(99, 4), false, 2);
    let recs = [rec(&[], &leaf_data(1, &[0, 0, 0, 1]))];
    let (buf, _) = payload(0, 155, &recs, &[112, 99]);
    assert!(matches!(
        IndexPage::new0(Bytes::from(buf), index_of(vec![odd])),
        Err(DecodeError::UnknownEnum)
    ));
}

#[test]
fn unknown_column_type_that_is_null() {
    let odd = col("odd", DataType::new(99, 4), true, 2);
    let recs = [rec(&[0x01], &leaf_data(1, &[]))];
    let (buf, _) = payload(0, 155, &recs, &[112, 99]);
    let page = IndexPage::new0(Bytes::from(buf), index_of(vec![odd])).unwrap();
    let row = new_row(&page.user_records[0]);
    assert_eq!(row.col_info()[3], (DataType::UnKnow(99, 4), 17, 0, false, true));
}

#[test]
fn payload_too_short() {
    assert!(matches!(
        IndexPage::new0(Bytes::from(vec![0u8; 81]), index_of(vec![])),
        Err(DecodeError::MalformedLength)
    ));
}

#[test]
fn smallest_payload() {
    let mut buf = vec![0u8; 82];
    put_u16(&mut buf, 4, 0x8002);
    put_header(&mut buf, 56, 1, 0, 2, 13);
    let page = IndexPage::new0(Bytes::from(buf), index_of(vec![])).unwrap();
    assert!(page.user_records.is_empty());
    assert!(page.page_directory.is_empty());
    assert_eq!(page.free_space.len(), 0);
}

#[test]
fn directory_does_not_fit() {
    let mut buf = vec![0u8; 82];
    put_u16(&mut buf, 0, 1);
    put_u16(&mut buf, 4, 0x8002);
    put_header(&mut buf, 56, 1, 0, 2, 13);
    assert!(matches!(
        IndexPage::new0(Bytes::from(buf), index_of(vec![])),
        Err(DecodeError::MalformedLength)
    ));
}

#[test]
fn page_directory_slots() {
    let (buf, _) = payload(0, 155, &[], &[112, 300, 99]);
    let bytes = Bytes::from(buf);
    assert_eq!(read_page_directory(&bytes, 3), vec![112, 300, 99]);
    assert_eq!(read_page_directory(&bytes, 1), vec![112]);
    assert_eq!(read_page_directory(&bytes, 0), Vec::<u16>::new());
    let page = IndexPage::new0(bytes, index_of(vec![])).unwrap();
    assert_eq!(page.page_directory.len(), page.index_header.slots() as usize);
    assert_eq!(page.page_directory[0], 112);
}

#[test]
fn walking_by_hand() {
    let recs = [rec(&[], &leaf_data(1, &[])), rec(&[], &leaf_data(2, &[]))];
    let (buf, positions) = payload(0, 155, &recs, &[112, 99]);
    let index = index_of(vec![]);
    let bytes = Bytes::from(buf.clone());
    assert_eq!(next_record_at(&buf, 61), (positions[0] - 61) as i16);
    assert_eq!(advance(61, next_record_at(&buf, 61), buf.len()), Some(positions[0]));
    assert_eq!(advance(10, -11, 100), None);
    assert_eq!(advance(10, -10, 100), Some(0));
    assert_eq!(advance(90, 10, 100), Some(100));
    assert_eq!(advance(90, 11, 100), None);
    let (row, end) = decode_record(&index.elements, &bytes, positions[0]).unwrap();
    assert_eq!(end, positions[0] + 17);
    assert_eq!(new_row(&row).col(0).0, &[0, 0, 0, 1][..]);
    let (rows, end) = walk_records(&index.elements, &bytes, positions[0], 2).unwrap();
    assert_eq!(rows.len(), 2);
    assert_eq!(end, positions[1] + 17);
    assert!(matches!(
        walk_records(&index.elements, &bytes, positions[0], 1),
        Err(DecodeError::MalformedLength)
    ));
    assert!(matches!(
        walk_records(&index.elements, &bytes, positions[0], 3),
        Err(DecodeError::MalformedLength)
    ));
    let (none, end) = walk_records(&index.elements, &bytes, 74, 0).unwrap();
    assert!(none.is_empty());
    assert_eq!(end, 82);
    let inf = sentinel(&bytes, 56);
    assert_eq!(new_row(&inf).col(0).0, b"infimum\0");
    assert_eq!(new_row(&inf).col_info()[0], (DataType::Char(8), 0, 8, false, false));
}

#[test]
fn length_prefix_forms() {
    assert_eq!(encode_len_prefix(0, false), vec![0]);
    assert_eq!(encode_len_prefix(2, false), vec![2]);
    assert_eq!(encode_len_prefix(127, false), vec![127]);
    assert_eq!(encode_len_prefix(128, false), vec![0x80, 0x80]);
    assert_eq!(encode_len_prefix(300, false), vec![0x2C, 0x81]);
    assert_eq!(encode_len_prefix(20, true), vec![0x14, 0xC0]);
    assert_eq!(encode_len_prefix(788, true), vec![0x14, 0xC3]);
    assert_eq!(encode_len_prefix(16383, true), vec![0xFF, 0xFF]);
    assert_eq!(decode_len_prefix(&[13], 1), Some((13, false, 0)));
    assert_eq!(decode_len_prefix(&[0x2C, 0x81], 2), Some((300, false, 0)));
    assert_eq!(decode_len_prefix(&[9, 9, 0x14, 0xC3], 4), Some((788, true, 2)));
    // a two-byte form may spell a short length
    assert_eq!(decode_len_prefix(&[5, 0x80], 2), Some((5, false, 0)));
    assert_eq!(decode_len_prefix(&[5, 0x80], 0), None);
    assert_eq!(decode_len_prefix(&[0x81], 1), None);
    assert_eq!(decode_len_prefix(&[5, 0x80], 1), Some((5, false, 0)));
}

#[test]
fn length_prefix_round_trip() {
    for overflow in [false, true] {
        for len in 0..0x4000u16 {
            let mut buf = vec![0xEEu8; 3];
            let encoded = encode_len_prefix(len, overflow);
            buf.extend_from_slice(&encoded);
            let end = buf.len();
            buf.push(0x55);
            assert_eq!(
                decode_len_prefix(&buf, end),
                Some((len as usize, overflow, end - encoded.len()))
            );
        }
    }
}

#[test]
fn bits_and_counts() {
    assert!(test_bit(0b0000_0001, 0));
    assert!(!test_bit(0b0000_0001, 1));
    assert!(test_bit(0b1000_0000, 7));
    assert!(!test_bit(0b0111_1111, 7));
    let columns = vec![
        col("a", DataType::Int, true, 1),
        col("b", DataType::Int, false, 2),
        col("c", DataType::Varchar, true, 3),
    ];
    assert_eq!(count_nullable(&columns), 2);
    assert_eq!(count_nullable(&Vec::new()), 0);
    assert_eq!(clone_columns(&columns).len(), 3);
    assert_eq!(clone_columns(&columns)[2].name, "c");
}

fn nine_nullable() -> Vec<Column> {
    (0..9).map(|i| col("n", DataType::Tinyint, true, i + 1)).collect()
}

#[test]
fn null_bitmap_of_two_bytes() {
    // columns 0 and 8 are null: bit 0 of the byte next to the header, and
    // bit 0 of the byte before it
    let mut buf = vec![0x01u8, 0x01];
    buf.extend_from_slice(&[0, 0, 0x10, 0, 0]);
    buf.extend_from_slice(&[1, 2, 3, 4, 5, 6, 7]);
    let (start, info) = Row::<Bytes>::parse_row_prefix(&nine_nullable(), 7, &Bytes::from(buf)).unwrap();
    assert_eq!(start, 0);
    let nulls: Vec<bool> = info.iter().map(|c| c.4).collect();
    assert_eq!(nulls, vec![true, false, false, false, false, false, false, false, true]);
    let offsets: Vec<u16> = info.iter().map(|c| c.1).collect();
    assert_eq!(offsets, vec![0, 0, 1, 2, 3, 4, 5, 6, 7]);
    let lens: Vec<u16> = info.iter().map(|c| c.2).collect();
    assert_eq!(lens, vec![0, 1, 1, 1, 1, 1, 1, 1, 0]);
}

#[test]
fn prefix_in_reverse_column_order() {
    // two variable columns: the prefix of the first lies next to the
    // header, that of the second in front of it
    let columns = vec![
        col("a", DataType::Varchar, false, 1),
        col("b", DataType::Text, false, 2),
    ];
    let mut buf = vec![0x2C, 0x81, 3];
    buf.extend_from_slice(&[0, 0, 0x10, 0, 0]);
    buf.extend_from_slice(&vec![7u8; 303]);
    let bytes = Bytes::from(buf);
    let (start, info) = Row::<Bytes>::parse_row_prefix(&columns, 8, &bytes).unwrap();
    assert_eq!(start, 0);
    assert_eq!(info, vec![
        (DataType::Varchar, 0, 3, false, false),
        (DataType::Text, 3, 300, false, false),
    ]);
    let row = Row::new(info, 8, bytes).unwrap();
    assert_eq!(row.col(0).0.len(), 3);
    assert_eq!(row.col(1).0.len(), 300);
    assert_eq!(row.header().heap_no(), 2);
}

#[test]
fn prefix_errors() {
    let columns = vec![col("a", DataType::Varchar, true, 1)];
    let ok = Bytes::from(vec![2u8, 0x00, 0, 0, 0, 0, 0, b'h', b'i']);
    assert!(Row::<Bytes>::parse_row_prefix(&columns, 7, &ok).is_ok());
    // the header does not fit in front of the data
    assert!(matches!(
        Row::<Bytes>::parse_row_prefix(&columns, 4, &ok),
        Err(DecodeError::MalformedLength)
    ));
    // the data start behind the end
    assert!(matches!(
        Row::<Bytes>::parse_row_prefix(&columns, 10, &ok),
        Err(DecodeError::MalformedLength)
    ));
    // no room for the null bitmap
    assert!(matches!(
        Row::<Bytes>::parse_row_prefix(&columns, 5, &ok),
        Err(DecodeError::MalformedLength)
    ));
    // no room for the length prefix
    assert!(matches!(
        Row::<Bytes>::parse_row_prefix(&columns, 6, &ok),
        Err(DecodeError::MalformedLength)
    ));
    // a fixed length that does not fit
    let wide = vec![col("w", DataType::Char(70000), false, 1)];
    assert!(matches!(
        Row::<Bytes>::parse_row_prefix(&wide, 5, &Bytes::from(vec![0u8; 5])),
        Err(DecodeError::MalformedLength)
    ));
}

#[test]
fn prefix_is_read_without_the_data() {
    let one = vec![col("a", DataType::Varchar, false, 1)];
    // a one-byte prefix and the header, and nothing behind them
    for n in 0..128u16 {
        let buf = Bytes::from(vec![n as u8, 0, 0, 0, 0, 0]);
        let (start, info) = Row::<Bytes>::parse_row_prefix(&one, 6, &buf).unwrap();
        assert_eq!(start, 0);
        assert_eq!(info, vec![(DataType::Varchar, 0, n, false, false)]);
    }
    // a two-byte prefix: the byte next to the header holds the marks and
    // the high bits, the byte before it the low bits
    for overflow in [false, true] {
        for n in 128..0x4000u16 {
            let near = 0x80 | if overflow { 0x40 } else { 0 } | (n >> 8) as u8;
            let buf = Bytes::from(vec![(n & 0xFF) as u8, near, 0, 0, 0, 0, 0]);
            let (start, info) = Row::<Bytes>::parse_row_prefix(&one, 7, &buf).unwrap();
            assert_eq!(start, 0);
            assert_eq!(info, vec![(DataType::Varchar, 0, n, overflow, false)]);
        }
    }
    // the overflow mark is no part of the length
    let two = vec![col("id", DataType::Int, false, 1), col("t", DataType::Text, false, 2)];
    let buf = Bytes::from(vec![0x14u8, 0xC3, 0, 0, 0, 0, 0]);
    assert_eq!(
        Row::<Bytes>::parse_row_prefix(&two, 7, &buf).unwrap(),
        (0, vec![(DataType::Int, 0, 4, false, false), (DataType::Text, 4, 788, true, false)])
    );
    // a short column with the overflow mark is read as it is written
    let buf = Bytes::from(vec![19u8, 0xC0, 0, 0, 0, 0, 0]);
    assert_eq!(
        Row::<Bytes>::parse_row_prefix(&one, 7, &buf).unwrap(),
        (0, vec![(DataType::Varchar, 0, 19, true, false)])
    );
    // nine nullable columns: two bytes of bitmap, the one next to the
    // header for the first eight
    let buf = Bytes::from(vec![0x01u8, 0x00, 0, 0, 0, 0, 0]);
    let (start, info) = Row::<Bytes>::parse_row_prefix(&nine_nullable(), 7, &buf).unwrap();
    assert_eq!(start, 0);
    for i in 0..8u16 {
        assert_eq!(info[i as usize], (DataType::Tinyint, i, 1, false, false));
    }
    assert_eq!(info[8], (DataType::Tinyint, 8, 0, false, true));
    // what lies behind the header changes nothing
    let short = Bytes::from(vec![1u8, 0, 0, 0, 0, 0]);
    let long = Bytes::from(vec![1u8, 0, 0, 0, 0, 0, 7]);
    assert_eq!(
        Row::<Bytes>::parse_row_prefix(&one, 6, &short).unwrap(),
        Row::<Bytes>::parse_row_prefix(&one, 6, &long).unwrap()
    );
    // fixed columns need no byte in front of the header
    let fixed = vec![col("a", DataType::Int, false, 1), col("b", DataType::Char(3), false, 2)];
    assert_eq!(
        Row::<Bytes>::parse_row_prefix(&fixed, 5, &Bytes::from(vec![0u8; 5])).unwrap(),
        (0, vec![(DataType::Int, 0, 4, false, false), (DataType::Char(3), 4, 3, false, false)])
    );
    // lengths that add up to 0xFFFF are read, one more is not
    let wide = vec![col("a", DataType::Char(0xFFFF), false, 1)];
    assert!(Row::<Bytes>::parse_row_prefix(&wide, 5, &Bytes::from(vec![0u8; 5])).is_ok());
    let wider = vec![col("a", DataType::Char(0xFFFF), false, 1), col("b", DataType::Tinyint, false, 2)];
    assert!(matches!(
        Row::<Bytes>::parse_row_prefix(&wider, 5, &Bytes::from(vec![0u8; 5])),
        Err(DecodeError::MalformedLength)
    ));
}

#[test]
fn record_needs_its_data() {
    let one = vec![col("a", DataType::Varchar, false, 1)];
    // the data lie in the buffer
    let whole = Bytes::from(vec![2u8, 0, 0, 0x10, 0, 0, b'h', b'i', 9]);
    let (row, end) = decode_record(&one, &whole, 6).unwrap();
    assert_eq!(end, 8);
    assert_eq!(new_row(&row).col(0).0, b"hi");
    assert_eq!(new_row(&row).size(), 8);
    // the data are longer than what is left
    let cut = Bytes::from(vec![2u8, 0, 0, 0x10, 0, 0, b'h']);
    assert!(Row::<Bytes>::parse_row_prefix(&one, 6, &cut).is_ok());
    assert!(matches!(decode_record(&one, &cut, 6), Err(DecodeError::MalformedLength)));
    // an overflow pointer needs 20 bytes
    let mut short = vec![19u8, 0xC0, 0, 0, 0x10, 0, 0];
    short.extend_from_slice(&[7u8; 19]);
    let short = Bytes::from(short);
    assert!(Row::<Bytes>::parse_row_prefix(&one, 7, &short).is_ok());
    assert!(matches!(decode_record(&one, &short, 7), Err(DecodeError::MalformedLength)));
    let mut long = vec![20u8, 0xC0, 0, 0, 0x10, 0, 0];
    long.extend_from_slice(&[7u8; 20]);
    let (row, end) = decode_record(&one, &Bytes::from(long), 7).unwrap();
    assert_eq!(end, 27);
    assert!(new_row(&row).col(0).1.is_some());
    // what stops the prefix stops the record
    assert!(matches!(decode_record(&one, &whole, 4), Err(DecodeError::MalformedLength)));
    let odd = vec![col("odd", DataType::new(99, 4), false, 1)];
    assert!(matches!(decode_record(&odd, &whole, 6), Err(DecodeError::UnknownEnum)));
}

#[test]
fn row_new_checks_the_layout() {
    let info: Vec<ColInfo> = vec![(DataType::Int, 0, 4, false, false), (DataType::Varchar, 4, 2, false, false)];
    let bytes = vec![2u8, 0, 0, 0x10, 0, 0, 0, 0, 0, 1, b'h', b'i'];
    let row = Row::new(info.clone(), 6, &bytes[..]).unwrap();
    assert_eq!(row.col_info(), &info);
    assert_eq!(row.size(), 12);
    assert_eq!(row.buf(), &bytes[..]);
    assert_eq!(row.data(), &bytes[6..]);
    assert_eq!(row.col(1).0, b"hi");
    // data start in front of the header
    assert!(matches!(Row::new(info.clone(), 4, &bytes[..]), Err(DecodeError::MalformedLength)));
    // the columns do not fill the data
    assert!(matches!(Row::new(info.clone(), 5, &bytes[..]), Err(DecodeError::MalformedLength)));
    assert!(matches!(Row::new(info.clone(), 7, &bytes[..]), Err(DecodeError::MalformedLength)));
    // a gap between two columns
    let gap: Vec<ColInfo> = vec![(DataType::Int, 0, 4, false, false), (DataType::Varchar, 5, 1, false, false)];
    assert!(matches!(Row::new(gap, 6, &bytes[..]), Err(DecodeError::MalformedLength)));
    // a null column with bytes
    let null: Vec<ColInfo> = vec![(DataType::Int, 0, 4, false, false), (DataType::Varchar, 4, 2, false, true)];
    assert!(matches!(Row::new(null, 6, &bytes[..]), Err(DecodeError::MalformedLength)));
    // an overflow column too short for a pointer
    let over: Vec<ColInfo> = vec![(DataType::Int, 0, 4, false, false), (DataType::Varchar, 4, 2, true, false)];
    assert!(matches!(Row::new(over, 6, &bytes[..]), Err(DecodeError::MalformedLength)));
}

#[test]
fn sdi_index_description() {
    let index = sdi_index(3);
    assert_eq!(index.index_id, u64::MAX);
    assert_eq!(index.root_page_num, 3);
    assert_eq!(index.name, "sdi_index");
    assert!(index.is_primary);
    assert_eq!(index.index_size(), 3);
    assert_eq!(index.elements_size(), 7);
    let names: Vec<&str> = index.elements.iter().map(|c| c.name.as_str()).collect();
    assert_eq!(
        names,
        vec!["sdi_type", "sdi_id", "DB_TRX_ID", "DB_ROLL_PTR", "sdi_uncomp_len", "sdi_comp_len", "sdi_value"]
    );
    let types: Vec<DataType> = index.elements.iter().map(|c| c.data_type).collect();
    assert_eq!(
        types,
        vec![
            DataType::Int,
            DataType::Bigint,
            DataType::DbTrxId,
            DataType::DbRollPtr,
            DataType::Int,
            DataType::Int,
            DataType::Varchar
        ]
    );
    let inner: Vec<&str> = index.indexes.iter().map(|c| c.name.as_str()).collect();
    assert_eq!(inner, vec!["sdi_type", "sdi_id", "child_page_num"]);
    assert_eq!(index.indexes[2].data_type, DataType::Int);
    assert!(index.elements.iter().all(|c| !c.is_nullable && !c.is_hidden));
    let positions: Vec<u16> = index.elements.iter().map(|c| c.ordinal_position).collect();
    assert_eq!(positions, vec![1, 2, 3, 4, 5, 6, 7]);
    assert_eq!(index.indexes[2].ordinal_position, 8);
    let copy = index.clone();
    assert_eq!(copy.name, index.name);
    assert_eq!(copy.elements.len(), 7);
}

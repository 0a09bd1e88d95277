use bytes::Bytes;
use ibd_parser::buffer::{read_be_i16, read_be_u16, read_be_u32, read_be_u64, sub_slice, ByteBuf};
use ibd_parser::error::DecodeError;
use ibd_parser::file_header::page_type::PageType;
use ibd_parser::file_header::FileHeader;
use ibd_parser::file_trailer::FileTrailer;
use ibd_parser::page::hdr_page::header::HdrFspHeader;
use ibd_parser::page::hdr_page::x_des_entry::XDesEntry;
use ibd_parser::page::index_page::direction::Direction;
use ibd_parser::page::index_page::format_flag::RecordFormat;
use ibd_parser::page::index_page::header::{FSegHeader, IndexHeader};
use ibd_parser::page::index_page::records::new::header::RecordHeader;
use ibd_parser::page::inode_page::inode_entry::InodeEntry;
use ibd_parser::page::{FilePointer, ListBaseNode, ListNode, OverflowPointer};

fn header_bytes() -> Vec<u8> {
    let mut v = vec![0u8; 38];
    v[0..4].copy_from_slice(&[0x12, 0x34, 0x56, 0x78]);
    v[4..8].copy_from_slice(&[0, 0, 0, 5]);
    v[8..12].copy_from_slice(&[0xFF, 0xFF, 0xFF, 0xFF]);
    v[12..16].copy_from_slice(&[0, 0, 0, 6]);
    v[16..24].copy_from_slice(&[0, 0, 0, 1, 0, 0, 0, 2]);
    v[24..26].copy_from_slice(&[0x45, 0xBF]);
    v[26..34].copy_from_slice(&[0, 0, 0, 0, 0, 0, 1, 0]);
    v[34..38].copy_from_slice(&[0, 0, 0, 9]);
    v
}

#[test]
fn big_endian_reads() {
    let b = [0x01u8, 0x02, 0x03, 0x04, 0x05, 0x06, 0x07, 0x08, 0xFF, 0xFE];
    assert_eq!(read_be_u16(&b, 0), 0x0102);
    assert_eq!(read_be_u16(&b, 8), 0xFFFE);
    assert_eq!(read_be_i16(&b, 8), -2);
    assert_eq!(read_be_i16(&b, 0), 0x0102);
    assert_eq!(read_be_u32(&b, 1), 0x02030405);
    assert_eq!(read_be_u64(&b, 0), 0x0102030405060708);
    assert_eq!(read_be_u64(&b, 2), 0x030405060708FFFE);
    assert_eq!(sub_slice(&b, 2, 5), &[3u8, 4, 5][..]);
}

#[test]
fn big_endian_extremes() {
    assert_eq!(read_be_i16(&[0x80, 0x00], 0), i16::MIN);
    assert_eq!(read_be_i16(&[0x7F, 0xFF], 0), i16::MAX);
    assert_eq!(read_be_i16(&[0xFF, 0xFF], 0), -1);
    assert_eq!(read_be_u32(&[0xFF; 4], 0), u32::MAX);
    assert_eq!(read_be_u64(&[0xFF; 8], 0), u64::MAX);
}

#[test]
fn byte_buffers_agree() {
    let v = vec![1u8, 2, 3];
    let b = Bytes::from(v.clone());
    let s: &[u8] = &v;
    assert_eq!(ByteBuf::as_slice(&b), &[1u8, 2, 3][..]);
    assert_eq!(ByteBuf::as_slice(&s), &[1u8, 2, 3][..]);
    assert_eq!(ByteBuf::as_slice(&v), &[1u8, 2, 3][..]);
}

#[test]
fn file_header_fields() {
    let h = FileHeader::new(Bytes::from(header_bytes())).unwrap();
    assert_eq!(h.check_sum(), 0x12345678);
    assert_eq!(h.offset(), 5);
    assert_eq!(h.prev(), 0xFFFF_FFFF);
    assert_eq!(h.next(), 6);
    assert_eq!(h.lsn(), 0x0000_0001_0000_0002);
    assert_eq!(h.page_type(), PageType::FilPageIndex);
    assert_eq!(h.flush_lsn(), 256);
    assert_eq!(h.space_id(), 9);
}

#[test]
fn file_header_over_a_slice() {
    let v = header_bytes();
    let h = FileHeader::new(&v[..]).unwrap();
    assert_eq!(h.offset(), 5);
    assert_eq!(h.page_type(), PageType::FilPageIndex);
}

#[test]
fn file_header_wrong_length() {
    assert!(matches!(
        FileHeader::new(Bytes::from(vec![0u8; 37])),
        Err(DecodeError::MalformedLength)
    ));
    assert!(matches!(
        FileHeader::new(Bytes::from(vec![0u8; 39])),
        Err(DecodeError::MalformedLength)
    ));
}

#[test]
fn file_trailer_fields() {
    let t = FileTrailer::new(Bytes::from(vec![0xAA, 0xBB, 0xCC, 0xDD, 0, 0, 0, 2])).unwrap();
    assert_eq!(t.check_sum(), 0xAABBCCDD);
    assert_eq!(t.lsn(), 2);
    assert!(matches!(
        FileTrailer::new(Bytes::from(vec![0u8; 7])),
        Err(DecodeError::MalformedLength)
    ));
}

#[test]
fn page_type_codes() {
    let known: [(u16, PageType); 32] = [
        (0, PageType::FilPageAllocated),
        (2, PageType::FilPageUndoLog),
        (3, PageType::FilPageInode),
        (4, PageType::FilPageIbuufFreList),
        (5, PageType::FilPageIbufBitmap),
        (6, PageType::FilPageTypeSys),
        (7, PageType::FilPageTypeTrxSys),
        (8, PageType::FilPageTypeFspHdr),
        (9, PageType::FilPageTypeXdes),
        (10, PageType::FilPageTypeBlob),
        (11, PageType::FilPageTypeZblob),
        (12, PageType::FilPageTypeZblob2),
        (13, PageType::FilPageTypeUnknown),
        (14, PageType::FilPageCompressed),
        (15, PageType::FilPageEncrypted),
        (16, PageType::FilPageCompressedAndEncrypted),
        (17, PageType::FilPageEncryptedRtree),
        (18, PageType::FilPageSdiBlob),
        (19, PageType::FilPageSdiZblob),
        (20, PageType::FilPageTypeLegacyDblwr),
        (21, PageType::FilPageTypeRsegArray),
        (22, PageType::FilPageTypeLobIndex),
        (23, PageType::FilPageTypeLobData),
        (24, PageType::FilPageTypeLobFirst),
        (25, PageType::FilPageTypeZlobFirst),
        (26, PageType::FilPageTypeZlobData),
        (27, PageType::FilPageTypeZlobIndex),
        (28, PageType::FilPageTypeZlobFrag),
        (29, PageType::FilPageTypeZlobFragEntry),
        (17853, PageType::FilPageSdi),
        (17854, PageType::FilPageRtree),
        (17855, PageType::FilPageIndex),
    ];
    for (code, page_type) in known {
        assert_eq!(PageType::from(code), page_type);
        assert_eq!(page_type.code(), code);
    }
}

#[test]
fn page_type_outside_the_known_set() {
    for code in [1u16, 30, 31, 255, 256, 17852, 17856, 0xFFFF] {
        assert_eq!(PageType::from(code), PageType::FilPageTypeUnknown);
    }
}

#[test]
fn page_type_round_trip_for_every_code() {
    for code in 0..=u16::MAX {
        let t = PageType::from(code);
        if t != PageType::FilPageTypeUnknown {
            assert_eq!(t.code(), code);
        }
        assert_eq!(PageType::from(t.code()), t);
    }
}

#[test]
fn direction_and_format() {
    assert_eq!(Direction::from(1), Direction::Left);
    assert_eq!(Direction::from(2), Direction::Right);
    assert_eq!(Direction::from(5), Direction::NoDirection);
    assert_eq!(Direction::from(0), Direction::Unknown);
    assert_eq!(Direction::from(3), Direction::Unknown);
    assert_eq!(RecordFormat::from(0), RecordFormat::Redundant);
    assert_eq!(RecordFormat::from(1), RecordFormat::Compact);
    assert_eq!(RecordFormat::from(2), RecordFormat::Unknown);
}

fn index_header_bytes() -> Vec<u8> {
    let mut v = Vec::new();
    v.extend_from_slice(&[0x00, 0x02]); // slots
    v.extend_from_slice(&[0x00, 0x78]); // heap top
    v.extend_from_slice(&[0x80, 0x05]); // compact, heap num 5
    v.extend_from_slice(&[0x00, 0x10]); // free
    v.extend_from_slice(&[0x00, 0x20]); // garbage
    v.extend_from_slice(&[0x00, 0x30]); // last insert
    v.extend_from_slice(&[0x00, 0x02]); // direction
    v.extend_from_slice(&[0x00, 0x07]); // direction num
    v.extend_from_slice(&[0x00, 0x03]); // recs
    v.extend_from_slice(&[0, 0, 0, 0, 0, 0, 0x01, 0x00]); // max trx id
    v.extend_from_slice(&[0x00, 0x01]); // level
    v.extend_from_slice(&[0, 0, 0, 0, 0, 0, 0x00, 0x9B]); // index id
    v
}

#[test]
fn index_header_fields() {
    let h = IndexHeader::new(Bytes::from(index_header_bytes())).unwrap();
    assert_eq!(h.slots(), 2);
    assert_eq!(h.heap_top(), 120);
    assert_eq!(h.heap_num(), 5);
    assert_eq!(h.format_flag(), RecordFormat::Compact);
    assert_eq!(h.free(), 16);
    assert_eq!(h.garbage(), 32);
    assert_eq!(h.last_insert(), 48);
    assert_eq!(h.direction(), Direction::Right);
    assert_eq!(h.direction_num(), 7);
    assert_eq!(h.recs(), 3);
    assert_eq!(h.max_trx_id(), 256);
    assert_eq!(h.level(), 1);
    assert_eq!(h.index_id(), 155);
}

#[test]
fn index_header_redundant_and_wide_heap_num() {
    let mut v = index_header_bytes();
    v[4] = 0x7F;
    v[5] = 0xFF;
    let h = IndexHeader::new(Bytes::from(v)).unwrap();
    assert_eq!(h.format_flag(), RecordFormat::Redundant);
    assert_eq!(h.heap_num(), 0x7FFF);
    assert!(matches!(
        IndexHeader::new(Bytes::from(vec![0u8; 35])),
        Err(DecodeError::MalformedLength)
    ));
}

#[test]
fn fseg_header_fields() {
    let mut v = Vec::new();
    v.extend_from_slice(&[0, 0, 0, 7]);
    v.extend_from_slice(&[0, 0, 0, 2, 0x00, 0xF2]);
    v.extend_from_slice(&[0, 0, 0, 8]);
    v.extend_from_slice(&[0, 0, 0, 2, 0x00, 0x32]);
    let h = FSegHeader::new(Bytes::from(v)).unwrap();
    assert_eq!(h.leaf_space_id(), 7);
    assert_eq!(h.leaf_pointer(), FilePointer { page_num: 2, offset: 242 });
    assert_eq!(h.internal_space_id(), 8);
    assert_eq!(h.internal_pointer(), FilePointer { page_num: 2, offset: 50 });
    assert!(matches!(
        FSegHeader::new(Bytes::from(vec![0u8; 21])),
        Err(DecodeError::MalformedLength)
    ));
}

#[test]
fn record_header_bit_fields() {
    // 0b10_1_1_0101: not used 2, deleted, smallest, owns 5
    // heap no 0x1234 >> 3 with kind 3: bytes 0x91 0xA3
    let v = vec![0b1011_0101u8, 0x91, 0xA3, 0xFF, 0xF3];
    let h = RecordHeader::new(Bytes::from(v.clone())).unwrap();
    assert_eq!(h.buf(), &v[..]);
    assert_eq!(h.not_used(), 2);
    assert_eq!(h.delete_mask(), 1);
    assert_eq!(h.min_rec_mask(), 1);
    assert_eq!(h.n_owned(), 5);
    assert_eq!(h.heap_no(), 0x91A3 >> 3);
    assert_eq!(h.record_type(), 3);
    assert_eq!(h.next_record(), -13);
}

#[test]
fn record_header_plain_record() {
    let h = RecordHeader::new(&[0x00u8, 0x00, 0x10, 0x00, 0x1B][..]).unwrap();
    assert_eq!(h.not_used(), 0);
    assert_eq!(h.delete_mask(), 0);
    assert_eq!(h.min_rec_mask(), 0);
    assert_eq!(h.n_owned(), 0);
    assert_eq!(h.heap_no(), 2);
    assert_eq!(h.record_type(), 0);
    assert_eq!(h.next_record(), 27);
    assert!(matches!(
        RecordHeader::new(&[0u8; 4][..]),
        Err(DecodeError::MalformedLength)
    ));
}

#[test]
fn list_nodes() {
    let p = FilePointer::new(&[0, 0, 1, 2, 0x00, 0x9E]);
    assert_eq!(p, FilePointer { page_num: 258, offset: 158 });
    assert!(!p.is_null());
    let null = FilePointer::new(&[0xFF, 0xFF, 0xFF, 0xFF, 0, 0]);
    assert!(null.is_null());
    assert!(!FilePointer::new(&[0xFF, 0xFF, 0xFF, 0xFF, 0, 1]).is_null());

    let n = ListNode::new(&[0xFF, 0xFF, 0xFF, 0xFF, 0, 0, 0, 0, 0, 2, 0, 0x26]);
    assert!(n.prev.is_null());
    assert_eq!(n.next, FilePointer { page_num: 2, offset: 38 });

    let b = ListBaseNode::new(&[0, 0, 0, 3, 0, 0, 0, 0, 0, 0x9E, 0, 0, 0, 0, 0, 0xEE]);
    assert_eq!(b.len, 3);
    assert_eq!(b.first, FilePointer { page_num: 0, offset: 158 });
    assert_eq!(b.last, FilePointer { page_num: 0, offset: 238 });
}

#[test]
fn overflow_pointer_fields() {
    let mut v = Vec::new();
    v.extend_from_slice(&[0, 0, 0, 2]);
    v.extend_from_slice(&[0, 0, 0, 5]);
    v.extend_from_slice(&[0, 0, 0, 38]);
    v.extend_from_slice(&[0, 0, 0, 0, 0, 0, 0x50, 0x00]);
    let p = OverflowPointer::new(&v[..]);
    assert_eq!(p.space_id(), 2);
    assert_eq!(p.page_num(), 5);
    assert_eq!(p.un_know(), 38);
    assert_eq!(p.len(), 20480);
    assert_eq!(p.buf, &v[..]);
}

#[test]
fn fsp_header_fields() {
    let mut v = vec![0u8; 112];
    v[0..4].copy_from_slice(&[0, 0, 0, 2]);
    v[4..8].copy_from_slice(&[0, 0, 0, 1]);
    v[8..12].copy_from_slice(&[0, 0, 0, 7]);
    v[12..16].copy_from_slice(&[0, 0, 0, 64]);
    v[16..20].copy_from_slice(&[0, 0, 0x40, 0x21]);
    v[20..24].copy_from_slice(&[0, 0, 0, 5]);
    v[24..28].copy_from_slice(&[0, 0, 0, 1]); // free
    v[40..44].copy_from_slice(&[0, 0, 0, 2]); // free_frag
    v[56..60].copy_from_slice(&[0, 0, 0, 3]); // full_frag
    v[72..80].copy_from_slice(&[0, 0, 0, 0, 0, 0, 0, 9]);
    v[80..84].copy_from_slice(&[0, 0, 0, 4]); // seg_inodes_full
    v[96..100].copy_from_slice(&[0, 0, 0, 5]); // seg_inodes_free
    v[100..106].copy_from_slice(&[0, 0, 0, 2, 0, 38]);
    let h = HdrFspHeader::new(Bytes::from(v)).unwrap();
    assert_eq!(h.space_id(), 2);
    assert_eq!(h.not_used(), 1);
    assert_eq!(h.size(), 7);
    assert_eq!(h.free_limit(), 64);
    assert_eq!(h.space_flags(), 0x4021);
    assert_eq!(h.frag_n_used(), 5);
    assert_eq!(h.free().len, 1);
    assert_eq!(h.free_frag().len, 2);
    assert_eq!(h.full_frag().len, 3);
    assert_eq!(h.seg_id(), 9);
    assert_eq!(h.seg_inodes_full().len, 4);
    assert_eq!(h.seg_inodes_free().len, 5);
    assert_eq!(h.seg_inodes_free().first, FilePointer { page_num: 2, offset: 38 });
    assert!(matches!(
        HdrFspHeader::new(Bytes::from(vec![0u8; 111])),
        Err(DecodeError::MalformedLength)
    ));
}

#[test]
fn extent_descriptor_fields() {
    let mut v = vec![0u8; 40];
    v[0..8].copy_from_slice(&[0, 0, 0, 0, 0, 0, 0, 3]);
    v[8..14].copy_from_slice(&[0xFF, 0xFF, 0xFF, 0xFF, 0, 0]);
    v[14..20].copy_from_slice(&[0, 0, 0, 0, 0, 0xC6]);
    v[20..24].copy_from_slice(&[0, 0, 0, 4]);
    for i in 24..40 {
        v[i] = i as u8;
    }
    let e = XDesEntry::new(Bytes::from(v.clone())).unwrap();
    assert_eq!(e.segment_id(), 3);
    assert!(e.flst_node().prev.is_null());
    assert_eq!(e.flst_node().next, FilePointer { page_num: 0, offset: 198 });
    assert_eq!(e.state(), 4);
    assert_eq!(e.bitmap(), &v[24..40]);
    assert!(matches!(
        XDesEntry::new(Bytes::from(vec![0u8; 41])),
        Err(DecodeError::MalformedLength)
    ));
}

#[test]
fn inode_entry_fields() {
    let mut v = vec![0u8; 192];
    v[0..8].copy_from_slice(&[0, 0, 0, 0, 0, 0, 0, 6]);
    v[8..12].copy_from_slice(&[0, 0, 0, 11]);
    v[12..16].copy_from_slice(&[0, 0, 0, 1]);
    v[28..32].copy_from_slice(&[0, 0, 0, 2]);
    v[44..48].copy_from_slice(&[0, 0, 0, 3]);
    v[60..64].copy_from_slice(&[0x05, 0xD6, 0x69, 0xD2]);
    for i in 0..32usize {
        v[64 + 4 * i..68 + 4 * i].copy_from_slice(&((i as u32) * 3 + 1).to_be_bytes());
    }
    let e = InodeEntry::new(Bytes::from(v)).unwrap();
    assert_eq!(e.segment_id(), 6);
    assert_eq!(e.not_full_num(), 11);
    assert_eq!(e.free().len, 1);
    assert_eq!(e.not_full().len, 2);
    assert_eq!(e.full().len, 3);
    assert_eq!(e.magic_number(), 0x05D669D2);
    let fragments = e.fragment_array();
    for i in 0..32usize {
        assert_eq!(fragments[i], (i as u32) * 3 + 1);
    }
    assert!(matches!(
        InodeEntry::new(Bytes::from(vec![0u8; 191])),
        Err(DecodeError::MalformedLength)
    ));
}

#[test]
fn error_messages_differ() {
    let all = [
        DecodeError::Io(3),
        DecodeError::MalformedLength,
        DecodeError::UnknownEnum,
        DecodeError::SchemaBootstrap,
        DecodeError::UnsupportedFormat,
    ];
    for (i, a) in all.iter().enumerate() {
        for (j, b) in all.iter().enumerate() {
            assert_eq!(i == j, a.message() == b.message());
        }
    }
}

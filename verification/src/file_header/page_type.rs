use vstd::prelude::*;
use vstd::std_specs::convert::FromSpecImpl;

verus! {

/// The type of a page, as the file header names it.
#[derive(Debug, Eq, PartialEq, Copy, Clone, Structural)]
pub enum PageType {
    /// Freshly allocated, not used yet.
    FilPageAllocated,
    /// Undo log page.
    FilPageUndoLog,
    /// Segment inode page.
    FilPageInode,
    /// Insert buffer free list.
    FilPageIbuufFreList,
    /// Insert buffer bitmap.
    FilPageIbufBitmap,
    /// System page.
    FilPageTypeSys,
    /// Transaction system data.
    FilPageTypeTrxSys,
    /// File space header.
    FilPageTypeFspHdr,
    /// Extent descriptor page.
    FilPageTypeXdes,
    /// Uncompressed BLOB page.
    FilPageTypeBlob,
    FilPageTypeZblob,
    FilPageTypeZblob2,
    /// A page of no known type.
    FilPageTypeUnknown,
    FilPageCompressed,
    FilPageEncrypted,
    FilPageCompressedAndEncrypted,
    FilPageEncryptedRtree,
    FilPageSdiBlob,
    FilPageSdiZblob,
    FilPageTypeLegacyDblwr,
    FilPageTypeRsegArray,
    FilPageTypeLobIndex,
    FilPageTypeLobData,
    FilPageTypeLobFirst,
    FilPageTypeZlobFirst,
    FilPageTypeZlobData,
    FilPageTypeZlobIndex,
    FilPageTypeZlobFrag,
    FilPageTypeZlobFragEntry,
    /// Page of the index that holds the serialized dictionary information.
    FilPageSdi,
    FilPageRtree,
    /// B+-tree node.
    FilPageIndex,
}

/// The page type that a type code stands for; every code outside the known
/// set stands for `FilPageTypeUnknown`.
pub open spec fn page_type_of(value: u16) -> PageType {
    if value == 0 {
        PageType::FilPageAllocated
    }
    else if value == 2 {
        PageType::FilPageUndoLog
    }
    else if value == 3 {
        PageType::FilPageInode
    }
    else if value == 4 {
        PageType::FilPageIbuufFreList
    }
    else if value == 5 {
        PageType::FilPageIbufBitmap
    }
    else if value == 6 {
        PageType::FilPageTypeSys
    }
    else if value == 7 {
        PageType::FilPageTypeTrxSys
    }
    else if value == 8 {
        PageType::FilPageTypeFspHdr
    }
    else if value == 9 {
        PageType::FilPageTypeXdes
    }
    else if value == 10 {
        PageType::FilPageTypeBlob
    }
    else if value == 11 {
        PageType::FilPageTypeZblob
    }
    else if value == 12 {
        PageType::FilPageTypeZblob2
    }
    else if value == 14 {
        PageType::FilPageCompressed
    }
    else if value == 15 {
        PageType::FilPageEncrypted
    }
    else if value == 16 {
        PageType::FilPageCompressedAndEncrypted
    }
    else if value == 17 {
        PageType::FilPageEncryptedRtree
    }
    else if value == 18 {
        PageType::FilPageSdiBlob
    }
    else if value == 19 {
        PageType::FilPageSdiZblob
    }
    else if value == 20 {
        PageType::FilPageTypeLegacyDblwr
    }
    else if value == 21 {
        PageType::FilPageTypeRsegArray
    }
    else if value == 22 {
        PageType::FilPageTypeLobIndex
    }
    else if value == 23 {
        PageType::FilPageTypeLobData
    }
    else if value == 24 {
        PageType::FilPageTypeLobFirst
    }
    else if value == 25 {
        PageType::FilPageTypeZlobFirst
    }
    else if value == 26 {
        PageType::FilPageTypeZlobData
    }
    else if value == 27 {
        PageType::FilPageTypeZlobIndex
    }
    else if value == 28 {
        PageType::FilPageTypeZlobFrag
    }
    else if value == 29 {
        PageType::FilPageTypeZlobFragEntry
    }
    else if value == 17853 {
        PageType::FilPageSdi
    }
    else if value == 17854 {
        PageType::FilPageRtree
    }
    else if value == 17855 {
        PageType::FilPageIndex
    }
    else {
        PageType::FilPageTypeUnknown
    }
}

impl PageType {
    /// The type code under which the page type is stored.
    pub open spec fn spec_code(self) -> u16 {
        match self {
            PageType::FilPageAllocated => 0,
            PageType::FilPageUndoLog => 2,
            PageType::FilPageInode => 3,
            PageType::FilPageIbuufFreList => 4,
            PageType::FilPageIbufBitmap => 5,
            PageType::FilPageTypeSys => 6,
            PageType::FilPageTypeTrxSys => 7,
            PageType::FilPageTypeFspHdr => 8,
            PageType::FilPageTypeXdes => 9,
            PageType::FilPageTypeBlob => 10,
            PageType::FilPageTypeZblob => 11,
            PageType::FilPageTypeZblob2 => 12,
            PageType::FilPageTypeUnknown => 13,
            PageType::FilPageCompressed => 14,
            PageType::FilPageEncrypted => 15,
            PageType::FilPageCompressedAndEncrypted => 16,
            PageType::FilPageEncryptedRtree => 17,
            PageType::FilPageSdiBlob => 18,
            PageType::FilPageSdiZblob => 19,
            PageType::FilPageTypeLegacyDblwr => 20,
            PageType::FilPageTypeRsegArray => 21,
            PageType::FilPageTypeLobIndex => 22,
            PageType::FilPageTypeLobData => 23,
            PageType::FilPageTypeLobFirst => 24,
            PageType::FilPageTypeZlobFirst => 25,
            PageType::FilPageTypeZlobData => 26,
            PageType::FilPageTypeZlobIndex => 27,
            PageType::FilPageTypeZlobFrag => 28,
            PageType::FilPageTypeZlobFragEntry => 29,
            PageType::FilPageSdi => 17853,
            PageType::FilPageRtree => 17854,
            PageType::FilPageIndex => 17855,
        }
    }

    /// The type code under which the page type is stored.
    #[verifier::when_used_as_spec(spec_code)]
    pub fn code(self) -> (r: u16)
        ensures
            r == self.spec_code(),
    {
        match self {
            PageType::FilPageAllocated => 0,
            PageType::FilPageUndoLog => 2,
            PageType::FilPageInode => 3,
            PageType::FilPageIbuufFreList => 4,
            PageType::FilPageIbufBitmap => 5,
            PageType::FilPageTypeSys => 6,
            PageType::FilPageTypeTrxSys => 7,
            PageType::FilPageTypeFspHdr => 8,
            PageType::FilPageTypeXdes => 9,
            PageType::FilPageTypeBlob => 10,
            PageType::FilPageTypeZblob => 11,
            PageType::FilPageTypeZblob2 => 12,
            PageType::FilPageTypeUnknown => 13,
            PageType::FilPageCompressed => 14,
            PageType::FilPageEncrypted => 15,
            PageType::FilPageCompressedAndEncrypted => 16,
            PageType::FilPageEncryptedRtree => 17,
            PageType::FilPageSdiBlob => 18,
            PageType::FilPageSdiZblob => 19,
            PageType::FilPageTypeLegacyDblwr => 20,
            PageType::FilPageTypeRsegArray => 21,
            PageType::FilPageTypeLobIndex => 22,
            PageType::FilPageTypeLobData => 23,
            PageType::FilPageTypeLobFirst => 24,
            PageType::FilPageTypeZlobFirst => 25,
            PageType::FilPageTypeZlobData => 26,
            PageType::FilPageTypeZlobIndex => 27,
            PageType::FilPageTypeZlobFrag => 28,
            PageType::FilPageTypeZlobFragEntry => 29,
            PageType::FilPageSdi => 17853,
            PageType::FilPageRtree => 17854,
            PageType::FilPageIndex => 17855,
        }
    }

    /// Decoding the code of a page type gives the page type back.
    pub proof fn lemma_code_round_trip(self)
        ensures
            page_type_of(self.spec_code()) == self,
    {
    }

    /// A code either stands for the unknown type or is the code of the type
    /// it stands for.
    pub proof fn lemma_known_code(value: u16)
        ensures
            page_type_of(value) != PageType::FilPageTypeUnknown ==> page_type_of(value).spec_code()
                == value,
    {
    }
}

impl From<u16> for PageType {
    fn from(value: u16) -> (r: PageType) {
        match value {
            0 => PageType::FilPageAllocated,
            2 => PageType::FilPageUndoLog,
            3 => PageType::FilPageInode,
            4 => PageType::FilPageIbuufFreList,
            5 => PageType::FilPageIbufBitmap,
            6 => PageType::FilPageTypeSys,
            7 => PageType::FilPageTypeTrxSys,
            8 => PageType::FilPageTypeFspHdr,
            9 => PageType::FilPageTypeXdes,
            10 => PageType::FilPageTypeBlob,
            11 => PageType::FilPageTypeZblob,
            12 => PageType::FilPageTypeZblob2,
            14 => PageType::FilPageCompressed,
            15 => PageType::FilPageEncrypted,
            16 => PageType::FilPageCompressedAndEncrypted,
            17 => PageType::FilPageEncryptedRtree,
            18 => PageType::FilPageSdiBlob,
            19 => PageType::FilPageSdiZblob,
            20 => PageType::FilPageTypeLegacyDblwr,
            21 => PageType::FilPageTypeRsegArray,
            22 => PageType::FilPageTypeLobIndex,
            23 => PageType::FilPageTypeLobData,
            24 => PageType::FilPageTypeLobFirst,
            25 => PageType::FilPageTypeZlobFirst,
            26 => PageType::FilPageTypeZlobData,
            27 => PageType::FilPageTypeZlobIndex,
            28 => PageType::FilPageTypeZlobFrag,
            29 => PageType::FilPageTypeZlobFragEntry,
            17853 => PageType::FilPageSdi,
            17854 => PageType::FilPageRtree,
            17855 => PageType::FilPageIndex,
            _ => PageType::FilPageTypeUnknown,
        }
    }
}

impl FromSpecImpl<u16> for PageType {
    open spec fn obeys_from_spec() -> bool {
        true
    }

    open spec fn from_spec(value: u16) -> PageType {
        page_type_of(value)
    }
}

} // verus!

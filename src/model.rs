//! The in-memory archive model: a byte order and an ordered list of entries.
use vstd::prelude::*;

use crate::error::{ConvertError, ConvertErrorKind};

verus! {

/// Byte order of a binary archive.
#[derive(Debug, Clone, Copy, PartialEq, Eq, Structural)]
pub enum ByteOrder {
    Little,
    Big,
}

/// The optional compression pass applied to a serialized archive.
#[derive(Debug, Clone, Copy, PartialEq, Eq, Structural)]
pub enum Compression {
    Uncompressed,
    Yaz0,
    Zstd,
}

/// One payload of an archive, named or not.
pub struct Entry {
    pub name: Option<String>,
    pub data: Vec<u8>,
}

/// An archive: a byte order and its entries in order.
pub struct Archive {
    pub byte_order: ByteOrder,
    pub files: Vec<Entry>,
}

/// The abstract value of an entry.
pub struct EntryView {
    pub name: Option<Seq<char>>,
    pub data: Seq<u8>,
}

pub open spec fn name_view(n: Option<String>) -> Option<Seq<char>> {
    match n {
        Some(s) => Some(s@),
        None => None,
    }
}

impl View for Entry {
    type V = EntryView;

    open spec fn view(&self) -> EntryView {
        EntryView { name: name_view(self.name), data: self.data@ }
    }
}

/// The abstract values of a list of entries.
pub open spec fn entries_view(files: Seq<Entry>) -> Seq<EntryView> {
    files.map_values(|e: Entry| e@)
}

pub(crate) fn copy_bytes(data: &Vec<u8>) -> (r: Vec<u8>)
    ensures
        r@ == data@,
{
    let mut r: Vec<u8> = Vec::new();
    let mut i: usize = 0;
    while i < data.len()
        invariant
            i <= data@.len(),
            r@ == data@.subrange(0, i as int),
        decreases data@.len() - i,
    {
        r.push(data[i]);
        i = i + 1;
        assert(r@ =~= data@.subrange(0, i as int));
    }
    assert(r@ =~= data@);
    r
}

/// The byte order chosen by the big-endian flag; little-endian is the default.
pub fn endian(big: bool) -> (r: ByteOrder)
    ensures
        r == (if big { ByteOrder::Big } else { ByteOrder::Little }),
{
    if big {
        ByteOrder::Big
    } else {
        ByteOrder::Little
    }
}

/// Validates the two byte-order flags: asking for both is a parameter error;
/// neither means little-endian.
pub fn byte_order_from_flags(big: bool, little: bool) -> (r: Result<ByteOrder, ConvertError>)
    ensures
        (big && little) <==> r is Err,
        r is Err ==> r->Err_0.kind == ConvertErrorKind::Param,
        r is Ok ==> r->Ok_0 == (if big { ByteOrder::Big } else { ByteOrder::Little }),
{
    if big && little {
        Err(ConvertError::param("--big-endian and --little-endian cannot be used together"))
    } else {
        Ok(endian(big))
    }
}

/// Validates the two compression flags: asking for both is a parameter error;
/// neither means no compression.
pub fn compression_from_flags(yaz0: bool, zstd: bool) -> (r: Result<Compression, ConvertError>)
    ensures
        (yaz0 && zstd) <==> r is Err,
        r is Err ==> r->Err_0.kind == ConvertErrorKind::Param,
        r is Ok ==> r->Ok_0 == (if yaz0 {
            Compression::Yaz0
        } else if zstd {
            Compression::Zstd
        } else {
            Compression::Uncompressed
        }),
{
    if yaz0 && zstd {
        Err(ConvertError::param("--yaz0 and --zstd cannot be used together"))
    } else if yaz0 {
        Ok(Compression::Yaz0)
    } else if zstd {
        Ok(Compression::Zstd)
    } else {
        Ok(Compression::Uncompressed)
    }
}

} // verus!

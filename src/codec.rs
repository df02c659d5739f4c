//! Writing the binary archive format, through the sarc crate.
use vstd::prelude::*;
use vstd::string::{StrSliceExecFns, StringExecFns};

use crate::error::{ConvertError, ConvertErrorKind};
use crate::model::{Archive, ByteOrder, Compression, Entry, EntryView, entries_view};
use crate::text::push_char;

verus! {

#[verifier::external_type_specification]
#[verifier::external_body]
pub struct ExSarcWriteError(sarc::writer::Error);

#[verifier::external_type_specification]
#[verifier::external_body]
pub struct ExIoError(std::io::Error);

/// An archive as plain values: whether it is big-endian, and each entry's
/// optional name and payload.
pub open spec fn plain_archive(byte_order: ByteOrder, files: Seq<EntryView>) -> (
    bool,
    Seq<(Option<Seq<char>>, Seq<u8>)>,
) {
    (
        byte_order == ByteOrder::Big,
        files.map_values(|e: EntryView| (e.name, e.data)),
    )
}

/// The multiplier of the name hash of the binary format.
pub const HASH_KEY: u64 = 0x65;

/// One step of the name hash: the hash so far times the key, wrapped to
/// 32 bits, plus the character's code point (without wrapping).
pub open spec fn hash_step(h: int, c: char) -> int {
    (h * HASH_KEY) % 0x1_0000_0000 + (c as u32) as int
}

/// The name hash of a string, folded over its characters from the left.
pub open spec fn name_hash(s: Seq<char>) -> int
    decreases s.len(),
{
    if s.len() == 0 {
        0
    } else {
        hash_step(name_hash(s.drop_last()), s.last())
    }
}

/// Whether no step of the name hash of `s` leaves 32 bits.
pub open spec fn hash_fits(s: Seq<char>) -> bool
    decreases s.len(),
{
    s.len() == 0 || (hash_fits(s.drop_last()) && name_hash(s) < 0x1_0000_0000)
}

/// Whether sarc can hash every name of the entries.
pub open spec fn names_hashable(files: Seq<EntryView>) -> bool {
    forall|i: int| 0 <= i < files.len() && #[trigger] files[i].name is Some ==> hash_fits(files[i].name->0)
}

/// A hash that fits for a string fits for each of its prefixes.
pub proof fn lemma_hash_fits_prefix(s: Seq<char>, k: int)
    requires
        0 <= k <= s.len(),
        hash_fits(s),
    ensures
        hash_fits(s.subrange(0, k)),
    decreases s.len(),
{
    if k < s.len() {
        lemma_hash_fits_prefix(s.drop_last(), k);
        assert(s.drop_last().subrange(0, k) =~= s.subrange(0, k));
    } else {
        assert(s.subrange(0, k) =~= s);
    }
}

/// Whether the name hash of `name` stays within 32 bits at every step.
pub fn name_hash_fits(name: &str) -> (r: bool)
    ensures
        r == hash_fits(name@),
{
    let n = name.unicode_len();
    let mut h: u64 = 0;
    let mut i: usize = 0;
    while i < n
        invariant
            n == name@.len(),
            i <= n,
            hash_fits(name@.subrange(0, i as int)),
            h as int == name_hash(name@.subrange(0, i as int)),
            h < 0x1_0000_0000,
        decreases n - i,
    {
        let c = name.get_char(i);
        let next = (h * HASH_KEY) % 0x1_0000_0000 + (c as u32) as u64;
        proof {
            let prefix = name@.subrange(0, i as int + 1);
            assert(prefix.drop_last() =~= name@.subrange(0, i as int));
            assert(prefix.last() == c);
        }
        if next >= 0x1_0000_0000 {
            proof {
                let prefix = name@.subrange(0, i as int + 1);
                assert(name_hash(prefix) == next);
                if hash_fits(name@) {
                    lemma_hash_fits_prefix(name@, i as int + 1);
                }
            }
            return false;
        }
        h = next;
        i = i + 1;
    }
    assert(name@.subrange(0, n as int) =~= name@);
    true
}

/// Whether every named entry of `files` has a hash that fits.
pub fn entries_hashable(files: &Vec<Entry>) -> (r: bool)
    ensures
        r == names_hashable(entries_view(files@)),
{
    let mut i: usize = 0;
    while i < files.len()
        invariant
            i <= files@.len(),
            forall|k: int| 0 <= k < i ==> #[trigger] entries_view(files@)[k].name is Some ==> hash_fits(entries_view(files@)[k].name->0),
        decreases files@.len() - i,
    {
        match &files[i].name {
            Some(n) => {
                if !name_hash_fits(n.as_str()) {
                    assert(entries_view(files@)[i as int].name is Some);
                    return false;
                }
            },
            None => {},
        }
        i = i + 1;
    }
    true
}

/// The uncompressed binary form that sarc writes for an archive.
pub uninterp spec fn sarc_write_of(a: (bool, Seq<(Option<Seq<char>>, Seq<u8>)>)) -> Seq<u8>;

/// The Yaz0-compressed binary form that sarc writes for an archive.
pub uninterp spec fn sarc_yaz0_of(a: (bool, Seq<(Option<Seq<char>>, Seq<u8>)>)) -> Seq<u8>;

/// The zstd-compressed binary form that sarc writes for an archive.
pub uninterp spec fn sarc_zstd_of(a: (bool, Seq<(Option<Seq<char>>, Seq<u8>)>)) -> Seq<u8>;

/// Relies on `sarc::SarcFile::write` into a `Vec<u8>`: the bytes written
/// depend on the archive alone, and writing into a `Vec` does not fail. Its
/// name hash adds without wrapping, so every name's hash must fit.
#[verifier::external_body]
fn sarc_write(archive: Archive) -> (r: Result<Vec<u8>, std::io::Error>)
    requires
        names_hashable(entries_view(archive.files@)),
    ensures
        r is Ok,
        r is Ok ==> r->Ok_0@ == sarc_write_of(
            plain_archive(archive.byte_order, entries_view(archive.files@)),
        ),
{
    let byte_order = match archive.byte_order {
        ByteOrder::Little => sarc::Endian::Little,
        ByteOrder::Big => sarc::Endian::Big,
    };
    let files = archive.files.into_iter().map(|e| sarc::SarcEntry { name: e.name, data: e.data }).collect();
    let mut out = Vec::new();
    sarc::SarcFile { byte_order, files }.write(&mut out)?;
    Ok(out)
}

/// Relies on `sarc::SarcFile::write_yaz0` into a `Vec<u8>`: the bytes
/// written depend on the archive alone, and writing into a `Vec` does not
/// fail. Every name's hash must fit, as for `sarc_write`.
#[verifier::external_body]
fn sarc_write_yaz0(archive: Archive) -> (r: Result<Vec<u8>, sarc::writer::Error>)
    requires
        names_hashable(entries_view(archive.files@)),
    ensures
        r is Ok,
        r is Ok ==> r->Ok_0@ == sarc_yaz0_of(
            plain_archive(archive.byte_order, entries_view(archive.files@)),
        ),
{
    let byte_order = match archive.byte_order {
        ByteOrder::Little => sarc::Endian::Little,
        ByteOrder::Big => sarc::Endian::Big,
    };
    let files = archive.files.into_iter().map(|e| sarc::SarcEntry { name: e.name, data: e.data }).collect();
    let mut out = Vec::new();
    sarc::SarcFile { byte_order, files }.write_yaz0(&mut out)?;
    Ok(out)
}

/// Relies on `sarc::SarcFile::write_zstd` into a `Vec<u8>`: the bytes
/// written depend on the archive alone, and writing into a `Vec` does not
/// fail. Every name's hash must fit, as for `sarc_write`.
#[verifier::external_body]
fn sarc_write_zstd(archive: Archive) -> (r: Result<Vec<u8>, sarc::writer::Error>)
    requires
        names_hashable(entries_view(archive.files@)),
    ensures
        r is Ok,
        r is Ok ==> r->Ok_0@ == sarc_zstd_of(
            plain_archive(archive.byte_order, entries_view(archive.files@)),
        ),
{
    let byte_order = match archive.byte_order {
        ByteOrder::Little => sarc::Endian::Little,
        ByteOrder::Big => sarc::Endian::Big,
    };
    let files = archive.files.into_iter().map(|e| sarc::SarcEntry { name: e.name, data: e.data }).collect();
    let mut out = Vec::new();
    sarc::SarcFile { byte_order, files }.write_zstd(&mut out)?;
    Ok(out)
}

/// Relies on the `Debug` impl of sarc's write error, for the message.
#[verifier::external_body]
fn write_error_text(e: &sarc::writer::Error) -> String {
    format!("{:?}", e)
}

/// Relies on the `Debug` impl of `std::io::Error`, for the message.
#[verifier::external_body]
fn io_error_text(e: &std::io::Error) -> String {
    format!("{:?}", e)
}

/// The error for an archive that sarc could not write.
pub fn from_write_error(e: sarc::writer::Error) -> (r: ConvertError)
    ensures
        r.kind == ConvertErrorKind::SarcError,
        "SarcWriteError: "@.is_prefix_of(r.message@),
{
    let mut message = String::from_str("SarcWriteError: ");
    let detail = write_error_text(&e);
    message.append(detail.as_str());
    ConvertError { message, kind: ConvertErrorKind::SarcError }
}

/// The error for a failed read or write.
pub fn from_io_error(e: std::io::Error) -> (r: ConvertError)
    ensures
        r.kind == ConvertErrorKind::File,
{
    ConvertError { message: io_error_text(&e), kind: ConvertErrorKind::File }
}

/// The bytes that encoding an archive with a compression choice gives.
pub open spec fn encoded_bytes(
    a: (bool, Seq<(Option<Seq<char>>, Seq<u8>)>),
    compression: Compression,
) -> Seq<u8> {
    match compression {
        Compression::Uncompressed => sarc_write_of(a),
        Compression::Yaz0 => sarc_yaz0_of(a),
        Compression::Zstd => sarc_zstd_of(a),
    }
}

/// Encodes an archive in the binary format, with the chosen compression.
/// An entry name whose hash does not fit in 32 bits is refused.
pub fn encode_archive(archive: Archive, compression: Compression) -> (r: Result<Vec<u8>, ConvertError>)
    ensures
        r is Ok <==> names_hashable(entries_view(archive.files@)),
        r is Ok ==> r->Ok_0@ == encoded_bytes(
            plain_archive(archive.byte_order, entries_view(archive.files@)),
            compression,
        ),
        r is Err ==> r->Err_0.kind == ConvertErrorKind::SarcError,
{
    if !entries_hashable(&archive.files) {
        return Err(ConvertError::new(ConvertErrorKind::SarcError, "an entry name cannot be hashed"));
    }
    match compression {
        Compression::Uncompressed => match sarc_write(archive) {
            Ok(b) => Ok(b),
            Err(e) => Err(from_io_error(e)),
        },
        Compression::Yaz0 => match sarc_write_yaz0(archive) {
            Ok(b) => Ok(b),
            Err(e) => Err(from_write_error(e)),
        },
        Compression::Zstd => match sarc_write_zstd(archive) {
            Ok(b) => Ok(b),
            Err(e) => Err(from_write_error(e)),
        },
    }
}

} // verus!

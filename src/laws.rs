//! Properties that hold across the conversions.
use vstd::prelude::*;

use crate::convert::{
    entries_from_members, forward_slashes, member_name, output_path, packed, unpacked,
    zip_members_of,
};
use crate::listing::{PREVIEW_LEN, char_cell, char_part, hex_cell, hex_part, listing_of, preview_text};
use crate::model::{ByteOrder, EntryView};
use crate::text::{decimal, hex_pair, shown_char, size_text};

verus! {

/// Packing files whose relative paths already use forward slashes, then
/// unpacking the result, gives back the same paths with the same bytes, and
/// no entry needs a generated name.
pub proof fn lemma_pack_unpack_round_trip(sources: Seq<(Seq<char>, Seq<u8>)>)
    requires
        forall|i: int, j: int|
            0 <= i < sources.len() && 0 <= j < sources[i].0.len() ==> sources[i].0[j] != '\\',
    ensures
        unpacked(packed(sources)) == sources.map_values(
            |s: (Seq<char>, Seq<u8>)| (s.0, s.1, false),
        ),
{
    let files = packed(sources);
    assert forall|i: int| 0 <= i < sources.len() implies forward_slashes(sources[i].0)
        == sources[i].0 by {
        assert(forward_slashes(sources[i].0) =~= sources[i].0);
    }
    assert forall|i: int| 0 <= i < sources.len() implies #[trigger] output_path(files, i)
        == sources[i].0 by {
        assert(files[i].name == Some(forward_slashes(sources[i].0)));
    }
    assert(unpacked(files) =~= sources.map_values(|s: (Seq<char>, Seq<u8>)| (s.0, s.1, false)));
}

/// Writing an archive's entries as ZIP members and reading them back keeps
/// every payload and every name; an unnamed entry comes back named by its
/// index followed by `.bin`.
pub proof fn lemma_zip_round_trip(files: Seq<EntryView>)
    ensures
        entries_from_members(zip_members_of(files)).len() == files.len(),
        forall|i: int|
            0 <= i < files.len() ==> {
                let back = #[trigger] entries_from_members(zip_members_of(files))[i];
                &&& back.data == files[i].data
                &&& files[i].name is Some ==> back.name == files[i].name
                &&& files[i].name is None ==> back.name == Some(decimal(i as nat) + ".bin"@)
            },
{
    assert forall|i: int| 0 <= i < files.len() implies {
        let back = #[trigger] entries_from_members(zip_members_of(files))[i];
        &&& back.data == files[i].data
        &&& files[i].name is Some ==> back.name == files[i].name
        &&& files[i].name is None ==> back.name == Some(decimal(i as nat) + ".bin"@)
    } by {
        assert(zip_members_of(files)[i] == (member_name(files, i), files[i].data));
    }
}

/// The listing depends on the archive's contents alone: listing the same
/// archive twice gives the same table.
pub proof fn lemma_listing_repeatable(
    byte_order: ByteOrder,
    first: Seq<EntryView>,
    second: Seq<EntryView>,
    byte_count: bool,
)
    requires
        first == second,
    ensures
        listing_of(byte_order, first, byte_count) == listing_of(byte_order, second, byte_count),
{
}

/// An archive without entries lists no rows, a total size of zero and
/// `0 file(s)`.
pub proof fn lemma_empty_listing(byte_order: ByteOrder, byte_count: bool)
    ensures
        listing_of(byte_order, Seq::empty(), byte_count).rows.len() == 0,
        listing_of(byte_order, Seq::empty(), byte_count).total_size == size_text(0, byte_count),
        listing_of(byte_order, Seq::empty(), byte_count).file_count == "0 file(s)"@,
{
    reveal_strlit(" file(s)");
    reveal_strlit("0 file(s)");
    assert(decimal(0) == seq!['0']);
    assert(listing_of(byte_order, Seq::empty(), byte_count).file_count =~= "0 file(s)"@);
}

/// Every payload, however short, has a preview of the same width: four hex
/// cells, the bar, and four characters.
pub proof fn lemma_preview_width(data: Seq<u8>)
    ensures
        hex_part(data, PREVIEW_LEN as nat).len() == 2 * PREVIEW_LEN,
        char_part(data, PREVIEW_LEN as nat).len() == PREVIEW_LEN,
        preview_text(data).len() == 15,
{
    reveal_with_fuel(hex_part, 5);
    reveal_with_fuel(char_part, 5);
    reveal_strlit("--");
    reveal_strlit(" | ");
}

/// A preview reads only bytes that the payload has: each of the first four
/// positions shows its byte where there is one, and `--` in hex and a space
/// as character where the payload is shorter.
pub proof fn lemma_preview_cells(data: Seq<u8>)
    ensures
        forall|i: int|
            0 <= i < PREVIEW_LEN && i < data.len() ==> #[trigger] hex_cell(data, i) == hex_pair(data[i])
                && char_cell(data, i) == shown_char(data[i]),
        forall|i: int|
            0 <= i < PREVIEW_LEN && data.len() <= i ==> #[trigger] hex_cell(data, i) == "--"@
                && char_cell(data, i) == ' ',
{
}

} // verus!

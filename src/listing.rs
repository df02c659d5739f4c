//! The table of contents of an archive: one row per entry and a totals row.
//!
//! The preview column shows the first four bytes of an entry. An entry with a
//! shorter payload is padded: each missing byte shows as `--` in the hex part
//! and as a space in the character part.
use vstd::prelude::*;
use vstd::string::StringExecFns;

use crate::model::{Archive, ByteOrder, Entry, EntryView, entries_view};
use crate::text::{byte_char, decimal, decimal_text, hex, hex_pair, push_char, shown_char, size, size_text};

verus! {

/// How many leading bytes a preview shows.
pub const PREVIEW_LEN: usize = 4;

/// The hex cell for position `i` of a payload.
pub open spec fn hex_cell(data: Seq<u8>, i: int) -> Seq<char> {
    if i < data.len() {
        hex_pair(data[i])
    } else {
        "--"@
    }
}

/// The character cell for position `i` of a payload.
pub open spec fn char_cell(data: Seq<u8>, i: int) -> char {
    if i < data.len() {
        shown_char(data[i])
    } else {
        ' '
    }
}

/// The hex cells of the first `n` positions, concatenated.
pub open spec fn hex_part(data: Seq<u8>, n: nat) -> Seq<char>
    decreases n,
{
    if n == 0 {
        Seq::empty()
    } else {
        hex_part(data, (n - 1) as nat) + hex_cell(data, n - 1)
    }
}

/// The character cells of the first `n` positions.
pub open spec fn char_part(data: Seq<u8>, n: nat) -> Seq<char>
    decreases n,
{
    if n == 0 {
        Seq::empty()
    } else {
        char_part(data, (n - 1) as nat).push(char_cell(data, n - 1))
    }
}

/// The preview of a payload: hex digits, a bar, then the characters.
pub open spec fn preview_text(data: Seq<u8>) -> Seq<char> {
    hex_part(data, PREVIEW_LEN as nat) + " | "@ + char_part(data, PREVIEW_LEN as nat)
}

/// What the name column shows for an entry.
pub open spec fn shown_name(name: Option<Seq<char>>) -> Seq<char> {
    match name {
        Some(n) => n,
        None => "[no name]"@,
    }
}

/// The sum of the payload lengths of the first `n` entries.
pub open spec fn total_len(files: Seq<EntryView>, n: nat) -> nat
    decreases n,
{
    if n == 0 || n > files.len() {
        0
    } else {
        total_len(files, (n - 1) as nat) + files[n - 1].data.len()
    }
}

/// The sum of the payload lengths of all entries.
pub open spec fn total_size(files: Seq<EntryView>) -> nat {
    total_len(files, files.len())
}

/// The name under which a byte order is printed.
pub open spec fn byte_order_name(b: ByteOrder) -> Seq<char> {
    match b {
        ByteOrder::Little => "Little"@,
        ByteOrder::Big => "Big"@,
    }
}

/// One row of a listing.
pub struct ListRow {
    pub size: String,
    pub name: String,
    pub preview: String,
}

/// The abstract value of a row: size, name and preview text.
pub struct ListRowView {
    pub size: Seq<char>,
    pub name: Seq<char>,
    pub preview: Seq<char>,
}

impl View for ListRow {
    type V = ListRowView;

    open spec fn view(&self) -> ListRowView {
        ListRowView { size: self.size@, name: self.name@, preview: self.preview@ }
    }
}

/// The row that an entry gets.
pub open spec fn row_of(e: EntryView, byte_count: bool) -> ListRowView {
    ListRowView {
        size: size_text(e.data.len(), byte_count),
        name: shown_name(e.name),
        preview: preview_text(e.data),
    }
}

/// The table of contents of an archive.
pub struct Listing {
    pub byte_order: String,
    pub rows: Vec<ListRow>,
    pub total_size: String,
    pub file_count: String,
}

/// The abstract value of a listing.
pub struct ListingView {
    pub byte_order: Seq<char>,
    pub rows: Seq<ListRowView>,
    pub total_size: Seq<char>,
    pub file_count: Seq<char>,
}

impl View for Listing {
    type V = ListingView;

    open spec fn view(&self) -> ListingView {
        ListingView {
            byte_order: self.byte_order@,
            rows: self.rows@.map_values(|r: ListRow| r@),
            total_size: self.total_size@,
            file_count: self.file_count@,
        }
    }
}

/// The listing of an archive's entries, in the given byte order.
pub open spec fn listing_of(byte_order: ByteOrder, files: Seq<EntryView>, byte_count: bool) -> ListingView {
    ListingView {
        byte_order: byte_order_name(byte_order),
        rows: files.map_values(|e: EntryView| row_of(e, byte_count)),
        total_size: size_text(total_size(files), byte_count),
        file_count: decimal(files.len()) + " file(s)"@,
    }
}

/// The preview of a payload's first bytes.
pub fn preview(data: &Vec<u8>) -> (r: String)
    ensures
        r@ == preview_text(data@),
{
    let mut r = String::new();
    let mut i: usize = 0;
    while i < PREVIEW_LEN
        invariant
            i <= PREVIEW_LEN,
            r@ == hex_part(data@, i as nat),
        decreases PREVIEW_LEN - i,
    {
        if i < data.len() {
            let h = hex(&data[i]);
            r.append(h.as_str());
        } else {
            r.append("--");
        }
        i = i + 1;
    }
    r.append(" | ");
    let ghost head = r@;
    let mut j: usize = 0;
    while j < PREVIEW_LEN
        invariant
            j <= PREVIEW_LEN,
            head == hex_part(data@, PREVIEW_LEN as nat) + " | "@,
            r@ == head + char_part(data@, j as nat),
        decreases PREVIEW_LEN - j,
    {
        let c = if j < data.len() {
            byte_char(&data[j])
        } else {
            ' '
        };
        push_char(&mut r, c);
        j = j + 1;
        assert(r@ =~= head + char_part(data@, j as nat));
    }
    r
}

/// The row of one entry.
pub fn list_row(e: &Entry, byte_count: bool) -> (r: ListRow)
    ensures
        r@ == row_of(e@, byte_count),
{
    let name = match &e.name {
        Some(n) => n.clone(),
        None => String::from_str("[no name]"),
    };
    ListRow { size: size(e.data.len(), byte_count), name, preview: preview(&e.data) }
}

/// Lists an archive: its byte order, one row per entry in order, the total
/// payload size and the number of entries.
pub fn listing(archive: &Archive, byte_count: bool) -> (r: Listing)
    requires
        total_size(entries_view(archive.files@)) <= usize::MAX,
    ensures
        r@ == listing_of(archive.byte_order, entries_view(archive.files@), byte_count),
{
    let ghost files = entries_view(archive.files@);
    let byte_order = match archive.byte_order {
        ByteOrder::Little => String::from_str("Little"),
        ByteOrder::Big => String::from_str("Big"),
    };
    let mut rows: Vec<ListRow> = Vec::new();
    let mut total: usize = 0;
    let mut i: usize = 0;
    while i < archive.files.len()
        invariant
            files == entries_view(archive.files@),
            total_size(files) <= usize::MAX,
            i <= archive.files@.len(),
            rows@.len() == i,
            forall|k: int| 0 <= k < i ==> #[trigger] rows@[k]@ == row_of(files[k], byte_count),
            total as nat == total_len(files, i as nat),
        decreases archive.files@.len() - i,
    {
        proof {
            lemma_total_len_monotone(files, (i + 1) as nat, files.len());
        }
        let row = list_row(&archive.files[i], byte_count);
        rows.push(row);
        total = total + archive.files[i].data.len();
        i = i + 1;
    }
    let mut file_count = decimal_text(archive.files.len());
    file_count.append(" file(s)");
    let r = Listing { byte_order, rows, total_size: size(total, byte_count), file_count };
    assert(r@.rows =~= files.map_values(|e: EntryView| row_of(e, byte_count)));
    r
}

/// A longer prefix never has a smaller total.
pub proof fn lemma_total_len_monotone(files: Seq<EntryView>, m: nat, n: nat)
    requires
        m <= n <= files.len(),
    ensures
        total_len(files, m) <= total_len(files, n),
    decreases n - m,
{
    if m < n {
        lemma_total_len_monotone(files, m, (n - 1) as nat);
    }
}

} // verus!

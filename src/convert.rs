//! Mapping between the archive model and the other representations:
//! files of a directory tree, files to write out, and ZIP members.
use vstd::prelude::*;
use vstd::string::{StrSliceExecFns, StringExecFns};

use crate::model::{Archive, ByteOrder, Entry, EntryView, copy_bytes, entries_view};
use crate::text::{decimal, decimal_text, push_char};

verus! {

/// A path with every backslash turned into a forward slash.
pub open spec fn forward_slashes(s: Seq<char>) -> Seq<char> {
    s.map_values(|c: char| if c == '\\' { '/' } else { c })
}

/// The entry name for a file's path relative to the packed directory.
pub fn entry_name(relative_path: &str) -> (r: String)
    ensures
        r@ == forward_slashes(relative_path@),
{
    let n = relative_path.unicode_len();
    let mut r = String::new();
    let mut i: usize = 0;
    while i < n
        invariant
            n == relative_path@.len(),
            i <= n,
            r@ =~= forward_slashes(relative_path@.subrange(0, i as int)),
        decreases n - i,
    {
        let c = relative_path.get_char(i);
        push_char(&mut r, if c == '\\' { '/' } else { c });
        i = i + 1;
        assert(r@ =~= forward_slashes(relative_path@.subrange(0, i as int)));
    }
    assert(relative_path@.subrange(0, n as int) =~= relative_path@);
    r
}

/// A file found under the directory being packed.
pub struct SourceFile {
    pub relative_path: String,
    pub data: Vec<u8>,
}

impl View for SourceFile {
    type V = (Seq<char>, Seq<u8>);

    open spec fn view(&self) -> (Seq<char>, Seq<u8>) {
        (self.relative_path@, self.data@)
    }
}

/// The entries that packing makes of a directory's files: one per file, in
/// order, named by its normalized relative path.
pub open spec fn packed(sources: Seq<(Seq<char>, Seq<u8>)>) -> Seq<EntryView> {
    sources.map_values(
        |s: (Seq<char>, Seq<u8>)| EntryView { name: Some(forward_slashes(s.0)), data: s.1 },
    )
}

/// Builds the archive for a directory's files.
pub fn pack(files: &Vec<SourceFile>, byte_order: ByteOrder) -> (r: Archive)
    ensures
        r.byte_order == byte_order,
        entries_view(r.files@) == packed(files@.map_values(|s: SourceFile| s@)),
{
    let ghost sources = files@.map_values(|s: SourceFile| s@);
    let mut out: Vec<Entry> = Vec::new();
    let mut i: usize = 0;
    while i < files.len()
        invariant
            sources == files@.map_values(|s: SourceFile| s@),
            i <= files@.len(),
            out@.len() == i,
            entries_view(out@) =~= packed(sources).subrange(0, i as int),
        decreases files@.len() - i,
    {
        let f = &files[i];
        let e = Entry { name: Some(entry_name(f.relative_path.as_str())), data: copy_bytes(&f.data) };
        out.push(e);
        assert(sources[i as int] == files@[i as int]@);
        assert(out@[i as int]@ == packed(sources)[i as int]);
        i = i + 1;
        assert(entries_view(out@) =~= packed(sources).subrange(0, i as int));
    }
    assert(packed(sources).subrange(0, i as int) =~= packed(sources));
    Archive { byte_order, files: out }
}

/// The number of unnamed entries among the first `n`.
pub open spec fn unnamed_before(files: Seq<EntryView>, n: int) -> nat
    decreases n,
{
    if n <= 0 || n > files.len() {
        0
    } else {
        unnamed_before(files, n - 1) + if files[n - 1].name is None {
            1nat
        } else {
            0nat
        }
    }
}

/// The generated name of the `k`-th unnamed entry, counting from zero.
pub open spec fn placeholder_name(k: nat) -> Seq<char> {
    "unk"@ + decimal(k) + ".bin"@
}

/// The path, under the output directory, to which entry `i` is unpacked.
pub open spec fn output_path(files: Seq<EntryView>, i: int) -> Seq<char> {
    match files[i].name {
        Some(n) => n,
        None => placeholder_name(unnamed_before(files, i)),
    }
}

/// A file to write when unpacking; `generated_name` marks an entry that had
/// no name, for which a warning is due.
pub struct OutputFile {
    pub path: String,
    pub data: Vec<u8>,
    pub generated_name: bool,
}

impl View for OutputFile {
    type V = (Seq<char>, Seq<u8>, bool);

    open spec fn view(&self) -> (Seq<char>, Seq<u8>, bool) {
        (self.path@, self.data@, self.generated_name)
    }
}

/// The files that unpacking writes: one per entry, in order.
pub open spec fn unpacked(files: Seq<EntryView>) -> Seq<(Seq<char>, Seq<u8>, bool)> {
    Seq::new(files.len(), |i: int| (output_path(files, i), files[i].data, files[i].name is None))
}

/// There are never more unnamed entries among the first `n` than `n`.
pub proof fn lemma_unnamed_before_bound(files: Seq<EntryView>, n: int)
    requires
        0 <= n <= files.len(),
    ensures
        unnamed_before(files, n) <= n,
    decreases n,
{
    if n > 0 {
        lemma_unnamed_before_bound(files, n - 1);
    }
}

/// The files to write for an archive's entries.
pub fn unpack(archive: &Archive) -> (r: Vec<OutputFile>)
    ensures
        r@.map_values(|o: OutputFile| o@) == unpacked(entries_view(archive.files@)),
{
    let ghost files = entries_view(archive.files@);
    let mut out: Vec<OutputFile> = Vec::new();
    let mut unk: usize = 0;
    let mut i: usize = 0;
    while i < archive.files.len()
        invariant
            files == entries_view(archive.files@),
            i <= files.len(),
            unk as nat == unnamed_before(files, i as int),
            out@.len() == i,
            out@.map_values(|o: OutputFile| o@) =~= unpacked(files).subrange(0, i as int),
        decreases files.len() - i,
    {
        proof {
            lemma_unnamed_before_bound(files, i as int);
        }
        let e = &archive.files[i];
        let o = match &e.name {
            Some(n) => OutputFile { path: n.clone(), data: copy_bytes(&e.data), generated_name: false },
            None => {
                let mut path = String::from_str("unk");
                let digits = decimal_text(unk);
                path.append(digits.as_str());
                path.append(".bin");
                unk = unk + 1;
                OutputFile { path, data: copy_bytes(&e.data), generated_name: true }
            },
        };
        out.push(o);
        assert(out@[i as int]@ == unpacked(files)[i as int]);
        i = i + 1;
        assert(out@.map_values(|o: OutputFile| o@) =~= unpacked(files).subrange(0, i as int));
    }
    assert(unpacked(files).subrange(0, i as int) =~= unpacked(files));
    out
}

/// The name of the ZIP member for entry `i`: its own name, or the index
/// followed by `.bin`.
pub open spec fn member_name(files: Seq<EntryView>, i: int) -> Seq<char> {
    match files[i].name {
        Some(n) => n,
        None => decimal(i as nat) + ".bin"@,
    }
}

/// One member of a ZIP container: a name and its uncompressed bytes.
pub struct ZipMember {
    pub name: String,
    pub data: Vec<u8>,
}

impl View for ZipMember {
    type V = (Seq<char>, Seq<u8>);

    open spec fn view(&self) -> (Seq<char>, Seq<u8>) {
        (self.name@, self.data@)
    }
}

/// The ZIP members written for an archive's entries, in order.
pub open spec fn zip_members_of(files: Seq<EntryView>) -> Seq<(Seq<char>, Seq<u8>)> {
    Seq::new(files.len(), |i: int| (member_name(files, i), files[i].data))
}

/// The ZIP members for an archive.
pub fn to_zip_members(archive: &Archive) -> (r: Vec<ZipMember>)
    ensures
        r@.map_values(|m: ZipMember| m@) == zip_members_of(entries_view(archive.files@)),
{
    let ghost files = entries_view(archive.files@);
    let mut out: Vec<ZipMember> = Vec::new();
    let mut i: usize = 0;
    while i < archive.files.len()
        invariant
            files == entries_view(archive.files@),
            i <= files.len(),
            out@.len() == i,
            out@.map_values(|m: ZipMember| m@) =~= zip_members_of(files).subrange(0, i as int),
        decreases files.len() - i,
    {
        let e = &archive.files[i];
        let name = match &e.name {
            Some(n) => n.clone(),
            None => {
                let mut s = decimal_text(i);
                s.append(".bin");
                s
            },
        };
        out.push(ZipMember { name, data: copy_bytes(&e.data) });
        assert(out@[i as int]@ == zip_members_of(files)[i as int]);
        i = i + 1;
        assert(out@.map_values(|m: ZipMember| m@) =~= zip_members_of(files).subrange(0, i as int));
    }
    assert(zip_members_of(files).subrange(0, i as int) =~= zip_members_of(files));
    out
}

/// The entries read back from ZIP members: every one named, in member order.
pub open spec fn entries_from_members(members: Seq<(Seq<char>, Seq<u8>)>) -> Seq<EntryView> {
    members.map_values(|m: (Seq<char>, Seq<u8>)| EntryView { name: Some(m.0), data: m.1 })
}

/// Builds an archive from the members of a ZIP container.
pub fn from_zip_members(members: &Vec<ZipMember>, byte_order: ByteOrder) -> (r: Archive)
    ensures
        r.byte_order == byte_order,
        entries_view(r.files@) == entries_from_members(members@.map_values(|m: ZipMember| m@)),
{
    let ghost ms = members@.map_values(|m: ZipMember| m@);
    let mut out: Vec<Entry> = Vec::new();
    let mut i: usize = 0;
    while i < members.len()
        invariant
            ms == members@.map_values(|m: ZipMember| m@),
            i <= members@.len(),
            out@.len() == i,
            entries_view(out@) =~= entries_from_members(ms).subrange(0, i as int),
        decreases members@.len() - i,
    {
        let m = &members[i];
        out.push(Entry { name: Some(m.name.clone()), data: copy_bytes(&m.data) });
        assert(ms[i as int] == members@[i as int]@);
        assert(out@[i as int]@ == entries_from_members(ms)[i as int]);
        i = i + 1;
        assert(entries_view(out@) =~= entries_from_members(ms).subrange(0, i as int));
    }
    assert(entries_from_members(ms).subrange(0, i as int) =~= entries_from_members(ms));
    Archive { byte_order, files: out }
}

} // verus!

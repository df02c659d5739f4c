use sarc_tool::codec::{encode_archive, name_hash_fits};
use sarc_tool::convert::{entry_name, from_zip_members, pack, to_zip_members, unpack, SourceFile, ZipMember};
use sarc_tool::model::{Archive, ByteOrder, Compression, Entry};

fn source(path: &str, data: &[u8]) -> SourceFile {
    SourceFile { relative_path: path.to_string(), data: data.to_vec() }
}

fn entry(name: Option<&str>, data: &[u8]) -> Entry {
    Entry { name: name.map(|n| n.to_string()), data: data.to_vec() }
}

fn decode_archive(bytes: &[u8]) -> Archive {
    let f = sarc::SarcFile::read(bytes).unwrap();
    let byte_order = match f.byte_order {
        sarc::Endian::Little => ByteOrder::Little,
        sarc::Endian::Big => ByteOrder::Big,
    };
    Archive { byte_order, files: f.files.into_iter().map(|e| Entry { name: e.name, data: e.data }).collect() }
}

fn round_trip(compression: Compression, byte_order: ByteOrder) {
    let files = vec![source("a/b.txt", b"hi"), source("c.txt", b"bye")];
    let archive = pack(&files, byte_order);
    let bytes = encode_archive(archive, compression).ok().unwrap();
    let back = decode_archive(&bytes);
    assert_eq!(back.byte_order, byte_order);
    let mut out: Vec<(String, Vec<u8>, bool)> =
        unpack(&back).into_iter().map(|o| (o.path, o.data, o.generated_name)).collect();
    out.sort();
    assert_eq!(
        out,
        vec![
            ("a/b.txt".to_string(), b"hi".to_vec(), false),
            ("c.txt".to_string(), b"bye".to_vec(), false),
        ]
    );
}

#[test]
fn pack_then_unpack_little_endian_uncompressed() {
    round_trip(Compression::Uncompressed, ByteOrder::Little);
}

#[test]
fn pack_then_unpack_big_endian_yaz0() {
    round_trip(Compression::Yaz0, ByteOrder::Big);
}

#[test]
fn pack_then_unpack_zstd() {
    round_trip(Compression::Zstd, ByteOrder::Little);
}

#[test]
fn entry_names_use_forward_slashes() {
    assert_eq!(entry_name("a\\b\\c.txt"), "a/b/c.txt");
    assert_eq!(entry_name("a/b.txt"), "a/b.txt");
    assert_eq!(entry_name(""), "");
}

#[test]
fn pack_names_entries_by_relative_path() {
    let a = pack(&vec![source("dir\\x.bin", &[9]), source("y", &[])], ByteOrder::Big);
    assert_eq!(a.byte_order, ByteOrder::Big);
    assert_eq!(a.files.len(), 2);
    assert_eq!(a.files[0].name.as_deref(), Some("dir/x.bin"));
    assert_eq!(a.files[0].data, vec![9]);
    assert_eq!(a.files[1].name.as_deref(), Some("y"));
    assert!(a.files[1].data.is_empty());
}

#[test]
fn unpack_names_unnamed_entries_in_order() {
    let a = Archive {
        byte_order: ByteOrder::Little,
        files: vec![entry(Some("first.txt"), b"1"), entry(None, b"2"), entry(Some("d/e"), b""), entry(None, b"4")],
    };
    let out = unpack(&a);
    let paths: Vec<&str> = out.iter().map(|o| o.path.as_str()).collect();
    assert_eq!(paths, vec!["first.txt", "unk0.bin", "d/e", "unk1.bin"]);
    let flags: Vec<bool> = out.iter().map(|o| o.generated_name).collect();
    assert_eq!(flags, vec![false, true, false, true]);
    assert_eq!(out[1].data, b"2".to_vec());
    assert_eq!(out[3].data, b"4".to_vec());
}

#[test]
fn zip_members_name_unnamed_entries_by_index() {
    let a = Archive {
        byte_order: ByteOrder::Little,
        files: vec![entry(Some("n.txt"), b"x"), entry(None, b"yy"), entry(None, b"")],
    };
    let m = to_zip_members(&a);
    let names: Vec<&str> = m.iter().map(|m| m.name.as_str()).collect();
    assert_eq!(names, vec!["n.txt", "1.bin", "2.bin"]);
    assert_eq!(m[1].data, b"yy".to_vec());
}

#[test]
fn zip_members_become_named_entries() {
    let members = vec![
        ZipMember { name: "a/b".to_string(), data: b"q".to_vec() },
        ZipMember { name: "0.bin".to_string(), data: vec![] },
    ];
    let a = from_zip_members(&members, ByteOrder::Big);
    assert_eq!(a.byte_order, ByteOrder::Big);
    assert_eq!(a.files[0].name.as_deref(), Some("a/b"));
    assert_eq!(a.files[0].data, b"q".to_vec());
    assert_eq!(a.files[1].name.as_deref(), Some("0.bin"));
}

#[test]
fn archive_through_zip_and_back() {
    let a = Archive {
        byte_order: ByteOrder::Big,
        files: vec![entry(Some("keep.txt"), b"abc"), entry(None, &[0, 1, 2])],
    };
    let members = to_zip_members(&a);
    let mut zipped = std::io::Cursor::new(Vec::new());
    {
        let mut w = zip::ZipWriter::new(&mut zipped);
        let options = zip::write::FileOptions::default().compression_method(zip::CompressionMethod::Deflated);
        for m in &members {
            w.start_file(m.name.clone(), options).unwrap();
            std::io::Write::write_all(&mut w, &m.data).unwrap();
        }
        w.finish().unwrap();
    }
    let mut reader = zip::ZipArchive::new(std::io::Cursor::new(zipped.into_inner())).unwrap();
    let mut read_back = Vec::new();
    for i in 0..reader.len() {
        let mut f = reader.by_index(i).unwrap();
        let mut data = Vec::new();
        std::io::Read::read_to_end(&mut f, &mut data).unwrap();
        read_back.push(ZipMember { name: f.name().to_string(), data });
    }
    let rebuilt = from_zip_members(&read_back, ByteOrder::Big);
    let bytes2 = encode_archive(rebuilt, Compression::Uncompressed).ok().unwrap();
    let again = decode_archive(&bytes2);
    let mut got: Vec<(Option<String>, Vec<u8>)> = again.files.into_iter().map(|e| (e.name, e.data)).collect();
    got.sort();
    assert_eq!(
        got,
        vec![(Some("1.bin".to_string()), vec![0, 1, 2]), (Some("keep.txt".to_string()), b"abc".to_vec())]
    );
}

#[test]
fn encoded_archive_starts_with_its_magic() {
    let a = Archive { byte_order: ByteOrder::Little, files: vec![entry(Some("f"), b"data")] };
    let plain = encode_archive(a, Compression::Uncompressed).ok().unwrap();
    assert_eq!(&plain[..4], b"SARC");
    let a = Archive { byte_order: ByteOrder::Big, files: vec![entry(Some("f"), b"data")] };
    let packed = encode_archive(a, Compression::Yaz0).ok().unwrap();
    assert_eq!(&packed[..4], b"Yaz0");
    let a = Archive { byte_order: ByteOrder::Big, files: vec![] };
    let packed = encode_archive(a, Compression::Zstd).ok().unwrap();
    assert_eq!(&packed[..4], b"\x28\xB5\x2F\xFD");
}

#[test]
fn name_hash_overflow_is_detected() {
    assert!(name_hash_fits("a/b.txt"));
    assert!(name_hash_fits(""));
    assert!(!name_hash_fits("\u{CD953}Za"));
}

#[test]
fn unhashable_name_is_refused() {
    let a = Archive { byte_order: ByteOrder::Little, files: vec![entry(Some("ok"), b"1"), entry(Some("\u{CD953}Za"), b"2")] };
    let e = encode_archive(a, Compression::Yaz0).err().unwrap();
    assert_eq!(e.kind, sarc_tool::error::ConvertErrorKind::SarcError);
    let a = Archive { byte_order: ByteOrder::Little, files: vec![entry(None, b"1")] };
    assert!(encode_archive(a, Compression::Uncompressed).is_ok());
}

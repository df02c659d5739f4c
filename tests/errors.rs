use sarc_tool::error::{ConvertError, ConvertErrorKind};
use sarc_tool::model::{byte_order_from_flags, compression_from_flags, endian, ByteOrder, Compression};

#[test]
fn constructors_set_kind_and_message() {
    let cases: Vec<(ConvertError, ConvertErrorKind)> = vec![
        (ConvertError::param("m"), ConvertErrorKind::Param),
        (ConvertError::nus3audio("m"), ConvertErrorKind::Nus3audio),
        (ConvertError::file("m"), ConvertErrorKind::File),
        (ConvertError::msc("m"), ConvertErrorKind::Msc),
        (ConvertError::message_format("m"), ConvertErrorKind::MessageFormat),
        (ConvertError::byml("m"), ConvertErrorKind::Byml),
        (ConvertError::new(ConvertErrorKind::ZipError, "m"), ConvertErrorKind::ZipError),
    ];
    for (e, k) in cases {
        assert_eq!(e.kind, k);
        assert_eq!(e.message, "m");
    }
}

#[test]
fn endian_flag() {
    assert_eq!(endian(true), ByteOrder::Big);
    assert_eq!(endian(false), ByteOrder::Little);
}

#[test]
fn conflicting_byte_order_flags_are_rejected() {
    let e = byte_order_from_flags(true, true).err().unwrap();
    assert_eq!(e.kind, ConvertErrorKind::Param);
    assert_eq!(byte_order_from_flags(false, false).ok(), Some(ByteOrder::Little));
    assert_eq!(byte_order_from_flags(true, false).ok(), Some(ByteOrder::Big));
    assert_eq!(byte_order_from_flags(false, true).ok(), Some(ByteOrder::Little));
}

#[test]
fn conflicting_compression_flags_are_rejected() {
    let e = compression_from_flags(true, true).err().unwrap();
    assert_eq!(e.kind, ConvertErrorKind::Param);
    assert_eq!(compression_from_flags(false, false).ok(), Some(Compression::Uncompressed));
    assert_eq!(compression_from_flags(true, false).ok(), Some(Compression::Yaz0));
    assert_eq!(compression_from_flags(false, true).ok(), Some(Compression::Zstd));
}

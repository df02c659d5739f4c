//! The library's error type.
use vstd::prelude::*;
use vstd::string::StringExecFns;

verus! {

/// What went wrong, by category.
#[derive(Debug, Clone, Copy, PartialEq, Eq, Structural)]
pub enum ConvertErrorKind {
    Param,
    Nus3audio,
    Msc,
    File,
    HandleNone,
    YamlError,
    Utf8Error,
    ParseIntError,
    MessageFormat,
    WaveError,
    SarcError,
    ZipError,
    Byml,
    Yaz0Error,
}

/// An error: its category and a message for the operator.
pub struct ConvertError {
    pub message: String,
    pub kind: ConvertErrorKind,
}

impl ConvertError {
    /// An error of the given kind carrying `message`.
    pub fn new(kind: ConvertErrorKind, message: &str) -> (r: ConvertError)
        ensures
            r.kind == kind,
            r.message@ == message@,
    {
        ConvertError { message: String::from_str(message), kind }
    }

    /// An invalid or conflicting parameter.
    pub fn param(message: &str) -> (r: ConvertError)
        ensures
            r.kind == ConvertErrorKind::Param,
            r.message@ == message@,
    {
        ConvertError { message: String::from_str(message), kind: ConvertErrorKind::Param }
    }

    pub fn nus3audio(message: &str) -> (r: ConvertError)
        ensures
            r.kind == ConvertErrorKind::Nus3audio,
            r.message@ == message@,
    {
        ConvertError { message: String::from_str(message), kind: ConvertErrorKind::Nus3audio }
    }

    /// A failure to read, write or create a path.
    pub fn file(message: &str) -> (r: ConvertError)
        ensures
            r.kind == ConvertErrorKind::File,
            r.message@ == message@,
    {
        ConvertError { message: String::from_str(message), kind: ConvertErrorKind::File }
    }

    pub fn msc(message: &str) -> (r: ConvertError)
        ensures
            r.kind == ConvertErrorKind::Msc,
            r.message@ == message@,
    {
        ConvertError { message: String::from_str(message), kind: ConvertErrorKind::Msc }
    }

    pub fn message_format(message: &str) -> (r: ConvertError)
        ensures
            r.kind == ConvertErrorKind::MessageFormat,
            r.message@ == message@,
    {
        ConvertError { message: String::from_str(message), kind: ConvertErrorKind::MessageFormat }
    }

    pub fn byml(message: &str) -> (r: ConvertError)
        ensures
            r.kind == ConvertErrorKind::Byml,
            r.message@ == message@,
    {
        ConvertError { message: String::from_str(message), kind: ConvertErrorKind::Byml }
    }
}

} // verus!

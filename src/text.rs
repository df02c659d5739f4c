//! Text rendering of bytes and sizes.
use vstd::prelude::*;

verus! {

/// The hexadecimal digit for a value below sixteen, upper case.
pub open spec fn hex_digit(d: nat) -> char {
    if d < 10 {
        ((48 + d) as u8) as char
    } else {
        ((55 + d) as u8) as char
    }
}

/// Two upper-case hexadecimal digits for one byte.
pub open spec fn hex_pair(b: u8) -> Seq<char> {
    seq![hex_digit((b / 16) as nat), hex_digit((b % 16) as nat)]
}

/// A byte shown as itself when it is printable ASCII, as `.` otherwise.
pub open spec fn shown_char(b: u8) -> char {
    if 0x20 <= b && b <= 0x7e {
        b as char
    } else {
        '.'
    }
}

/// The decimal digit for a value below ten.
pub open spec fn decimal_digit(d: nat) -> char {
    ((48 + d) as u8) as char
}

/// The decimal notation of a natural number, without leading zeros.
pub open spec fn decimal(n: nat) -> Seq<char>
    decreases n,
{
    if n < 10 {
        seq![decimal_digit(n)]
    } else {
        decimal(n / 10).push(decimal_digit(n % 10))
    }
}

/// Relies on `String::push`: the character is appended at the end.
#[verifier::external_body]
pub(crate) fn push_char(s: &mut String, c: char)
    ensures
        final(s)@ == old(s)@.push(c),
{
    s.push(c);
}

fn digit_char(d: u8) -> (c: char)
    requires
        d < 16,
    ensures
        c == hex_digit(d as nat),
        d < 10 ==> c == decimal_digit(d as nat),
{
    if d < 10 {
        (48 + d) as char
    } else {
        (55 + d) as char
    }
}

/// Two upper-case hexadecimal digits for a byte.
pub fn hex(byte: &u8) -> (r: String)
    ensures
        r@ == hex_pair(*byte),
{
    let mut r = String::new();
    push_char(&mut r, digit_char(*byte / 16));
    push_char(&mut r, digit_char(*byte % 16));
    r
}

/// The byte as a character when it is printable ASCII, `.` otherwise.
pub fn byte_char(byte: &u8) -> (c: char)
    ensures
        c == shown_char(*byte),
{
    if 0x20 <= *byte && *byte <= 0x7e {
        *byte as char
    } else {
        '.'
    }
}

/// The decimal notation of `n`.
pub fn decimal_text(n: usize) -> (r: String)
    ensures
        r@ == decimal(n as nat),
    decreases n,
{
    if n < 10 {
        let mut r = String::new();
        push_char(&mut r, digit_char(n as u8));
        r
    } else {
        let mut r = decimal_text(n / 10);
        push_char(&mut r, digit_char((n % 10) as u8));
        r
    }
}

} // verus!

verus! {

/// What humansize writes for a byte count in its conventional format
/// (powers of 1024, unit names `B`, `KB`, `MB`, ...).
pub uninterp spec fn human_size_of(n: nat) -> Seq<char>;

/// Relies on humansize's `FileSize::file_size` for `usize` with the
/// `CONVENTIONAL` options: the text depends on the number alone, and the
/// unsigned impl never returns an error.
#[verifier::external_body]
fn human_size(n: usize) -> (r: String)
    ensures
        r@ == human_size_of(n as nat),
{
    humansize::FileSize::file_size(&n, humansize::file_size_opts::CONVENTIONAL).unwrap()
}

/// A size as shown in a listing: the exact byte count in decimal when
/// `byte_count` is set, the human-readable form otherwise.
pub open spec fn size_text(n: nat, byte_count: bool) -> Seq<char> {
    if byte_count {
        decimal(n)
    } else {
        human_size_of(n)
    }
}

/// Formats a size for a listing.
pub fn size(bytes: usize, byte_count: bool) -> (r: String)
    ensures
        r@ == size_text(bytes as nat, byte_count),
{
    if byte_count {
        decimal_text(bytes)
    } else {
        human_size(bytes)
    }
}

} // verus!

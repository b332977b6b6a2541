use crate::errors::LocalError;
use crate::strings::push_char;
use vstd::prelude::*;

verus! {

/// Byte order of a multi-byte integer field.
#[derive(Debug, Clone, Copy, PartialEq, Eq, Structural)]
pub enum Endian {
    Little,
    Big,
}

/// The value of two bytes read as an unsigned integer in the given byte order.
pub open spec fn u16_value(b: Seq<u8>, endian: Endian) -> int {
    match endian {
        Endian::Little => b[0] + 256 * b[1],
        Endian::Big => 256 * b[0] + b[1],
    }
}

/// The value of four bytes read as an unsigned integer in the given byte order.
pub open spec fn u32_value(b: Seq<u8>, endian: Endian) -> int {
    match endian {
        Endian::Little => b[0] + 256 * b[1] + 65536 * b[2] + 16777216 * b[3],
        Endian::Big => 16777216 * b[0] + 65536 * b[1] + 256 * b[2] + b[3],
    }
}

/// The value of eight bytes read as an unsigned integer in the given byte order.
pub open spec fn u64_value(b: Seq<u8>, endian: Endian) -> int {
    match endian {
        Endian::Little => u32_value(b.take(4), Endian::Little) + 4294967296 * u32_value(
            b.skip(4),
            Endian::Little,
        ),
        Endian::Big => 4294967296 * u32_value(b.take(4), Endian::Big) + u32_value(
            b.skip(4),
            Endian::Big,
        ),
    }
}

/// A byte read as a two's complement signed integer.
pub open spec fn i8_value(b: u8) -> int {
    if b >= 128 {
        b - 256
    } else {
        b as int
    }
}

/// Two bytes read as a two's complement signed integer.
pub open spec fn i16_value(b: Seq<u8>, endian: Endian) -> int {
    if u16_value(b, endian) >= 32768 {
        u16_value(b, endian) - 65536
    } else {
        u16_value(b, endian)
    }
}

/// Four bytes read as a two's complement signed integer.
pub open spec fn i32_value(b: Seq<u8>, endian: Endian) -> int {
    if u32_value(b, endian) >= 2147483648 {
        u32_value(b, endian) - 4294967296
    } else {
        u32_value(b, endian)
    }
}

/// What taking `n` bytes does: on success the first `n` bytes are consumed;
/// when fewer are there the bytes stay as they were and the error names
/// the shortfall.
pub open spec fn took<T>(
    result: Result<T, LocalError>,
    old_bytes: Seq<u8>,
    new_bytes: Seq<u8>,
    n: int,
) -> bool {
    match result {
        Ok(_) => n <= old_bytes.len() && new_bytes == old_bytes.skip(n),
        Err(e) => n > old_bytes.len() && new_bytes == old_bytes && e
            == LocalError::InsufficientBytesToTake(n as usize, old_bytes.len() as usize),
    }
}

/// A byte is kept in text when it is a printable ASCII character.
pub open spec fn is_printable(b: u8) -> bool {
    0x20 <= b && b <= 0x7e
}

/// The text of a byte sequence: the printable ASCII bytes, in order, as
/// characters; all other bytes (NUL, control characters, non-ASCII) are
/// dropped.
pub open spec fn printable_text(s: Seq<u8>) -> Seq<char>
    decreases s.len(),
{
    if s.len() == 0 {
        Seq::empty()
    } else if is_printable(s.last()) {
        printable_text(s.drop_last()).push(s.last() as char)
    } else {
        printable_text(s.drop_last())
    }
}

/// Taking `n` bytes from the front of `s`: the bytes taken and the rest,
/// or the error naming the shortfall.
pub open spec fn take_field(s: Seq<u8>, n: int) -> Result<(Seq<u8>, Seq<u8>), LocalError> {
    if n <= s.len() {
        Ok((s.take(n), s.skip(n)))
    } else {
        Err(LocalError::InsufficientBytesToTake(n as usize, s.len() as usize))
    }
}

/// A byte field, followed by the rest.
pub open spec fn u8_field(s: Seq<u8>) -> Result<(u8, Seq<u8>), LocalError> {
    match take_field(s, 1) {
        Ok((b, rest)) => Ok((b[0], rest)),
        Err(e) => Err(e),
    }
}

/// A signed byte field, followed by the rest.
pub open spec fn i8_field(s: Seq<u8>) -> Result<(i8, Seq<u8>), LocalError> {
    match take_field(s, 1) {
        Ok((b, rest)) => Ok((i8_value(b[0]) as i8, rest)),
        Err(e) => Err(e),
    }
}

/// A two byte unsigned field, followed by the rest.
pub open spec fn u16_field(s: Seq<u8>, endian: Endian) -> Result<(u16, Seq<u8>), LocalError> {
    match take_field(s, 2) {
        Ok((b, rest)) => Ok((u16_value(b, endian) as u16, rest)),
        Err(e) => Err(e),
    }
}

/// A two byte signed field, followed by the rest.
pub open spec fn i16_field(s: Seq<u8>, endian: Endian) -> Result<(i16, Seq<u8>), LocalError> {
    match take_field(s, 2) {
        Ok((b, rest)) => Ok((i16_value(b, endian) as i16, rest)),
        Err(e) => Err(e),
    }
}

/// A four byte unsigned field, followed by the rest.
pub open spec fn u32_field(s: Seq<u8>, endian: Endian) -> Result<(u32, Seq<u8>), LocalError> {
    match take_field(s, 4) {
        Ok((b, rest)) => Ok((u32_value(b, endian) as u32, rest)),
        Err(e) => Err(e),
    }
}

/// A four byte signed field, followed by the rest.
pub open spec fn i32_field(s: Seq<u8>, endian: Endian) -> Result<(i32, Seq<u8>), LocalError> {
    match take_field(s, 4) {
        Ok((b, rest)) => Ok((i32_value(b, endian) as i32, rest)),
        Err(e) => Err(e),
    }
}

/// An eight byte unsigned field, followed by the rest.
pub open spec fn u64_field(s: Seq<u8>, endian: Endian) -> Result<(u64, Seq<u8>), LocalError> {
    match take_field(s, 8) {
        Ok((b, rest)) => Ok((u64_value(b, endian) as u64, rest)),
        Err(e) => Err(e),
    }
}

/// A text field of `n` bytes (see `printable_text`), followed by the rest.
pub open spec fn text_field(s: Seq<u8>, n: int) -> Result<(Seq<char>, Seq<u8>), LocalError> {
    match take_field(s, n) {
        Ok((b, rest)) => Ok((printable_text(b), rest)),
        Err(e) => Err(e),
    }
}

/// A taken value together with the bytes left after it.
pub open spec fn with_rest<T>(result: Result<T, LocalError>, rest: Seq<u8>) -> Result<
    (T, Seq<u8>),
    LocalError,
> {
    match result {
        Ok(v) => Ok((v, rest)),
        Err(e) => Err(e),
    }
}

/// Taken bytes, by their view, together with the bytes left after them.
pub open spec fn bytes_with_rest(result: Result<Vec<u8>, LocalError>, rest: Seq<u8>) -> Result<
    (Seq<u8>, Seq<u8>),
    LocalError,
> {
    match result {
        Ok(v) => Ok((v@, rest)),
        Err(e) => Err(e),
    }
}

/// Taken text, by its view, together with the bytes left after it.
pub open spec fn text_with_rest(result: Result<String, LocalError>, rest: Seq<u8>) -> Result<
    (Seq<char>, Seq<u8>),
    LocalError,
> {
    match result {
        Ok(v) => Ok((v@, rest)),
        Err(e) => Err(e),
    }
}

/// Removes the first `number_of_bytes` bytes from `bytes` and returns them.
pub fn take_first_number_of_bytes(bytes: &mut Vec<u8>, number_of_bytes: usize) -> (result: Result<Vec<u8>, LocalError>)
    ensures
        bytes_with_rest(result, final(bytes)@) == take_field(old(bytes)@, number_of_bytes as int),
        match result {
            Ok(taken) => number_of_bytes <= old(bytes)@.len() && taken@ == old(bytes)@.take(
                number_of_bytes as int,
            ) && final(bytes)@ == old(bytes)@.skip(number_of_bytes as int),
            Err(e) => number_of_bytes > old(bytes)@.len() && e == LocalError::InsufficientBytesToTake(
                number_of_bytes,
                old(bytes)@.len() as usize,
            ) && final(bytes)@ == old(bytes)@,
        },
{
    let available = bytes.len();
    if number_of_bytes > available {
        return Err(LocalError::InsufficientBytesToTake(number_of_bytes, available));
    }
    let mut taken = bytes.split_off(number_of_bytes);
    std::mem::swap(bytes, &mut taken);
    assert(taken@ =~= old(bytes)@.take(number_of_bytes as int));
    Ok(taken)
}

/// Removes the first byte from `bytes` and returns it.
pub fn take_first_byte(bytes: &mut Vec<u8>) -> (result: Result<u8, LocalError>)
    ensures
        with_rest(result, final(bytes)@) == u8_field(old(bytes)@),
        took(result, old(bytes)@, final(bytes)@, 1),
        result matches Ok(b) ==> b == old(bytes)@[0],
{
    if bytes.len() == 0 {
        return Err(LocalError::InsufficientBytesToTake(1, 0));
    }
    let b = bytes.remove(0);
    assert(bytes@ =~= old(bytes)@.skip(1));
    Ok(b)
}

/// Removes the first byte from `bytes` and returns it as an unsigned
/// integer; a single byte has no byte order, so `endian` has no effect.
pub fn take_first_byte_as_unsigned_integer(bytes: &mut Vec<u8>, endian: Endian) -> (result: Result<
    u8,
    LocalError,
>)
    ensures
        with_rest(result, final(bytes)@) == u8_field(old(bytes)@),
        took(result, old(bytes)@, final(bytes)@, 1),
        result matches Ok(b) ==> b == old(bytes)@[0],
{
    take_first_byte(bytes)
}

/// Removes the first byte from `bytes` and returns it as a signed integer.
pub fn take_first_byte_as_signed_integer(bytes: &mut Vec<u8>, endian: Endian) -> (result: Result<
    i8,
    LocalError,
>)
    ensures
        with_rest(result, final(bytes)@) == i8_field(old(bytes)@),
        took(result, old(bytes)@, final(bytes)@, 1),
        result matches Ok(v) ==> v == i8_value(old(bytes)@[0]),
{
    match take_first_byte(bytes) {
        Ok(b) => {
            if b >= 128 {
                Ok((b as i16 - 256) as i8)
            } else {
                Ok(b as i8)
            }
        },
        Err(e) => Err(e),
    }
}

/// Removes the first two bytes and returns them as an unsigned integer.
pub fn take_first_two_bytes_as_unsigned_integer(bytes: &mut Vec<u8>, endian: Endian) -> (result:
    Result<u16, LocalError>)
    ensures
        with_rest(result, final(bytes)@) == u16_field(old(bytes)@, endian),
        took(result, old(bytes)@, final(bytes)@, 2),
        result matches Ok(v) ==> v == u16_value(old(bytes)@.take(2), endian),
{
    match take_first_number_of_bytes(bytes, 2) {
        Ok(b) => {
            let v = match endian {
                Endian::Little => b[0] as u16 + 256 * (b[1] as u16),
                Endian::Big => 256 * (b[0] as u16) + b[1] as u16,
            };
            Ok(v)
        },
        Err(e) => Err(e),
    }
}

/// Removes the first two bytes and returns them as a signed integer.
pub fn take_first_two_bytes_as_signed_integer(bytes: &mut Vec<u8>, endian: Endian) -> (result:
    Result<i16, LocalError>)
    ensures
        with_rest(result, final(bytes)@) == i16_field(old(bytes)@, endian),
        took(result, old(bytes)@, final(bytes)@, 2),
        result matches Ok(v) ==> v == i16_value(old(bytes)@.take(2), endian),
{
    match take_first_two_bytes_as_unsigned_integer(bytes, endian) {
        Ok(u) => {
            if u >= 32768 {
                Ok((u as i32 - 65536) as i16)
            } else {
                Ok(u as i16)
            }
        },
        Err(e) => Err(e),
    }
}

/// Removes the first four bytes and returns them as an unsigned integer.
pub fn take_first_four_bytes_as_unsigned_integer(bytes: &mut Vec<u8>, endian: Endian) -> (result:
    Result<u32, LocalError>)
    ensures
        with_rest(result, final(bytes)@) == u32_field(old(bytes)@, endian),
        took(result, old(bytes)@, final(bytes)@, 4),
        result matches Ok(v) ==> v == u32_value(old(bytes)@.take(4), endian),
{
    match take_first_number_of_bytes(bytes, 4) {
        Ok(b) => {
            let v = match endian {
                Endian::Little => b[0] as u32 + 256 * (b[1] as u32) + 65536 * (b[2] as u32)
                    + 16777216 * (b[3] as u32),
                Endian::Big => 16777216 * (b[0] as u32) + 65536 * (b[1] as u32) + 256 * (
                b[2] as u32) + b[3] as u32,
            };
            Ok(v)
        },
        Err(e) => Err(e),
    }
}

/// Removes the first four bytes and returns them as a signed integer.
pub fn take_first_four_bytes_as_signed_integer(bytes: &mut Vec<u8>, endian: Endian) -> (result:
    Result<i32, LocalError>)
    ensures
        with_rest(result, final(bytes)@) == i32_field(old(bytes)@, endian),
        took(result, old(bytes)@, final(bytes)@, 4),
        result matches Ok(v) ==> v == i32_value(old(bytes)@.take(4), endian),
{
    match take_first_four_bytes_as_unsigned_integer(bytes, endian) {
        Ok(u) => {
            if u >= 2147483648 {
                Ok((u as i64 - 4294967296) as i32)
            } else {
                Ok(u as i32)
            }
        },
        Err(e) => Err(e),
    }
}

/// Removes the first four bytes, little-endian, and returns them as the bit
/// pattern of a 32-bit float.
pub fn take_first_four_bytes_as_float_bits(bytes: &mut Vec<u8>) -> (result: Result<u32, LocalError>)
    ensures
        with_rest(result, final(bytes)@) == u32_field(old(bytes)@, Endian::Little),
        took(result, old(bytes)@, final(bytes)@, 4),
        result matches Ok(v) ==> v == u32_value(old(bytes)@.take(4), Endian::Little),
{
    take_first_four_bytes_as_unsigned_integer(bytes, Endian::Little)
}

/// Removes the first eight bytes and returns them as an unsigned integer.
pub fn take_first_eight_bytes_as_unsigned_integer(bytes: &mut Vec<u8>, endian: Endian) -> (result:
    Result<u64, LocalError>)
    ensures
        with_rest(result, final(bytes)@) == u64_field(old(bytes)@, endian),
        took(result, old(bytes)@, final(bytes)@, 8),
        result matches Ok(v) ==> v == u64_value(old(bytes)@.take(8), endian),
{
    let ghost start = bytes@;
    if bytes.len() < 8 {
        return Err(LocalError::InsufficientBytesToTake(8, bytes.len()));
    }
    let first = take_first_four_bytes_as_unsigned_integer(bytes, endian);
    let second = take_first_four_bytes_as_unsigned_integer(bytes, endian);
    match (first, second) {
        (Ok(a), Ok(b)) => {
            assert(start.take(8).take(4) =~= start.take(4));
            assert(start.take(8).skip(4) =~= start.skip(4).take(4));
            assert(bytes@ =~= start.skip(8));
            let v = match endian {
                Endian::Little => a as u64 + 4294967296 * (b as u64),
                Endian::Big => 4294967296 * (a as u64) + b as u64,
            };
            Ok(v)
        },
        _ => {
            assert(false);
            Err(LocalError::InsufficientBytesToTake(8, 0))
        },
    }
}

/// Removes the first `number_of_bytes` bytes and returns their text (see
/// `printable_text`).
pub fn take_first_number_of_bytes_as_string(bytes: &mut Vec<u8>, number_of_bytes: usize) -> (result:
    Result<String, LocalError>)
    ensures
        text_with_rest(result, final(bytes)@) == text_field(old(bytes)@, number_of_bytes as int),
        took(result, old(bytes)@, final(bytes)@, number_of_bytes as int),
        result matches Ok(text) ==> text@ == printable_text(old(bytes)@.take(number_of_bytes as int)),
{
    match take_first_number_of_bytes(bytes, number_of_bytes) {
        Ok(taken) => Ok(printable_string(&taken)),
        Err(e) => Err(e),
    }
}

/// The text of a byte sequence (see `printable_text`).
pub fn printable_string(bytes: &Vec<u8>) -> (text: String)
    ensures
        text@ == printable_text(bytes@),
{
    let mut text = String::new();
    let mut i: usize = 0;
    while i < bytes.len()
        invariant
            i <= bytes@.len(),
            text@ == printable_text(bytes@.take(i as int)),
        decreases bytes@.len() - i,
    {
        let b = bytes[i];
        assert(bytes@.take(i + 1).drop_last() =~= bytes@.take(i as int));
        if 0x20 <= b && b <= 0x7e {
            push_char(&mut text, b as char);
        }
        i = i + 1;
    }
    assert(bytes@.take(i as int) =~= bytes@);
    text
}

/// Two bytes from `k` on, least significant first.
pub open spec fn le16(s: Seq<u8>, k: int) -> int {
    s[k] + 256 * s[k + 1]
}

/// Four bytes from `k` on, least significant first.
pub open spec fn le32(s: Seq<u8>, k: int) -> int {
    s[k] + 256 * s[k + 1] + 65536 * s[k + 2] + 16777216 * s[k + 3]
}

/// Two bytes from `k` on, most significant first.
pub open spec fn be16(s: Seq<u8>, k: int) -> int {
    256 * s[k] + s[k + 1]
}

/// Four bytes from `k` on, most significant first.
pub open spec fn be32(s: Seq<u8>, k: int) -> int {
    16777216 * s[k] + 65536 * s[k + 1] + 256 * s[k + 2] + s[k + 3]
}

} // verus!

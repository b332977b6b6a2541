use vstd::prelude::*;

verus! {

/// The decimal digit character of `d` (for `d < 10`).
pub open spec fn digit_char(d: nat) -> char {
    (48 + d) as char
}

/// The decimal text of a natural number, without leading zeros.
pub open spec fn decimal_text(n: nat) -> Seq<char>
    decreases n,
{
    if n < 10 {
        seq![digit_char(n)]
    } else {
        decimal_text(n / 10).push(digit_char(n % 10))
    }
}

/// The decimal text of an integer, with a leading `-` when it is negative.
pub open spec fn signed_decimal_text(i: int) -> Seq<char> {
    if i < 0 {
        seq!['-'] + decimal_text((-i) as nat)
    } else {
        decimal_text(i as nat)
    }
}

/// The lower-case hexadecimal digit character of `d` (for `d < 16`).
pub open spec fn hex_digit_lower(d: nat) -> char {
    if d < 10 {
        (48 + d) as char
    } else {
        (87 + d) as char
    }
}

/// The upper-case hexadecimal digit character of `d` (for `d < 16`).
pub open spec fn hex_digit_upper(d: nat) -> char {
    if d < 10 {
        (48 + d) as char
    } else {
        (55 + d) as char
    }
}

/// A byte as two lower-case hexadecimal digits.
pub open spec fn hex_pair_lower(b: u8) -> Seq<char> {
    seq![hex_digit_lower((b / 16) as nat), hex_digit_lower((b % 16) as nat)]
}

/// A byte as two upper-case hexadecimal digits.
pub open spec fn hex_pair_upper(b: u8) -> Seq<char> {
    seq![hex_digit_upper((b / 16) as nat), hex_digit_upper((b % 16) as nat)]
}

/// A byte as upper-case hexadecimal digits without padding.
pub open spec fn hex_upper_unpadded(b: u8) -> Seq<char> {
    if b < 16 {
        seq![hex_digit_upper(b as nat)]
    } else {
        hex_pair_upper(b)
    }
}

/// `n` copies of the space character.
pub open spec fn spaces(n: nat) -> Seq<char> {
    Seq::new(n, |i: int| ' ')
}

/// Appends one character to a string (std's `String::push`).
#[verifier::external_body]
pub fn push_char(text: &mut String, c: char)
    ensures
        final(text)@ == old(text)@.push(c),
{
    text.push(c);
}

/// The character of a decimal digit.
pub fn digit_to_char(d: u64) -> (c: char)
    requires
        d < 10,
    ensures
        c == digit_char(d as nat),
{
    ((48 + d) as u8) as char
}

/// Appends the decimal text of `n`.
pub fn push_decimal(text: &mut String, n: u64)
    ensures
        final(text)@ == old(text)@ + decimal_text(n as nat),
    decreases n,
{
    if n >= 10 {
        push_decimal(text, n / 10);
    }
    let c = digit_to_char(n % 10);
    push_char(text, c);
    proof {
        if n >= 10 {
            assert(decimal_text(n as nat) == decimal_text((n / 10) as nat).push(digit_char((n % 10) as nat)));
        }
    }
    assert(final(text)@ =~= old(text)@ + decimal_text(n as nat));
}

/// The decimal text of `n` as a new string.
pub fn decimal_string(n: u64) -> (text: String)
    ensures
        text@ == decimal_text(n as nat),
{
    let mut text = String::new();
    push_decimal(&mut text, n);
    assert(text@ =~= decimal_text(n as nat));
    text
}

/// Appends the decimal text of a signed integer.
pub fn push_signed_decimal(text: &mut String, i: i64)
    ensures
        final(text)@ == old(text)@ + signed_decimal_text(i as int),
{
    if i < 0 {
        push_char(text, '-');
        let magnitude: u64 = if i == i64::MIN {
            9223372036854775808u64
        } else {
            (-i) as u64
        };
        push_decimal(text, magnitude);
        assert(final(text)@ =~= old(text)@ + signed_decimal_text(i as int));
    } else {
        push_decimal(text, i as u64);
    }
}

/// The decimal text of a signed integer as a new string.
pub fn signed_decimal_string(i: i64) -> (text: String)
    ensures
        text@ == signed_decimal_text(i as int),
{
    let mut text = String::new();
    push_signed_decimal(&mut text, i);
    assert(text@ =~= signed_decimal_text(i as int));
    text
}

/// The character of a hexadecimal digit, lower case.
pub fn hex_digit_lower_char(d: u8) -> (c: char)
    requires
        d < 16,
    ensures
        c == hex_digit_lower(d as nat),
{
    if d < 10 {
        (48 + d) as char
    } else {
        (87 + d) as char
    }
}

/// The character of a hexadecimal digit, upper case.
pub fn hex_digit_upper_char(d: u8) -> (c: char)
    requires
        d < 16,
    ensures
        c == hex_digit_upper(d as nat),
{
    if d < 10 {
        (48 + d) as char
    } else {
        (55 + d) as char
    }
}

/// Appends a byte as two lower-case hexadecimal digits.
pub fn push_hex_pair_lower(text: &mut String, b: u8)
    ensures
        final(text)@ == old(text)@ + hex_pair_lower(b),
{
    push_char(text, hex_digit_lower_char(b / 16));
    push_char(text, hex_digit_lower_char(b % 16));
    assert(final(text)@ =~= old(text)@ + hex_pair_lower(b));
}

/// Appends a byte as two upper-case hexadecimal digits.
pub fn push_hex_pair_upper(text: &mut String, b: u8)
    ensures
        final(text)@ == old(text)@ + hex_pair_upper(b),
{
    push_char(text, hex_digit_upper_char(b / 16));
    push_char(text, hex_digit_upper_char(b % 16));
    assert(final(text)@ =~= old(text)@ + hex_pair_upper(b));
}

/// Appends a byte as upper-case hexadecimal digits without padding.
pub fn push_hex_upper_unpadded(text: &mut String, b: u8)
    ensures
        final(text)@ == old(text)@ + hex_upper_unpadded(b),
{
    if b < 16 {
        push_char(text, hex_digit_upper_char(b));
        assert(final(text)@ =~= old(text)@ + hex_upper_unpadded(b));
    } else {
        push_hex_pair_upper(text, b);
    }
}

/// Appends `count` spaces.
pub fn push_spaces(text: &mut String, count: usize)
    ensures
        final(text)@ == old(text)@ + spaces(count as nat),
{
    let ghost start = text@;
    let mut i: usize = 0;
    while i < count
        invariant
            i <= count,
            text@ == start + spaces(i as nat),
        decreases count - i,
    {
        push_char(text, ' ');
        i = i + 1;
        assert(text@ =~= start + spaces(i as nat));
    }
}

/// A string of `count` spaces.
pub fn spaces_string(count: usize) -> (text: String)
    ensures
        text@ == spaces(count as nat),
{
    let mut text = String::new();
    push_spaces(&mut text, count);
    assert(text@ =~= spaces(count as nat));
    text
}

/// Whether a string holds exactly the given text.
pub fn text_equals(text: &String, expected: &str) -> (equal: bool)
    ensures
        equal == (text@ == expected@),
{
    *text == String::from_str(expected)
}

/// Name for the text `String::from_utf8_lossy` makes of bytes (invalid
/// sequences replaced by U+FFFD).
pub uninterp spec fn utf8_lossy_text(bytes: Seq<u8>) -> Seq<char>;

/// Calls `String::from_utf8_lossy`. Stated: the result is the named text,
/// and for valid UTF-8 it is the decoded text, as std documents; how
/// invalid sequences are replaced is left unstated.
#[verifier::external_body]
pub(crate) fn utf8_lossy_string(bytes: &[u8]) -> (text: String)
    ensures
        text@ == utf8_lossy_text(bytes@),
        vstd::utf8::valid_utf8(bytes@) ==> text@ == vstd::utf8::decode_utf8(bytes@),
{
    String::from_utf8_lossy(bytes).to_string()
}

/// Calls `String::from_utf8`. Stated, as std documents it: the call succeeds
/// exactly on valid UTF-8, and the text is then the decoded bytes.
#[verifier::external_body]
pub(crate) fn utf8_string(bytes: Vec<u8>) -> (text: Option<String>)
    ensures
        text.is_some() <==> vstd::utf8::valid_utf8(bytes@),
        text matches Some(t) ==> t@ == vstd::utf8::decode_utf8(bytes@),
{
    String::from_utf8(bytes).ok()
}

/// Whether a character has the Unicode `White_Space` property, as
/// `char::is_whitespace` documents it.
pub open spec fn is_white_space(c: char) -> bool {
    let v = c as u32;
    ||| 0x09 <= v && v <= 0x0D
    ||| v == 0x20
    ||| v == 0x85
    ||| v == 0xA0
    ||| v == 0x1680
    ||| 0x2000 <= v && v <= 0x200A
    ||| v == 0x2028
    ||| v == 0x2029
    ||| v == 0x202F
    ||| v == 0x205F
    ||| v == 0x3000
}

/// Whether a character is white space (see `is_white_space`).
pub fn is_white_space_char(c: char) -> (white: bool)
    ensures
        white == is_white_space(c),
{
    let v = c as u32;
    (0x09 <= v && v <= 0x0D) || v == 0x20 || v == 0x85 || v == 0xA0 || v == 0x1680 || (0x2000
        <= v && v <= 0x200A) || v == 0x2028 || v == 0x2029 || v == 0x202F || v == 0x205F || v
        == 0x3000
}

/// `s` without its leading white space.
pub open spec fn trim_start_white_space(s: Seq<char>) -> Seq<char>
    decreases s.len(),
{
    if s.len() > 0 && is_white_space(s[0]) {
        trim_start_white_space(s.skip(1))
    } else {
        s
    }
}

/// `s` without its trailing white space.
pub open spec fn trim_end_white_space(s: Seq<char>) -> Seq<char>
    decreases s.len(),
{
    if s.len() > 0 && is_white_space(s.last()) {
        trim_end_white_space(s.drop_last())
    } else {
        s
    }
}

/// `s` without its leading and trailing white space, as `str::trim` gives it.
pub open spec fn trim_white_space(s: Seq<char>) -> Seq<char> {
    trim_end_white_space(trim_start_white_space(s))
}

/// A string without its leading and trailing white space.
pub fn trim_white_space_string(text: &str) -> (trimmed: String)
    ensures
        trimmed@ == trim_white_space(text@),
{
    let n = text.unicode_len();
    let mut i: usize = 0;
    assert(text@.skip(0) =~= text@);
    while i < n && is_white_space_char(text.get_char(i))
        invariant
            n == text@.len(),
            i <= n,
            trim_start_white_space(text@) == trim_start_white_space(text@.skip(i as int)),
        decreases n - i,
    {
        assert(text@.skip(i as int).skip(1) =~= text@.skip(i + 1));
        i = i + 1;
    }
    let ghost start = text@.skip(i as int);
    assert(trim_start_white_space(text@) == start);
    let mut j: usize = n;
    assert(start.take((n - i) as int) =~= start);
    while j > i && is_white_space_char(text.get_char(j - 1))
        invariant
            n == text@.len(),
            i <= j <= n,
            start == text@.skip(i as int),
            trim_end_white_space(start) == trim_end_white_space(start.take((j - i) as int)),
        decreases j,
    {
        assert(start.take((j - i) as int).drop_last() =~= start.take((j - 1 - i) as int));
        assert(start.take((j - i) as int).last() == text@[j - 1]);
        j = j - 1;
    }
    assert(text@.subrange(i as int, j as int) =~= start.take((j - i) as int));
    String::from_str(text.substring_char(i, j))
}

/// The views of a list of strings.
pub open spec fn lines_view(lines: Seq<String>) -> Seq<Seq<char>> {
    lines.map_values(|s: String| s@)
}

/// Appends a line to a list of lines.
pub fn push_line(lines: &mut Vec<String>, line: String)
    ensures
        lines_view(final(lines)@) == lines_view(old(lines)@).push(line@),
{
    lines.push(line);
    assert(lines_view(lines@) =~= lines_view(old(lines)@).push(line@));
}

/// The number of characters in the first two bytes of a text whose first
/// character is ASCII or two bytes long.
pub open spec fn byte_two_split(v: Seq<char>) -> int {
    if (v[0] as u32) < 128 {
        2
    } else {
        1
    }
}

/// Whether a character can go in at byte 2 of a text: its first two
/// characters are ASCII, or its first character is two bytes long.
pub open spec fn insertable_at_byte_two(v: Seq<char>) -> bool {
    ||| v.len() >= 2 && (v[0] as u32) < 128 && (v[1] as u32) < 128
    ||| v.len() >= 1 && 0x80 <= (v[0] as u32) && (v[0] as u32) < 0x800
}

/// `v` with `c` put in at byte 2.
pub open spec fn inserted_at_byte_two(v: Seq<char>, c: char) -> Seq<char> {
    v.take(byte_two_split(v)) + seq![c] + v.skip(byte_two_split(v))
}

/// Puts a character in at byte 2 of a text.
pub fn insert_at_byte_two(text: &String, c: char) -> (result: String)
    requires
        insertable_at_byte_two(text@),
    ensures
        result@ == inserted_at_byte_two(text@, c),
{
    let n = text.as_str().unicode_len();
    let first = text.as_str().get_char(0);
    let split: usize = if (first as u32) < 128 {
        2
    } else {
        1
    };
    let mut joined = String::from_str(text.as_str().substring_char(0, split));
    push_char(&mut joined, c);
    joined.append(text.as_str().substring_char(split, n));
    assert(text@.subrange(0, split as int) =~= text@.take(split as int));
    assert(text@.subrange(split as int, n as int) =~= text@.skip(split as int));
    assert(joined@ =~= inserted_at_byte_two(text@, c));
    joined
}

/// The index of the first `c` in a text (its length when there is none).
pub open spec fn index_of_char(s: Seq<char>, c: char) -> int
    decreases s.len(),
{
    if s.len() == 0 || s[0] == c {
        0
    } else {
        1 + index_of_char(s.skip(1), c)
    }
}

/// The index of a character lies within the text, or is its length.
pub proof fn lemma_index_of_char_bounds(s: Seq<char>, c: char)
    ensures
        0 <= index_of_char(s, c) <= s.len(),
    decreases s.len(),
{
    if s.len() > 0 && s[0] != c {
        lemma_index_of_char_bounds(s.skip(1), c);
    }
}

proof fn lemma_index_of_char(s: Seq<char>, c: char, i: int)
    requires
        0 <= i <= s.len(),
        forall|j: int| 0 <= j < i ==> s[j] != c,
        i == s.len() || s[i] == c,
    ensures
        index_of_char(s, c) == i,
    decreases i,
{
    if i > 0 {
        assert forall|j: int| 0 <= j < i - 1 implies s.skip(1)[j] != c by {
            assert(s.skip(1)[j] == s[j + 1]);
        }
        lemma_index_of_char(s.skip(1), c, i - 1);
    }
}

/// Finds the first `c` in a text from character `start` on: its index, or
/// the text's length when there is none.
pub fn find_char(text: &str, c: char, start: usize) -> (index: usize)
    requires
        start <= text@.len(),
    ensures
        index == start + index_of_char(text@.skip(start as int), c),
        index <= text@.len(),
{
    let n = text.unicode_len();
    let mut i: usize = start;
    while i < n && text.get_char(i) != c
        invariant
            n == text@.len(),
            start <= i <= n,
            forall|j: int| start <= j < i ==> text@[j] != c,
        decreases n - i,
    {
        i = i + 1;
    }
    proof {
        let rest = text@.skip(start as int);
        assert forall|j: int| 0 <= j < i - start implies rest[j] != c by {
            assert(rest[j] == text@[start + j]);
        }
        if i < n {
            assert(rest[i - start] == text@[i as int]);
        }
        lemma_index_of_char(rest, c, i - start);
    }
    i
}

proof fn lemma_trim_start(s: Seq<char>)
    ensures
        trim_start_white_space(s).len() > 0 ==> !is_white_space(trim_start_white_space(s)[0]),
        trim_start_white_space(s).len() <= s.len(),
    decreases s.len(),
{
    if s.len() > 0 && is_white_space(s[0]) {
        lemma_trim_start(s.skip(1));
    }
}

proof fn lemma_trim_end(s: Seq<char>)
    ensures
        trim_end_white_space(s).len() > 0 ==> !is_white_space(trim_end_white_space(s).last()),
        trim_end_white_space(s).len() <= s.len(),
        trim_end_white_space(s) == s.take(trim_end_white_space(s).len() as int),
    decreases s.len(),
{
    if s.len() > 0 && is_white_space(s.last()) {
        lemma_trim_end(s.drop_last());
        assert(s.drop_last().take(trim_end_white_space(s).len() as int) =~= s.take(
            trim_end_white_space(s).len() as int,
        ));
    } else {
        assert(s.take(s.len() as int) =~= s);
    }
}

/// Trimmed text neither starts nor ends with white space.
pub proof fn trimmed_text_has_no_outer_white_space(s: Seq<char>)
    ensures
        trim_white_space(s).len() > 0 ==> {
            &&& !is_white_space(trim_white_space(s)[0])
            &&& !is_white_space(trim_white_space(s).last())
        },
{
    let t = trim_start_white_space(s);
    lemma_trim_start(s);
    lemma_trim_end(t);
    if trim_white_space(s).len() > 0 {
        assert(trim_white_space(s) == trim_end_white_space(t));
        assert(trim_end_white_space(t)[0] == t.take(trim_end_white_space(t).len() as int)[0]);
    }
}

/// A character in lower case, where it is an ASCII capital letter.
pub open spec fn ascii_lower_char(c: char) -> char {
    if 'A' <= c && c <= 'Z' {
        ((c as u32) + 32) as char
    } else {
        c
    }
}

/// A text with its ASCII capital letters in lower case.
pub open spec fn ascii_lower(s: Seq<char>) -> Seq<char> {
    s.map_values(|c: char| ascii_lower_char(c))
}

/// Writes a text with its ASCII capital letters in lower case.
pub fn ascii_lowercase(text: &str) -> (lower: String)
    ensures
        lower@ == ascii_lower(text@),
{
    let n = text.unicode_len();
    let mut lower = String::new();
    let mut i: usize = 0;
    while i < n
        invariant
            n == text@.len(),
            i <= n,
            lower@ =~= ascii_lower(text@.take(i as int)),
        decreases n - i,
    {
        let c = text.get_char(i);
        let l = if 'A' <= c && c <= 'Z' {
            let code: u32 = c as u32;
            let b: u8 = code as u8;
            assert(b as u32 == code) by (bit_vector)
                requires
                    code < 128u32,
                    b == code as u8;
            (b + 32) as char
        } else {
            c
        };
        assert(l == ascii_lower_char(c));
        push_char(&mut lower, l);
        assert(text@.take(i + 1) =~= text@.take(i as int).push(c));
        i = i + 1;
    }
    assert(text@.take(n as int) =~= text@);
    lower
}

} // verus!

//! Textual color formats.
//!
//! This module parses the textual color formats that terminals and
//! style sheets use: the hashed hexadecimal format, the X Windows
//! `rgb:` format, and a subset of the CSS functional syntax. The
//! grammars are specified and checked byte by byte over the UTF-8
//! encoding of the input, exactly as the formats are defined.
//!
//! A parsed coordinate is either an exact ratio of two integers, for
//! the hexadecimal formats, or the validated decimal literal itself;
//! turning a literal into a double-precision value is rounding
//! arithmetic and stays with the host embedding.

use vstd::prelude::*;
use vstd::slice::slice_to_vec;
use vstd::string::StringSliceAdditionalSpecFns;

use crate::space::ColorSpace;

verus! {

/// An erroneous color format.
#[derive(Copy, Clone, Debug, PartialEq, Eq)]
pub enum ColorFormatError {
    /// A color format that does not start with a known prefix such as
    /// `#` or `rgb:`.
    UnknownFormat,
    /// A color format with unexpected characters or an unexpected
    /// number of characters.
    UnexpectedCharacters,
    /// A parenthesized color format without the opening parenthesis.
    NoOpeningParenthesis,
    /// A parenthesized color format without the closing parenthesis.
    NoClosingParenthesis,
    /// A color format that is using an unknown color space.
    UnknownColorSpace,
    /// A color format that is missing a coordinate.
    MissingCoordinate,
    /// A color format whose coordinate has too many hexadecimal digits.
    OversizedCoordinate,
    /// A color format whose coordinate is a malformed hexadecimal
    /// number.
    MalformedHex,
    /// A color format whose coordinate is a malformed floating point
    /// number.
    MalformedFloat,
    /// A color format with more than three coordinates.
    TooManyCoordinates,
}

/// One parsed coordinate.
///
/// The hexadecimal formats denote exact ratios; the CSS format carries
/// decimal literals, handed on in validated textual form.
#[derive(Debug, PartialEq, Eq)]
pub enum CoordValue {
    /// The coordinate `numerator / denominator`.
    Ratio { numerator: u16, denominator: u16 },
    /// A decimal literal, as its bytes.
    Decimal(Vec<u8>),
}

// ------------------------------------------------------------------------
// Hexadecimal numbers, as `from_str_radix` with radix 16 reads them: an
// optional leading plus sign, then one or more hexadecimal digits.

/// Whether the byte is a hexadecimal digit.
pub open spec fn is_hex_digit(b: u8) -> bool {
    48 <= b <= 57 || 97 <= b <= 102 || 65 <= b <= 70
}

/// The value of a hexadecimal digit, zero for any other byte.
pub open spec fn hex_digit_val(b: u8) -> u8 {
    if 48 <= b <= 57 {
        (b - 48) as u8
    } else if 97 <= b <= 102 {
        (b - 87) as u8
    } else if 65 <= b <= 70 {
        (b - 55) as u8
    } else {
        0
    }
}

/// Whether every byte of the sequence is a hexadecimal digit.
pub open spec fn all_hex(s: Seq<u8>) -> bool {
    forall|i: int| 0 <= i < s.len() ==> is_hex_digit(#[trigger] s[i])
}

/// The value of a sequence of hexadecimal digits.
pub open spec fn hex_value(s: Seq<u8>) -> int
    decreases s.len(),
{
    if s.len() == 0 {
        0
    } else {
        16 * hex_value(s.drop_last()) + hex_digit_val(s.last())
    }
}

/// The number a hexadecimal coordinate denotes: an optional plus sign,
/// then at least one digit. Mirrors what `from_str_radix` accepts for
/// an unsigned integer with radix 16.
pub open spec fn spec_radix16(s: Seq<u8>) -> Option<int> {
    let t = if s.len() > 0 && s[0] == 43 {
        s.drop_first()
    } else {
        s
    };
    if t.len() > 0 && all_hex(t) {
        Some(hex_value(t))
    } else {
        None
    }
}

/// Sixteen to the given power.
pub open spec fn pow16(n: nat) -> int
    decreases n,
{
    if n == 0 {
        1
    } else {
        16 * pow16((n - 1) as nat)
    }
}

/// A sequence of hexadecimal digits denotes a nonnegative value below
/// sixteen to its length.
pub proof fn lemma_hex_value_bound(s: Seq<u8>)
    ensures
        0 <= hex_value(s) < pow16(s.len()),
    decreases s.len(),
{
    if s.len() > 0 {
        lemma_hex_value_bound(s.drop_last());
    }
}

/// The executable hexadecimal digit test.
fn hex_digit(b: u8) -> (r: Option<u8>)
    ensures
        r is Some <==> is_hex_digit(b),
        r matches Some(v) ==> v == hex_digit_val(b),
{
    if 48 <= b && b <= 57 {
        Some(b - 48)
    } else if 97 <= b && b <= 102 {
        Some(b - 87)
    } else if 65 <= b && b <= 70 {
        Some(b - 55)
    } else {
        None
    }
}

/// Read the bytes `start..end` as a hexadecimal number.
fn parse_hex16(b: &Vec<u8>, start: usize, end: usize) -> (r: Option<u16>)
    requires
        start <= end <= b@.len(),
        end - start <= 4,
    ensures
        r is Some <==> spec_radix16(b@.subrange(start as int, end as int)) is Some,
        r matches Some(v) ==> spec_radix16(b@.subrange(start as int, end as int)) == Some(
            v as int,
        ),
{
    let ghost whole = b@.subrange(start as int, end as int);
    let mut i = start;
    if i < end && b[i] == 43 {
        i = i + 1;
    }
    let ghost digits = b@.subrange(i as int, end as int);
    proof {
        if start < i {
            assert(whole.drop_first() =~= digits);
        } else {
            assert(whole =~= digits);
        }
        assert(spec_radix16(whole) == (if digits.len() > 0 && all_hex(digits) {
            Some(hex_value(digits))
        } else {
            None::<int>
        }));
    }
    if i == end {
        return None;
    }
    let mut value: u16 = 0;
    let first = i;
    while i < end
        invariant
            first <= i <= end,
            end <= b@.len(),
            end - first <= 4,
            end - first >= 1,
            digits =~= b@.subrange(first as int, end as int),
            spec_radix16(b@.subrange(start as int, end as int)) == (if all_hex(digits) {
                Some(hex_value(digits))
            } else {
                None::<int>
            }),
            all_hex(b@.subrange(first as int, i as int)),
            value == hex_value(b@.subrange(first as int, i as int)),
        decreases end - i,
    {
        let ghost prefix = b@.subrange(first as int, i as int);
        let d = match hex_digit(b[i]) {
            Some(d) => d,
            None => {
                proof {
                    assert(digits[i - first] == b@[i as int]);
                    assert(!is_hex_digit(digits[i - first]));
                    assert(!all_hex(digits));
                }
                return None;
            },
        };
        proof {
            lemma_hex_value_bound(prefix);
            assert(prefix.len() <= 3);
            assert(pow16(3) == 16 * pow16(2) && pow16(2) == 16 * pow16(1) && pow16(1) == 16
                * pow16(0));
            assert(hex_value(prefix) <= 0xfff);
            assert(b@.subrange(first as int, i + 1).drop_last() =~= prefix);
            assert(b@.subrange(first as int, i + 1).last() == b@[i as int]);
        }
        value = value * 16 + (d as u16);
        i = i + 1;
        proof {
            assert forall|k: int| 0 <= k < i - first implies is_hex_digit(
                #[trigger] b@.subrange(first as int, i as int)[k],
            ) by {
                assert(b@.subrange(first as int, i as int)[k] == b@[first + k]);
                if k < i - 1 - first {
                    assert(prefix[k] == b@[first + k]);
                }
            }
        }
    }
    proof {
        assert(digits =~= b@.subrange(first as int, end as int));
        assert(all_hex(digits));
    }
    Some(value)
}

// ------------------------------------------------------------------------
// The hashed hexadecimal format.

/// Whether an index sits on a character boundary of valid UTF-8 text:
/// at the end, or on a byte that does not continue a preceding
/// character.
pub open spec fn boundary(s: Seq<u8>, i: int) -> bool {
    i == s.len() || s[i] < 0x80 || s[i] >= 0xc0
}

/// One coordinate of the hashed hexadecimal format: the slice of one or
/// two digits at the index, doubled up to two digits when single.
pub open spec fn spec_hashed_coord(s: Seq<u8>, index: int) -> Result<u8, ColorFormatError> {
    let factor = s.len() as int / 3;
    let lo = 1 + factor * index;
    let hi = 1 + factor * (index + 1);
    if !(boundary(s, lo) && boundary(s, hi)) {
        Err(ColorFormatError::UnexpectedCharacters)
    } else {
        match spec_radix16(s.subrange(lo, hi)) {
            None => Err(ColorFormatError::MalformedHex),
            Some(n) => Ok(
                (if factor == 1 {
                    16 * n + n
                } else {
                    n
                }) as u8,
            ),
        }
    }
}

/// What parsing a hashed hexadecimal color returns: three coordinates
/// as unsigned bytes, or the first error.
pub open spec fn spec_parse_hashed(s: Seq<u8>) -> Result<(u8, u8, u8), ColorFormatError> {
    if s.len() == 0 || s[0] != 35 {
        Err(ColorFormatError::UnknownFormat)
    } else if s.len() != 4 && s.len() != 7 {
        Err(ColorFormatError::UnexpectedCharacters)
    } else {
        match spec_hashed_coord(s, 0) {
            Err(e) => Err(e),
            Ok(c1) => match spec_hashed_coord(s, 1) {
                Err(e) => Err(e),
                Ok(c2) => match spec_hashed_coord(s, 2) {
                    Err(e) => Err(e),
                    Ok(c3) => Ok((c1, c2, c3)),
                },
            },
        }
    }
}

/// The executable boundary test.
fn boundary_at(b: &Vec<u8>, i: usize) -> (r: bool)
    requires
        i <= b@.len(),
    ensures
        r == boundary(b@, i as int),
{
    i == b.len() || b[i] < 0x80 || b[i] >= 0xc0
}

/// One coordinate of the hashed hexadecimal format.
fn hashed_coord(b: &Vec<u8>, index: usize) -> (r: Result<u8, ColorFormatError>)
    requires
        b@.len() == 4 || b@.len() == 7,
        index < 3,
    ensures
        r == spec_hashed_coord(b@, index as int),
{
    let factor = b.len() / 3;
    let lo = if factor == 1 {
        1 + index
    } else {
        1 + 2 * index
    };
    let hi = lo + factor;
    proof {
        if b@.len() == 4 {
            assert(b@.len() as int / 3 == 1);
        } else {
            assert(b@.len() as int / 3 == 2);
        }
        assert(lo == 1 + (b@.len() as int / 3) * (index as int));
        assert(hi == 1 + (b@.len() as int / 3) * (index as int + 1));
    }
    if !(boundary_at(b, lo) && boundary_at(b, hi)) {
        Err(ColorFormatError::UnexpectedCharacters)
    } else {
        match parse_hex16(b, lo, hi) {
            None => Err(ColorFormatError::MalformedHex),
            Some(n) => {
                proof {
                    let sub = b@.subrange(lo as int, hi as int);
                    let t = if sub.len() > 0 && sub[0] == 43 {
                        sub.drop_first()
                    } else {
                        sub
                    };
                    lemma_hex_value_bound(t);
                    assert(pow16(0) == 1);
                    assert(pow16(1) == 16);
                    assert(pow16(2) == 256);
                }
                if factor == 1 {
                    Ok((16 * n + n) as u8)
                } else {
                    Ok(n as u8)
                }
            },
        }
    }
}

/// The byte-level core of [`parse_hashed`].
fn parse_hashed_bytes(b: &Vec<u8>) -> (r: Result<[u8; 3], ColorFormatError>)
    ensures
        (r is Ok) == (spec_parse_hashed(b@) is Ok),
        r matches Ok(v) ==> (spec_parse_hashed(b@) matches Ok(t) && v@ =~= seq![t.0, t.1, t.2]),
        r matches Err(e) ==> (spec_parse_hashed(b@) matches Err(t) && e == t),
{
    if b.len() == 0 || b[0] != 35 {
        return Err(ColorFormatError::UnknownFormat);
    }
    if b.len() != 4 && b.len() != 7 {
        return Err(ColorFormatError::UnexpectedCharacters);
    }
    let c1 = match hashed_coord(b, 0) {
        Ok(c) => c,
        Err(e) => {
            return Err(e);
        },
    };
    let c2 = match hashed_coord(b, 1) {
        Ok(c) => c,
        Err(e) => {
            return Err(e);
        },
    };
    let c3 = match hashed_coord(b, 2) {
        Ok(c) => c,
        Err(e) => {
            return Err(e);
        },
    };
    Ok([c1, c2, c3])
}

/// Parse a 24-bit color in hashed hexadecimal format. If successful,
/// this function returns the three coordinates as unsigned bytes. It
/// transparently handles single-digit coordinates, which stand for
/// themselves doubled up, so that `#123` equals `#112233`.
pub fn parse_hashed(s: &str) -> (r: Result<[u8; 3], ColorFormatError>)
    ensures
        (r is Ok) == (spec_parse_hashed(s.spec_bytes()) is Ok),
        r matches Ok(v) ==> (spec_parse_hashed(s.spec_bytes()) matches Ok(t) && v@ =~= seq![
            t.0,
            t.1,
            t.2,
        ]),
        r matches Err(e) ==> (spec_parse_hashed(s.spec_bytes()) matches Err(t) && e == t),
{
    let b = slice_to_vec(s.as_bytes());
    parse_hashed_bytes(&b)
}

// ------------------------------------------------------------------------
// The X Windows format.

/// Whether the sequence starts with the given prefix.
pub open spec fn starts_with(s: Seq<u8>, prefix: Seq<u8>) -> bool {
    prefix.len() <= s.len() && s.subrange(0, prefix.len() as int) =~= prefix
}

/// The index of the first slash at or after `i`, or the length where
/// none follows.
pub open spec fn next_slash(s: Seq<u8>, i: int) -> int
    recommends
        0 <= i <= s.len(),
    decreases s.len() - i,
{
    if i >= s.len() {
        s.len() as int
    } else if s[i] == 47 {
        i
    } else {
        next_slash(s, i + 1)
    }
}

/// A slash search never moves backwards nor past the end.
pub proof fn lemma_next_slash_bounds(s: Seq<u8>, i: int)
    requires
        0 <= i <= s.len(),
    ensures
        i <= next_slash(s, i) <= s.len(),
    decreases s.len() - i,
{
    if i < s.len() && s[i] != 47 {
        lemma_next_slash_bounds(s, i + 1);
    }
}

/// One coordinate of the X Windows format: the number of hexadecimal
/// digits, one through four, and the value they denote.
pub open spec fn spec_x_coord(s: Seq<u8>, lo: int, hi: int) -> Result<
    (u8, u16),
    ColorFormatError,
> {
    if hi - lo == 0 {
        Err(ColorFormatError::MissingCoordinate)
    } else if hi - lo > 4 {
        Err(ColorFormatError::OversizedCoordinate)
    } else {
        match spec_radix16(s.subrange(lo, hi)) {
            None => Err(ColorFormatError::MalformedHex),
            Some(n) => Ok((((hi - lo) as u8), (n as u16))),
        }
    }
}

/// What parsing an X Windows color returns: for each of the three
/// slash-separated coordinates, its digit count and value, or the
/// first error.
pub open spec fn spec_parse_x(s: Seq<u8>) -> Result<
    ((u8, u16), (u8, u16), (u8, u16)),
    ColorFormatError,
> {
    if !starts_with(s, seq![114u8, 103u8, 98u8, 58u8]) {
        Err(ColorFormatError::UnknownFormat)
    } else {
        let e1 = next_slash(s, 4);
        match spec_x_coord(s, 4, e1) {
            Err(e) => Err(e),
            Ok(c1) => if e1 == s.len() {
                Err(ColorFormatError::MissingCoordinate)
            } else {
                let e2 = next_slash(s, e1 + 1);
                match spec_x_coord(s, e1 + 1, e2) {
                    Err(e) => Err(e),
                    Ok(c2) => if e2 == s.len() {
                        Err(ColorFormatError::MissingCoordinate)
                    } else {
                        let e3 = next_slash(s, e2 + 1);
                        match spec_x_coord(s, e2 + 1, e3) {
                            Err(e) => Err(e),
                            Ok(c3) => if e3 < s.len() {
                                Err(ColorFormatError::TooManyCoordinates)
                            } else {
                                Ok((c1, c2, c3))
                            },
                        }
                    },
                }
            },
        }
    }
}

/// Find the first slash at or after `from`.
fn find_slash(b: &Vec<u8>, from: usize) -> (r: usize)
    requires
        from <= b@.len(),
    ensures
        from <= r <= b@.len(),
        r == next_slash(b@, from as int),
{
    let mut i = from;
    while i < b.len()
        invariant
            from <= i <= b@.len(),
            next_slash(b@, from as int) == next_slash(b@, i as int),
        decreases b@.len() - i,
    {
        if b[i] == 47 {
            return i;
        }
        i = i + 1;
    }
    i
}

/// One coordinate of the X Windows format.
fn x_coord(b: &Vec<u8>, lo: usize, hi: usize) -> (r: Result<(u8, u16), ColorFormatError>)
    requires
        lo <= hi <= b@.len(),
    ensures
        r == spec_x_coord(b@, lo as int, hi as int),
{
    if hi - lo == 0 {
        Err(ColorFormatError::MissingCoordinate)
    } else if hi - lo > 4 {
        Err(ColorFormatError::OversizedCoordinate)
    } else {
        match parse_hex16(b, lo, hi) {
            None => Err(ColorFormatError::MalformedHex),
            Some(n) => Ok((((hi - lo) as u8), n)),
        }
    }
}

/// The byte-level core of [`parse_x`].
fn parse_x_bytes(b: &Vec<u8>) -> (r: Result<[(u8, u16); 3], ColorFormatError>)
    ensures
        (r is Ok) == (spec_parse_x(b@) is Ok),
        r matches Ok(v) ==> (spec_parse_x(b@) matches Ok(t) && v@ =~= seq![t.0, t.1, t.2]),
        r matches Err(e) ==> (spec_parse_x(b@) matches Err(t) && e == t),
{
    let has_prefix = b.len() >= 4 && b[0] == 114 && b[1] == 103 && b[2] == 98 && b[3] == 58;
    proof {
        if has_prefix {
            assert(b@.subrange(0, 4) =~= seq![114u8, 103u8, 98u8, 58u8]);
        } else if b@.len() >= 4 {
            assert(b@.subrange(0, 4)[0] == b@[0] && b@.subrange(0, 4)[1] == b@[1] && b@.subrange(
                0,
                4,
            )[2] == b@[2] && b@.subrange(0, 4)[3] == b@[3]);
        }
    }
    if !has_prefix {
        return Err(ColorFormatError::UnknownFormat);
    }
    let e1 = find_slash(b, 4);
    let c1 = match x_coord(b, 4, e1) {
        Ok(c) => c,
        Err(e) => {
            return Err(e);
        },
    };
    if e1 == b.len() {
        return Err(ColorFormatError::MissingCoordinate);
    }
    let e2 = find_slash(b, e1 + 1);
    let c2 = match x_coord(b, e1 + 1, e2) {
        Ok(c) => c,
        Err(e) => {
            return Err(e);
        },
    };
    if e2 == b.len() {
        return Err(ColorFormatError::MissingCoordinate);
    }
    let e3 = find_slash(b, e2 + 1);
    let c3 = match x_coord(b, e2 + 1, e3) {
        Ok(c) => c,
        Err(e) => {
            return Err(e);
        },
    };
    if e3 < b.len() {
        return Err(ColorFormatError::TooManyCoordinates);
    }
    Ok([c1, c2, c3])
}

/// Parse a color in X Windows format. If successful, this function
/// returns three pairs with the number of hexadecimal digits and the
/// numeric value for each coordinate.
pub fn parse_x(s: &str) -> (r: Result<[(u8, u16); 3], ColorFormatError>)
    ensures
        (r is Ok) == (spec_parse_x(s.spec_bytes()) is Ok),
        r matches Ok(v) ==> (spec_parse_x(s.spec_bytes()) matches Ok(t) && v@ =~= seq![
            t.0,
            t.1,
            t.2,
        ]),
        r matches Err(e) ==> (spec_parse_x(s.spec_bytes()) matches Err(t) && e == t),
{
    let b = slice_to_vec(s.as_bytes());
    parse_x_bytes(&b)
}

// ------------------------------------------------------------------------
// Unicode white space, over the UTF-8 encoding.

/// The single-byte white space characters: tab through carriage return,
/// and the space.
pub open spec fn ws1(b: u8) -> bool {
    b == 9 || b == 10 || b == 11 || b == 12 || b == 13 || b == 32
}

/// The two-byte encodings of white space: next line and no-break space.
pub open spec fn ws2(b0: u8, b1: u8) -> bool {
    b0 == 0xc2 && (b1 == 0x85 || b1 == 0xa0)
}

/// The three-byte encodings of white space: the ogham space mark, the
/// typographic spaces, the line and paragraph separators, the narrow
/// no-break space, the medium mathematical space, and the ideographic
/// space.
pub open spec fn ws3(b0: u8, b1: u8, b2: u8) -> bool {
    (b0 == 0xe1 && b1 == 0x9a && b2 == 0x80) || (b0 == 0xe2 && b1 == 0x80 && (0x80 <= b2 <= 0x8a
        || b2 == 0xa8 || b2 == 0xa9 || b2 == 0xaf)) || (b0 == 0xe2 && b1 == 0x81 && b2 == 0x9f) || (
    b0 == 0xe3 && b1 == 0x80 && b2 == 0x80)
}

/// The byte length of the white space character at `i`, looking no
/// further than `hi`; zero where none starts there.
pub open spec fn ws_len_in(s: Seq<u8>, i: int, hi: int) -> int
    recommends
        0 <= i,
        hi <= s.len(),
{
    if i < hi && ws1(s[i]) {
        1
    } else if i + 2 <= hi && ws2(s[i], s[i + 1]) {
        2
    } else if i + 3 <= hi && ws3(s[i], s[i + 1], s[i + 2]) {
        3
    } else {
        0
    }
}

/// The index of the first byte at or after `i` that does not continue a
/// run of white space, looking no further than `hi`.
pub open spec fn skip_ws_in(s: Seq<u8>, i: int, hi: int) -> int
    recommends
        0 <= i,
        hi <= s.len(),
    decreases hi - i,
{
    if ws_len_in(s, i, hi) == 0 {
        i
    } else {
        skip_ws_in(s, i + ws_len_in(s, i, hi), hi)
    }
}

/// The byte length of the white space character that ends right before
/// `j`; zero where none does.
pub open spec fn ws_len_before(s: Seq<u8>, j: int) -> int
    recommends
        j <= s.len(),
{
    if 1 <= j <= s.len() && ws1(s[j - 1]) {
        1
    } else if 2 <= j <= s.len() && ws2(s[j - 2], s[j - 1]) {
        2
    } else if 3 <= j <= s.len() && ws3(s[j - 3], s[j - 2], s[j - 1]) {
        3
    } else {
        0
    }
}

/// The position reached from `j` by stripping white space backwards.
pub open spec fn rskip_ws(s: Seq<u8>, j: int) -> int
    recommends
        j <= s.len(),
    decreases j,
{
    if ws_len_before(s, j) == 0 {
        j
    } else {
        rskip_ws(s, j - ws_len_before(s, j))
    }
}

/// The index of the end of the token starting at `i`: the first white
/// space character or `hi`, whichever comes first.
pub open spec fn token_end_in(s: Seq<u8>, i: int, hi: int) -> int
    recommends
        0 <= i,
        hi <= s.len(),
    decreases hi - i,
{
    if i >= hi || ws_len_in(s, i, hi) > 0 {
        i
    } else {
        token_end_in(s, i + 1, hi)
    }
}

/// The byte with an upper-case ASCII letter turned lower case.
pub open spec fn lower_byte(b: u8) -> u8 {
    if 65 <= b <= 90 {
        (b + 32) as u8
    } else {
        b
    }
}

/// The sequence with every upper-case ASCII letter turned lower case.
pub open spec fn spec_lower(s: Seq<u8>) -> Seq<u8> {
    s.map_values(|b: u8| lower_byte(b))
}

/// The sequence with leading and trailing white space removed.
pub open spec fn spec_trim(s: Seq<u8>) -> Seq<u8> {
    let a = skip_ws_in(s, 0, s.len() as int);
    let b = rskip_ws(s, s.len() as int);
    if a <= b {
        s.subrange(a, b)
    } else {
        Seq::empty()
    }
}

/// The executable white space width test.
fn ws_len_at(b: &Vec<u8>, i: usize, hi: usize) -> (r: usize)
    requires
        i <= hi <= b@.len(),
    ensures
        r == ws_len_in(b@, i as int, hi as int),
{
    if i < hi && (b[i] == 9 || b[i] == 10 || b[i] == 11 || b[i] == 12 || b[i] == 13 || b[i] == 32) {
        1
    } else if hi - i >= 2 && b[i] == 0xc2 && (b[i + 1] == 0x85 || b[i + 1] == 0xa0) {
        2
    } else if hi - i >= 3 && ((b[i] == 0xe1 && b[i + 1] == 0x9a && b[i + 2] == 0x80) || (b[i]
        == 0xe2 && b[i + 1] == 0x80 && (0x80 <= b[i + 2] && b[i + 2] <= 0x8a || b[i + 2] == 0xa8
        || b[i + 2] == 0xa9 || b[i + 2] == 0xaf)) || (b[i] == 0xe2 && b[i + 1] == 0x81 && b[i + 2]
        == 0x9f) || (b[i] == 0xe3 && b[i + 1] == 0x80 && b[i + 2] == 0x80)) {
        3
    } else {
        0
    }
}

/// The executable backward white space width test.
fn ws_len_before_at(b: &Vec<u8>, j: usize) -> (r: usize)
    requires
        j <= b@.len(),
    ensures
        r == ws_len_before(b@, j as int),
{
    if j >= 1 && (b[j - 1] == 9 || b[j - 1] == 10 || b[j - 1] == 11 || b[j - 1] == 12 || b[j - 1]
        == 13 || b[j - 1] == 32) {
        1
    } else if j >= 2 && b[j - 2] == 0xc2 && (b[j - 1] == 0x85 || b[j - 1] == 0xa0) {
        2
    } else if j >= 3 && ((b[j - 3] == 0xe1 && b[j - 2] == 0x9a && b[j - 1] == 0x80) || (b[j - 3]
        == 0xe2 && b[j - 2] == 0x80 && (0x80 <= b[j - 1] && b[j - 1] <= 0x8a || b[j - 1] == 0xa8
        || b[j - 1] == 0xa9 || b[j - 1] == 0xaf)) || (b[j - 3] == 0xe2 && b[j - 2] == 0x81 && b[j
        - 1] == 0x9f) || (b[j - 3] == 0xe3 && b[j - 2] == 0x80 && b[j - 1] == 0x80)) {
        3
    } else {
        0
    }
}

/// Skip white space forward, looking no further than `hi`.
fn skip_ws_to(b: &Vec<u8>, i: usize, hi: usize) -> (r: usize)
    requires
        i <= hi <= b@.len(),
    ensures
        i <= r <= hi,
        r == skip_ws_in(b@, i as int, hi as int),
{
    let mut k = i;
    while ws_len_at(b, k, hi) > 0
        invariant
            i <= k <= hi <= b@.len(),
            skip_ws_in(b@, i as int, hi as int) == skip_ws_in(b@, k as int, hi as int),
        decreases hi - k,
    {
        k = k + ws_len_at(b, k, hi);
    }
    k
}

/// Find the end of the token starting at `i`, looking no further than
/// `hi`.
fn token_end_to(b: &Vec<u8>, i: usize, hi: usize) -> (r: usize)
    requires
        i <= hi <= b@.len(),
    ensures
        i <= r <= hi,
        r == token_end_in(b@, i as int, hi as int),
{
    let mut k = i;
    while k < hi && ws_len_at(b, k, hi) == 0
        invariant
            i <= k <= hi <= b@.len(),
            token_end_in(b@, i as int, hi as int) == token_end_in(b@, k as int, hi as int),
        decreases hi - k,
    {
        k = k + 1;
    }
    k
}

/// Copy the bytes `lo..hi`.
fn copy_range(b: &Vec<u8>, lo: usize, hi: usize) -> (r: Vec<u8>)
    requires
        lo <= hi <= b@.len(),
    ensures
        r@ == b@.subrange(lo as int, hi as int),
{
    let mut out: Vec<u8> = Vec::new();
    let mut i = lo;
    while i < hi
        invariant
            lo <= i <= hi <= b@.len(),
            out@ =~= b@.subrange(lo as int, i as int),
        decreases hi - i,
    {
        out.push(b[i]);
        i = i + 1;
        proof {
            assert(out@ =~= b@.subrange(lo as int, i as int));
        }
    }
    proof {
        assert(out@ =~= b@.subrange(lo as int, hi as int));
    }
    out
}

/// Trim white space from both ends and lower-case ASCII letters.
fn trim_lower(b: &Vec<u8>) -> (r: Vec<u8>)
    ensures
        r@ == spec_lower(spec_trim(b@)),
{
    let n = b.len();
    let a = skip_ws_to(b, 0, n);
    let mut e = n;
    while ws_len_before_at(b, e) > 0
        invariant
            e <= n == b@.len(),
            rskip_ws(b@, n as int) == rskip_ws(b@, e as int),
        decreases e,
    {
        e = e - ws_len_before_at(b, e);
    }
    let mut out: Vec<u8> = Vec::new();
    let mut i = a;
    while i < e
        invariant
            a <= i,
            i <= e || i == a,
            e <= n == b@.len(),
            a == skip_ws_in(b@, 0, n as int),
            e == rskip_ws(b@, n as int),
            out@ =~= b@.subrange(a as int, i as int).map_values(|x: u8| lower_byte(x)),
        decreases n - i,
    {
        let x = b[i];
        out.push(
            if 65 <= x && x <= 90 {
                x + 32
            } else {
                x
            },
        );
        i = i + 1;
        proof {
            assert(b@.subrange(a as int, i as int).drop_last() =~= b@.subrange(
                a as int,
                i - 1,
            ));
            assert(out@ =~= b@.subrange(a as int, i as int).map_values(|x: u8| lower_byte(x)));
        }
    }
    proof {
        if a <= e {
            assert(out@ =~= spec_lower(spec_trim(b@)));
        } else {
            assert(out@ =~= Seq::<u8>::empty().map_values(|x: u8| lower_byte(x)));
            assert(out@ =~= spec_lower(spec_trim(b@)));
        }
    }
    out
}

// ------------------------------------------------------------------------
// Decimal literals, as `f64::from_str` reads them: an optional sign,
// then digits with an optional point and an optional exponent, or one
// of the named special values.

/// Whether the byte is a decimal digit.
pub open spec fn is_digit(b: u8) -> bool {
    48 <= b <= 57
}

/// The index of the first byte at or after `i` that is not a decimal
/// digit.
pub open spec fn digits_end(s: Seq<u8>, i: int) -> int
    recommends
        0 <= i <= s.len(),
    decreases s.len() - i,
{
    if 0 <= i && i < s.len() && is_digit(s[i]) {
        digits_end(s, i + 1)
    } else {
        i
    }
}

/// Whether the bytes at `i` spell `"inf"`, in any case, to the end.
pub open spec fn is_inf_at(s: Seq<u8>, i: int) -> bool {
    s.len() - i == 3 && lower_byte(s[i]) == 105 && lower_byte(s[i + 1]) == 110 && lower_byte(
        s[i + 2],
    ) == 102
}

/// Whether the bytes at `i` spell `"infinity"`, in any case, to the end.
pub open spec fn is_infinity_at(s: Seq<u8>, i: int) -> bool {
    s.len() - i == 8 && lower_byte(s[i]) == 105 && lower_byte(s[i + 1]) == 110 && lower_byte(
        s[i + 2],
    ) == 102 && lower_byte(s[i + 3]) == 105 && lower_byte(s[i + 4]) == 110 && lower_byte(s[i + 5])
        == 105 && lower_byte(s[i + 6]) == 116 && lower_byte(s[i + 7]) == 121
}

/// Whether the bytes at `i` spell `"nan"`, in any case, to the end.
pub open spec fn is_nan_at(s: Seq<u8>, i: int) -> bool {
    s.len() - i == 3 && lower_byte(s[i]) == 110 && lower_byte(s[i + 1]) == 97 && lower_byte(
        s[i + 2],
    ) == 110
}

/// Whether an exponent part, or nothing at all, stands at `i` and
/// reaches the end of the sequence.
pub open spec fn is_exp_end(s: Seq<u8>, i: int) -> bool {
    i == s.len() || ((s[i] == 101 || s[i] == 69) && ({
        let j = if i + 1 < s.len() && (s[i + 1] == 43 || s[i + 1] == 45) {
            i + 2
        } else {
            i + 1
        };
        j < s.len() && digits_end(s, j) == s.len()
    }))
}

/// Whether a plain decimal number stands at `i` and reaches the end of
/// the sequence: digits with an optional point and optional fraction
/// digits, or a point with fraction digits, then an optional exponent.
pub open spec fn is_number_at(s: Seq<u8>, i: int) -> bool {
    let d1 = digits_end(s, i);
    if d1 > i {
        let after = if d1 < s.len() && s[d1] == 46 {
            digits_end(s, d1 + 1)
        } else {
            d1
        };
        is_exp_end(s, after)
    } else if i < s.len() && s[i] == 46 {
        let d2 = digits_end(s, i + 1);
        d2 > i + 1 && is_exp_end(s, d2)
    } else {
        false
    }
}

/// Whether the sequence is a decimal literal that `f64::from_str`
/// accepts: an optional sign, then a number or a special name.
pub open spec fn spec_is_float_token(s: Seq<u8>) -> bool {
    let i0: int = if s.len() > 0 && (s[0] == 43 || s[0] == 45) {
        1
    } else {
        0
    };
    is_inf_at(s, i0) || is_infinity_at(s, i0) || is_nan_at(s, i0) || is_number_at(s, i0)
}

/// Find the end of the run of digits starting at `i`.
fn digits_to(t: &Vec<u8>, i: usize) -> (r: usize)
    requires
        i <= t@.len(),
    ensures
        i <= r <= t@.len(),
        r == digits_end(t@, i as int),
{
    let mut k = i;
    while k < t.len() && 48 <= t[k] && t[k] <= 57
        invariant
            i <= k <= t@.len(),
            digits_end(t@, i as int) == digits_end(t@, k as int),
        decreases t@.len() - k,
    {
        k = k + 1;
    }
    k
}

/// The executable exponent test.
fn exp_end_at(t: &Vec<u8>, i: usize) -> (r: bool)
    requires
        i <= t@.len(),
    ensures
        r == is_exp_end(t@, i as int),
{
    if i == t.len() {
        return true;
    }
    if !(t[i] == 101 || t[i] == 69) {
        return false;
    }
    let j = if i + 1 < t.len() && (t[i + 1] == 43 || t[i + 1] == 45) {
        i + 2
    } else {
        i + 1
    };
    j < t.len() && digits_to(t, j) == t.len()
}

/// The executable decimal literal test.
fn is_float_token(t: &Vec<u8>) -> (r: bool)
    ensures
        r == spec_is_float_token(t@),
{
    let n = t.len();
    let i0: usize = if n > 0 && (t[0] == 43 || t[0] == 45) {
        1
    } else {
        0
    };
    if n - i0 == 3 {
        let l0 = lower_byte_at(t, i0);
        let l1 = lower_byte_at(t, i0 + 1);
        let l2 = lower_byte_at(t, i0 + 2);
        if l0 == 105 && l1 == 110 && l2 == 102 {
            return true;
        }
        if l0 == 110 && l1 == 97 && l2 == 110 {
            return true;
        }
    }
    if n - i0 == 8 {
        if lower_byte_at(t, i0) == 105 && lower_byte_at(t, i0 + 1) == 110 && lower_byte_at(
            t,
            i0 + 2,
        ) == 102 && lower_byte_at(t, i0 + 3) == 105 && lower_byte_at(t, i0 + 4) == 110
            && lower_byte_at(t, i0 + 5) == 105 && lower_byte_at(t, i0 + 6) == 116 && lower_byte_at(
            t,
            i0 + 7,
        ) == 121 {
            return true;
        }
    }
    let d1 = digits_to(t, i0);
    if d1 > i0 {
        let after = if d1 < n && t[d1] == 46 {
            digits_to(t, d1 + 1)
        } else {
            d1
        };
        exp_end_at(t, after)
    } else if i0 < n && t[i0] == 46 {
        let d2 = digits_to(t, i0 + 1);
        d2 > i0 + 1 && exp_end_at(t, d2)
    } else {
        false
    }
}

/// The executable lower-case mapping of the byte at `i`.
fn lower_byte_at(t: &Vec<u8>, i: usize) -> (r: u8)
    requires
        i < t@.len(),
    ensures
        r == lower_byte(t@[i as int]),
{
    let x = t[i];
    if 65 <= x && x <= 90 {
        x + 32
    } else {
        x
    }
}

// ------------------------------------------------------------------------
// The CSS functional formats.

/// Whether the bytes at `i` spell `"oklab"`.
pub open spec fn is_oklab_at(s: Seq<u8>, i: int) -> bool {
    i + 5 <= s.len() && s[i] == 111 && s[i + 1] == 107 && s[i + 2] == 108 && s[i + 3] == 97 && s[i + 4] == 98
}

/// Whether the bytes at `i` spell `"oklch"`.
pub open spec fn is_oklch_at(s: Seq<u8>, i: int) -> bool {
    i + 5 <= s.len() && s[i] == 111 && s[i + 1] == 107 && s[i + 2] == 108 && s[i + 3] == 99 && s[i + 4] == 104
}

/// Whether the bytes at `i` spell `"color"`.
pub open spec fn is_color_at(s: Seq<u8>, i: int) -> bool {
    i + 5 <= s.len() && s[i] == 99 && s[i + 1] == 111 && s[i + 2] == 108 && s[i + 3] == 111 && s[i + 4] == 114
}

/// Whether the bytes at `i` spell `"srgb"`.
pub open spec fn is_srgb_at(s: Seq<u8>, i: int) -> bool {
    i + 4 <= s.len() && s[i] == 115 && s[i + 1] == 114 && s[i + 2] == 103 && s[i + 3] == 98
}

/// Whether the bytes at `i` spell `"linear-srgb"`.
pub open spec fn is_linear_srgb_at(s: Seq<u8>, i: int) -> bool {
    i + 11 <= s.len() && s[i] == 108 && s[i + 1] == 105 && s[i + 2] == 110 && s[i + 3] == 101 && s[i + 4] == 97 && s[i + 5] == 114 && s[i + 6] == 45 && s[i + 7] == 115 && s[i + 8] == 114 && s[i + 9] == 103 && s[i + 10] == 98
}

/// Whether the bytes at `i` spell `"display-p3"`.
pub open spec fn is_display_p3_at(s: Seq<u8>, i: int) -> bool {
    i + 10 <= s.len() && s[i] == 100 && s[i + 1] == 105 && s[i + 2] == 115 && s[i + 3] == 112 && s[i + 4] == 108 && s[i + 5] == 97 && s[i + 6] == 121 && s[i + 7] == 45 && s[i + 8] == 112 && s[i + 9] == 51
}

/// Whether the bytes at `i` spell `"--linear-display-p3"`.
pub open spec fn is_linear_display_p3_css_at(s: Seq<u8>, i: int) -> bool {
    i + 19 <= s.len() && s[i] == 45 && s[i + 1] == 45 && s[i + 2] == 108 && s[i + 3] == 105 && s[i + 4] == 110 && s[i + 5] == 101 && s[i + 6] == 97 && s[i + 7] == 114 && s[i + 8] == 45 && s[i + 9] == 100 && s[i + 10] == 105 && s[i + 11] == 115 && s[i + 12] == 112 && s[i + 13] == 108 && s[i + 14] == 97 && s[i + 15] == 121 && s[i + 16] == 45 && s[i + 17] == 112 && s[i + 18] == 51
}

/// Whether the bytes at `i` spell `"rec2020"`.
pub open spec fn is_rec2020_at(s: Seq<u8>, i: int) -> bool {
    i + 7 <= s.len() && s[i] == 114 && s[i + 1] == 101 && s[i + 2] == 99 && s[i + 3] == 50 && s[i + 4] == 48 && s[i + 5] == 50 && s[i + 6] == 48
}

/// Whether the bytes at `i` spell `"--linear-rec2020"`.
pub open spec fn is_linear_rec2020_css_at(s: Seq<u8>, i: int) -> bool {
    i + 16 <= s.len() && s[i] == 45 && s[i + 1] == 45 && s[i + 2] == 108 && s[i + 3] == 105 && s[i + 4] == 110 && s[i + 5] == 101 && s[i + 6] == 97 && s[i + 7] == 114 && s[i + 8] == 45 && s[i + 9] == 114 && s[i + 10] == 101 && s[i + 11] == 99 && s[i + 12] == 50 && s[i + 13] == 48 && s[i + 14] == 50 && s[i + 15] == 48
}

/// Whether the bytes at `i` spell `"--oklrab"`.
pub open spec fn is_oklrab_css_at(s: Seq<u8>, i: int) -> bool {
    i + 8 <= s.len() && s[i] == 45 && s[i + 1] == 45 && s[i + 2] == 111 && s[i + 3] == 107 && s[i + 4] == 108 && s[i + 5] == 114 && s[i + 6] == 97 && s[i + 7] == 98
}

/// Whether the bytes at `i` spell `"--oklrch"`.
pub open spec fn is_oklrch_css_at(s: Seq<u8>, i: int) -> bool {
    i + 8 <= s.len() && s[i] == 45 && s[i + 1] == 45 && s[i + 2] == 111 && s[i + 3] == 107 && s[i + 4] == 108 && s[i + 5] == 114 && s[i + 6] == 99 && s[i + 7] == 104
}

/// Whether the bytes at `i` spell `"xyz"`.
pub open spec fn is_xyz_at(s: Seq<u8>, i: int) -> bool {
    i + 3 <= s.len() && s[i] == 120 && s[i + 1] == 121 && s[i + 2] == 122
}

/// Whether the bytes at `i` spell `"xyz-d65"`.
pub open spec fn is_xyz_d65_at(s: Seq<u8>, i: int) -> bool {
    i + 7 <= s.len() && s[i] == 120 && s[i + 1] == 121 && s[i + 2] == 122 && s[i + 3] == 45 && s[i + 4] == 100 && s[i + 5] == 54 && s[i + 6] == 53
}

/// The color space named at `i`, with the index just past its name.
///
/// The names are tried in a fixed order and the first match wins; the
/// name `xyz-d65` stands in the shadow of `xyz`, whose match leaves
/// `-d65` behind as a coordinate.
pub open spec fn spec_css_space_at(s: Seq<u8>, i: int) -> Option<(ColorSpace, int)> {
    if is_srgb_at(s, i) {
        Some((ColorSpace::Srgb, i + 4))
    } else if is_linear_srgb_at(s, i) {
        Some((ColorSpace::LinearSrgb, i + 11))
    } else if is_display_p3_at(s, i) {
        Some((ColorSpace::DisplayP3, i + 10))
    } else if is_linear_display_p3_css_at(s, i) {
        Some((ColorSpace::LinearDisplayP3, i + 19))
    } else if is_rec2020_at(s, i) {
        Some((ColorSpace::Rec2020, i + 7))
    } else if is_linear_rec2020_css_at(s, i) {
        Some((ColorSpace::LinearRec2020, i + 16))
    } else if is_oklrab_css_at(s, i) {
        Some((ColorSpace::Oklrab, i + 8))
    } else if is_oklrch_css_at(s, i) {
        Some((ColorSpace::Oklrch, i + 8))
    } else if is_xyz_at(s, i) {
        Some((ColorSpace::Xyz, i + 3))
    } else if is_xyz_d65_at(s, i) {
        Some((ColorSpace::Xyz, i + 7))
    } else {
        None
    }
}

/// The three coordinate tokens of a CSS color function, between `lo`
/// and `hi`: each a maximal run free of white space, each a valid
/// decimal literal, with nothing but white space after the third.
pub open spec fn spec_css_body(s: Seq<u8>, space: ColorSpace, lo: int, hi: int) -> Result<
    (ColorSpace, Seq<u8>, Seq<u8>, Seq<u8>),
    ColorFormatError,
>
    recommends
        0 <= lo <= hi <= s.len(),
{
    let t1s = skip_ws_in(s, lo, hi);
    if t1s >= hi {
        Err(ColorFormatError::MissingCoordinate)
    } else {
        let t1e = token_end_in(s, t1s, hi);
        if !spec_is_float_token(s.subrange(t1s, t1e)) {
            Err(ColorFormatError::MalformedFloat)
        } else {
            let t2s = skip_ws_in(s, t1e, hi);
            if t2s >= hi {
                Err(ColorFormatError::MissingCoordinate)
            } else {
                let t2e = token_end_in(s, t2s, hi);
                if !spec_is_float_token(s.subrange(t2s, t2e)) {
                    Err(ColorFormatError::MalformedFloat)
                } else {
                    let t3s = skip_ws_in(s, t2e, hi);
                    if t3s >= hi {
                        Err(ColorFormatError::MissingCoordinate)
                    } else {
                        let t3e = token_end_in(s, t3s, hi);
                        if !spec_is_float_token(s.subrange(t3s, t3e)) {
                            Err(ColorFormatError::MalformedFloat)
                        } else {
                            if skip_ws_in(s, t3e, hi) < hi {
                                Err(ColorFormatError::TooManyCoordinates)
                            } else {
                                Ok(
                                    (
                                        space,
                                        s.subrange(t1s, t1e),
                                        s.subrange(t2s, t2e),
                                        s.subrange(t3s, t3e),
                                    ),
                                )
                            }
                        }
                    }
                }
            }
        }
    }
}

/// What parsing a CSS color function returns: the color space and the
/// three coordinate tokens, or the first error.
pub open spec fn spec_parse_css(s: Seq<u8>) -> Result<
    (ColorSpace, Seq<u8>, Seq<u8>, Seq<u8>),
    ColorFormatError,
> {
    let n = s.len() as int;
    if !(is_oklab_at(s, 0) || is_oklch_at(s, 0) || is_color_at(s, 0)) {
        Err(ColorFormatError::UnknownFormat)
    } else {
        let p = skip_ws_in(s, 5, n);
        if !(p < n && s[p] == 40) {
            Err(ColorFormatError::NoOpeningParenthesis)
        } else if !(p + 1 < n && s[n - 1] == 41) {
            Err(ColorFormatError::NoClosingParenthesis)
        } else if is_oklab_at(s, 0) {
            spec_css_body(s, ColorSpace::Oklab, p + 1, n - 1)
        } else if is_oklch_at(s, 0) {
            spec_css_body(s, ColorSpace::Oklch, p + 1, n - 1)
        } else {
            let q = skip_ws_in(s, p + 1, n - 1);
            match spec_css_space_at(s, q) {
                None => Err(ColorFormatError::UnknownColorSpace),
                Some((space, lo)) => spec_css_body(s, space, lo, n - 1),
            }
        }
    }
}

/// The executable color space name match.
fn css_space_at(b: &Vec<u8>, i: usize) -> (r: Option<(ColorSpace, usize)>)
    requires
        i <= b@.len(),
    ensures
        r is Some <==> spec_css_space_at(b@, i as int) is Some,
        r matches Some((space, lo)) ==> spec_css_space_at(b@, i as int) == Some(
            (space, lo as int),
        ),
        r matches Some((space, lo)) ==> i <= lo <= b@.len(),
{
    if b.len() - i >= 4 && b[i] == 115 && b[i + 1] == 114 && b[i + 2] == 103 && b[i + 3] == 98 {
        Some((ColorSpace::Srgb, i + 4))
    } else if b.len() - i >= 11 && b[i] == 108 && b[i + 1] == 105 && b[i + 2] == 110 && b[i + 3] == 101 && b[i + 4] == 97 && b[i + 5] == 114 && b[i + 6] == 45 && b[i + 7] == 115 && b[i + 8] == 114 && b[i + 9] == 103 && b[i + 10] == 98 {
        Some((ColorSpace::LinearSrgb, i + 11))
    } else if b.len() - i >= 10 && b[i] == 100 && b[i + 1] == 105 && b[i + 2] == 115 && b[i + 3] == 112 && b[i + 4] == 108 && b[i + 5] == 97 && b[i + 6] == 121 && b[i + 7] == 45 && b[i + 8] == 112 && b[i + 9] == 51 {
        Some((ColorSpace::DisplayP3, i + 10))
    } else if b.len() - i >= 19 && b[i] == 45 && b[i + 1] == 45 && b[i + 2] == 108 && b[i + 3] == 105 && b[i + 4] == 110 && b[i + 5] == 101 && b[i + 6] == 97 && b[i + 7] == 114 && b[i + 8] == 45 && b[i + 9] == 100 && b[i + 10] == 105 && b[i + 11] == 115 && b[i + 12] == 112 && b[i + 13] == 108 && b[i + 14] == 97 && b[i + 15] == 121 && b[i + 16] == 45 && b[i + 17] == 112 && b[i + 18] == 51 {
        Some((ColorSpace::LinearDisplayP3, i + 19))
    } else if b.len() - i >= 7 && b[i] == 114 && b[i + 1] == 101 && b[i + 2] == 99 && b[i + 3] == 50 && b[i + 4] == 48 && b[i + 5] == 50 && b[i + 6] == 48 {
        Some((ColorSpace::Rec2020, i + 7))
    } else if b.len() - i >= 16 && b[i] == 45 && b[i + 1] == 45 && b[i + 2] == 108 && b[i + 3] == 105 && b[i + 4] == 110 && b[i + 5] == 101 && b[i + 6] == 97 && b[i + 7] == 114 && b[i + 8] == 45 && b[i + 9] == 114 && b[i + 10] == 101 && b[i + 11] == 99 && b[i + 12] == 50 && b[i + 13] == 48 && b[i + 14] == 50 && b[i + 15] == 48 {
        Some((ColorSpace::LinearRec2020, i + 16))
    } else if b.len() - i >= 8 && b[i] == 45 && b[i + 1] == 45 && b[i + 2] == 111 && b[i + 3] == 107 && b[i + 4] == 108 && b[i + 5] == 114 && b[i + 6] == 97 && b[i + 7] == 98 {
        Some((ColorSpace::Oklrab, i + 8))
    } else if b.len() - i >= 8 && b[i] == 45 && b[i + 1] == 45 && b[i + 2] == 111 && b[i + 3] == 107 && b[i + 4] == 108 && b[i + 5] == 114 && b[i + 6] == 99 && b[i + 7] == 104 {
        Some((ColorSpace::Oklrch, i + 8))
    } else if b.len() - i >= 3 && b[i] == 120 && b[i + 1] == 121 && b[i + 2] == 122 {
        Some((ColorSpace::Xyz, i + 3))
    } else if b.len() - i >= 7 && b[i] == 120 && b[i + 1] == 121 && b[i + 2] == 122 && b[i + 3] == 45 && b[i + 4] == 100 && b[i + 5] == 54 && b[i + 6] == 53 {
        Some((ColorSpace::Xyz, i + 7))
    } else {
        None
    }
}

/// The three coordinate tokens of a CSS color function.
fn css_body(b: &Vec<u8>, space: ColorSpace, lo: usize, hi: usize) -> (r: Result<
    (ColorSpace, Vec<u8>, Vec<u8>, Vec<u8>),
    ColorFormatError,
>)
    requires
        lo <= hi <= b@.len(),
    ensures
        (r is Ok) == (spec_css_body(b@, space, lo as int, hi as int) is Ok),
        r matches Ok(c) ==> (spec_css_body(b@, space, lo as int, hi as int) matches Ok(t) && c.0
            == t.0 && c.1@ == t.1 && c.2@ == t.2 && c.3@ == t.3),
        r matches Err(e) ==> (spec_css_body(b@, space, lo as int, hi as int) matches Err(t) && e
            == t),
{
    let t1s = skip_ws_to(b, lo, hi);
    if t1s >= hi {
        return Err(ColorFormatError::MissingCoordinate);
    }
    let t1e = token_end_to(b, t1s, hi);
    let c1 = copy_range(b, t1s, t1e);
    if !is_float_token(&c1) {
        return Err(ColorFormatError::MalformedFloat);
    }
    let t2s = skip_ws_to(b, t1e, hi);
    if t2s >= hi {
        return Err(ColorFormatError::MissingCoordinate);
    }
    let t2e = token_end_to(b, t2s, hi);
    let c2 = copy_range(b, t2s, t2e);
    if !is_float_token(&c2) {
        return Err(ColorFormatError::MalformedFloat);
    }
    let t3s = skip_ws_to(b, t2e, hi);
    if t3s >= hi {
        return Err(ColorFormatError::MissingCoordinate);
    }
    let t3e = token_end_to(b, t3s, hi);
    let c3 = copy_range(b, t3s, t3e);
    if !is_float_token(&c3) {
        return Err(ColorFormatError::MalformedFloat);
    }
    if skip_ws_to(b, t3e, hi) < hi {
        return Err(ColorFormatError::TooManyCoordinates);
    }
    Ok((space, c1, c2, c3))
}

/// The byte-level core of [`parse_css`].
fn parse_css_bytes(b: &Vec<u8>) -> (r: Result<
    (ColorSpace, Vec<u8>, Vec<u8>, Vec<u8>),
    ColorFormatError,
>)
    ensures
        (r is Ok) == (spec_parse_css(b@) is Ok),
        r matches Ok(c) ==> (spec_parse_css(b@) matches Ok(t) && c.0 == t.0 && c.1@ == t.1 && c.2@
            == t.2 && c.3@ == t.3),
        r matches Err(e) ==> (spec_parse_css(b@) matches Err(t) && e == t),
{
    let n = b.len();
    let is_oklab = n >= 5 && b[0] == 111 && b[1] == 107 && b[2] == 108 && b[3] == 97 && b[4] == 98;
    let is_oklch = n >= 5 && b[0] == 111 && b[1] == 107 && b[2] == 108 && b[3] == 99 && b[4]
        == 104;
    let is_color = n >= 5 && b[0] == 99 && b[1] == 111 && b[2] == 108 && b[3] == 111 && b[4]
        == 114;
    if !(is_oklab || is_oklch || is_color) {
        return Err(ColorFormatError::UnknownFormat);
    }
    let p = skip_ws_to(b, 5, n);
    if !(p < n && b[p] == 40) {
        return Err(ColorFormatError::NoOpeningParenthesis);
    }
    if !(p + 1 < n && b[n - 1] == 41) {
        return Err(ColorFormatError::NoClosingParenthesis);
    }
    if is_oklab {
        css_body(b, ColorSpace::Oklab, p + 1, n - 1)
    } else if is_oklch {
        css_body(b, ColorSpace::Oklch, p + 1, n - 1)
    } else {
        let q = skip_ws_to(b, p + 1, n - 1);
        match css_space_at(b, q) {
            None => Err(ColorFormatError::UnknownColorSpace),
            Some((space, lo)) => {
                // A name cannot reach past the closing parenthesis,
                // whose byte occurs in no name.
                css_body(b, space, lo, n - 1)
            },
        }
    }
}

/// Parse a subset of valid CSS color formats. This function recognizes
/// only the `oklab()`, `oklch()`, and `color()` functions. The color
/// space for the latter must be `srgb`, `linear-srgb`, `display-p3`,
/// `rec2020`, `xyz`, or one of the non-standard color spaces
/// `--linear-display-p3`, `--linear-rec2020`, `--oklrab`, and
/// `--oklrch`. Coordinates must not have units including `%`; they are
/// returned as validated decimal literals.
pub fn parse_css(s: &str) -> (r: Result<(ColorSpace, [Vec<u8>; 3]), ColorFormatError>)
    ensures
        (r is Ok) == (spec_parse_css(s.spec_bytes()) is Ok),
        r matches Ok((sp, c)) ==> (spec_parse_css(s.spec_bytes()) matches Ok(t) && sp == t.0 && c[0]@
            == t.1 && c[1]@ == t.2 && c[2]@ == t.3),
        r matches Err(e) ==> (spec_parse_css(s.spec_bytes()) matches Err(t) && e == t),
{
    let b = slice_to_vec(s.as_bytes());
    match parse_css_bytes(&b) {
        Err(e) => Err(e),
        Ok((space, c1, c2, c3)) => Ok((space, [c1, c2, c3])),
    }
}

// ------------------------------------------------------------------------
// The combined entry point.

/// What every parse sees of its input: leading and trailing white
/// space removed and ASCII letters lower-cased.
pub open spec fn spec_preprocess(s: Seq<u8>) -> Seq<u8> {
    spec_lower(spec_trim(s))
}

/// Whether a preprocessed input selects the hashed hexadecimal format.
pub open spec fn is_hashed_format(t: Seq<u8>) -> bool {
    t.len() > 0 && t[0] == 35
}

/// Whether a preprocessed input selects the X Windows format.
pub open spec fn is_x_format(t: Seq<u8>) -> bool {
    t.len() >= 4 && t[0] == 114 && t[1] == 103 && t[2] == 98 && t[3] == 58
}

/// The denominator of an X Windows coordinate with the given number of
/// hexadecimal digits: sixteen to that power, less one.
pub open spec fn x_denominator(k: u8) -> u16 {
    (pow16(k as nat) - 1) as u16
}

/// The executable form of [`x_denominator`].
fn den_for(k: u8) -> (r: u16)
    requires
        1 <= k <= 4,
    ensures
        r == x_denominator(k),
{
    proof {
        assert(pow16(0) == 1);
        assert(pow16(1) == 16);
        assert(pow16(2) == 256);
        assert(pow16(3) == 4096);
        assert(pow16(4) == 65536);
    }
    match k {
        1 => 15,
        2 => 255,
        3 => 4095,
        _ => 65535,
    }
}

/// A successfully parsed X Windows color has one through four digits
/// in every coordinate.
pub proof fn lemma_x_digit_counts(s: Seq<u8>)
    ensures
        spec_parse_x(s) matches Ok(v) ==> 1 <= v.0.0 <= 4 && 1 <= v.1.0 <= 4 && 1 <= v.2.0 <= 4,
{
    match spec_parse_x(s) {
        Ok(v) => {
            let e1 = next_slash(s, 4);
            lemma_next_slash_bounds(s, 4);
            assert(spec_x_coord(s, 4, e1) == Ok::<(u8, u16), ColorFormatError>(v.0));
            let e2 = next_slash(s, e1 + 1);
            lemma_next_slash_bounds(s, e1 + 1);
            assert(spec_x_coord(s, e1 + 1, e2) == Ok::<(u8, u16), ColorFormatError>(v.1));
            let e3 = next_slash(s, e2 + 1);
            lemma_next_slash_bounds(s, e2 + 1);
            assert(spec_x_coord(s, e2 + 1, e3) == Ok::<(u8, u16), ColorFormatError>(v.2));
        },
        Err(_) => {},
    }
}

/// Parse the string into a color.
///
/// This function recognizes hashed hexadecimal, XParseColor, and CSS
/// formats for colors. In particular, it recognizes the three and six
/// digit hashed hexadecimal format, the XParseColor format with `rgb:`
/// prefix, and the modern syntax for the `color()`, `oklab()`, and
/// `oklch()` CSS functions with space-separated arguments. Before
/// trying to parse either of these formats, this function trims
/// leading and trailing white space and converts ASCII letters to
/// lowercase. However, a valid color string may still contain Unicode
/// white space characters and hence needn't be all ASCII.
///
/// The hexadecimal formats return exact ratios; the CSS formats return
/// validated decimal literals.
pub fn parse(s: &str) -> (r: Result<(ColorSpace, [CoordValue; 3]), ColorFormatError>)
    ensures
        ({
            let t = spec_preprocess(s.spec_bytes());
            is_hashed_format(t) ==> {
                &&& (r is Ok) == (spec_parse_hashed(t) is Ok)
                &&& (r matches Ok((sp, c)) ==> (spec_parse_hashed(t) matches Ok(v) && sp
                    == ColorSpace::Srgb && c[0] == (CoordValue::Ratio {
                    numerator: v.0 as u16,
                    denominator: 255u16,
                }) && c[1] == (CoordValue::Ratio { numerator: v.1 as u16, denominator: 255u16 })
                    && c[2] == (CoordValue::Ratio { numerator: v.2 as u16, denominator: 255u16 })))
                &&& (r matches Err(e) ==> (spec_parse_hashed(t) matches Err(x) && e == x))
            }
        }),
        ({
            let t = spec_preprocess(s.spec_bytes());
            !is_hashed_format(t) && is_x_format(t) ==> {
                &&& (r is Ok) == (spec_parse_x(t) is Ok)
                &&& (r matches Ok((sp, c)) ==> (spec_parse_x(t) matches Ok(v) && sp
                    == ColorSpace::Srgb && c[0] == (CoordValue::Ratio {
                    numerator: v.0.1,
                    denominator: x_denominator(v.0.0),
                }) && c[1] == (CoordValue::Ratio {
                    numerator: v.1.1,
                    denominator: x_denominator(v.1.0),
                }) && c[2] == (CoordValue::Ratio {
                    numerator: v.2.1,
                    denominator: x_denominator(v.2.0),
                })))
                &&& (r matches Err(e) ==> (spec_parse_x(t) matches Err(x) && e == x))
            }
        }),
        ({
            let t = spec_preprocess(s.spec_bytes());
            !is_hashed_format(t) && !is_x_format(t) ==> {
                &&& (r is Ok) == (spec_parse_css(t) is Ok)
                &&& (r matches Ok((sp, c)) ==> (spec_parse_css(t) matches Ok(v) && sp == v.0 && (
                c[0] matches CoordValue::Decimal(d1) && d1@ == v.1) && (c[1]
                    matches CoordValue::Decimal(d2) && d2@ == v.2) && (c[2]
                    matches CoordValue::Decimal(d3) && d3@ == v.3)))
                &&& (r matches Err(e) ==> (spec_parse_css(t) matches Err(x) && e == x))
            }
        }),
{
    let raw = slice_to_vec(s.as_bytes());
    let b = trim_lower(&raw);
    if b.len() > 0 && b[0] == 35 {
        match parse_hashed_bytes(&b) {
            Err(e) => Err(e),
            Ok(v) => Ok(
                (
                    ColorSpace::Srgb,
                    [
                        CoordValue::Ratio { numerator: v[0] as u16, denominator: 255 },
                        CoordValue::Ratio { numerator: v[1] as u16, denominator: 255 },
                        CoordValue::Ratio { numerator: v[2] as u16, denominator: 255 },
                    ],
                ),
            ),
        }
    } else if b.len() >= 4 && b[0] == 114 && b[1] == 103 && b[2] == 98 && b[3] == 58 {
        proof {
            lemma_x_digit_counts(b@);
        }
        match parse_x_bytes(&b) {
            Err(e) => Err(e),
            Ok(v) => {
                let (l1, n1) = v[0];
                let (l2, n2) = v[1];
                let (l3, n3) = v[2];
                Ok(
                    (
                        ColorSpace::Srgb,
                        [
                            CoordValue::Ratio { numerator: n1, denominator: den_for(l1) },
                            CoordValue::Ratio { numerator: n2, denominator: den_for(l2) },
                            CoordValue::Ratio { numerator: n3, denominator: den_for(l3) },
                        ],
                    ),
                )
            },
        }
    } else {
        match parse_css_bytes(&b) {
            Err(e) => Err(e),
            Ok((space, c1, c2, c3)) => Ok(
                (
                    space,
                    [CoordValue::Decimal(c1), CoordValue::Decimal(c2), CoordValue::Decimal(c3)],
                ),
            ),
        }
    }
}

// ------------------------------------------------------------------------

impl ColorSpace {
    /// Determine the prefix for serializing colors from this color
    /// space in CSS format.
    ///
    /// The resulting string is either `color(<space> ...)`,
    /// `oklab(...)`, or `oklch(...)`, with the ellipsis eliding three
    /// *space-separated* coordinates. This method returns all
    /// characters up to and excluding the first coordinate but
    /// including any necessary space. Since CSS does not currently
    /// support linear Display P3, linear Rec. 2020, Oklrab, and Oklrch,
    /// the names for the CSS `color()` function are written as a custom
    /// property name, i.e., with two leading dashes.
    pub fn css_prefix(&self) -> (r: &'static str)
        ensures
            *self == ColorSpace::Srgb ==> r@ == "color(srgb "@,
            *self == ColorSpace::LinearSrgb ==> r@ == "color(linear-srgb "@,
            *self == ColorSpace::DisplayP3 ==> r@ == "color(display-p3 "@,
            *self == ColorSpace::LinearDisplayP3 ==> r@ == "color(--linear-display-p3 "@,
            *self == ColorSpace::Rec2020 ==> r@ == "color(rec2020 "@,
            *self == ColorSpace::LinearRec2020 ==> r@ == "color(--linear-rec2020 "@,
            *self == ColorSpace::Oklab ==> r@ == "oklab("@,
            *self == ColorSpace::Oklch ==> r@ == "oklch("@,
            *self == ColorSpace::Oklrab ==> r@ == "color(--oklrab "@,
            *self == ColorSpace::Oklrch ==> r@ == "color(--oklrch "@,
            *self == ColorSpace::Xyz ==> r@ == "color(xyz "@,
    {
        match *self {
            ColorSpace::Srgb => "color(srgb ",
            ColorSpace::LinearSrgb => "color(linear-srgb ",
            ColorSpace::DisplayP3 => "color(display-p3 ",
            ColorSpace::LinearDisplayP3 => "color(--linear-display-p3 ",
            ColorSpace::Rec2020 => "color(rec2020 ",
            ColorSpace::LinearRec2020 => "color(--linear-rec2020 ",
            ColorSpace::Oklab => "oklab(",
            ColorSpace::Oklch => "oklch(",
            ColorSpace::Oklrab => "color(--oklrab ",
            ColorSpace::Oklrch => "color(--oklrch ",
            ColorSpace::Xyz => "color(xyz ",
        }
    }
}

} // verus!

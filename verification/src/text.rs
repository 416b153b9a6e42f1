//! The string codec: formatting a UUID into its textual shapes and
//! parsing the four accepted shapes back into bytes.
use vstd::prelude::*;

use crate::model::Bytes;
use crate::model::Uuid;

verus! {

/// The lowercase hex character for a nibble.
pub open spec fn spec_hex_lower(n: u8) -> u8
    recommends
        n < 16,
{
    if n < 10 {
        (0x30 + n) as u8
    } else {
        (0x57 + n) as u8
    }
}

/// The uppercase hex character for a nibble.
pub open spec fn spec_hex_upper(n: u8) -> u8
    recommends
        n < 16,
{
    if n < 10 {
        (0x30 + n) as u8
    } else {
        (0x37 + n) as u8
    }
}

/// The hex character for a nibble, in the requested letter case.
pub open spec fn spec_hex_char(n: u8, upper: bool) -> u8
    recommends
        n < 16,
{
    if upper {
        spec_hex_upper(n)
    } else {
        spec_hex_lower(n)
    }
}

/// Hex digit `j` of the thirty-two digits of a sixteen-byte value:
/// even digits are high nibbles, odd digits low nibbles.
pub open spec fn spec_digit(v: Seq<u8>, j: int) -> u8
    recommends
        v.len() == 16,
        0 <= j < 32,
{
    if j % 2 == 0 {
        v[j / 2] >> 4
    } else {
        v[j / 2] & 0x0F
    }
}

/// Whether position `p` of the hyphenated shape holds a hyphen.
pub open spec fn is_hyphen_pos(p: int) -> bool {
    p == 8 || p == 13 || p == 18 || p == 23
}

/// Which hex digit stands at position `p` of the hyphenated shape.
pub open spec fn digit_index(p: int) -> int
    recommends
        0 <= p < 36,
        !is_hyphen_pos(p),
{
    if p < 8 {
        p
    } else if p < 13 {
        p - 1
    } else if p < 18 {
        p - 2
    } else if p < 23 {
        p - 3
    } else {
        p - 4
    }
}

/// Where hex digit `j` stands in the hyphenated shape.
pub open spec fn hyph_pos(j: int) -> int
    recommends
        0 <= j < 32,
{
    if j < 8 {
        j
    } else if j < 12 {
        j + 1
    } else if j < 16 {
        j + 2
    } else if j < 20 {
        j + 3
    } else {
        j + 4
    }
}

/// The 32-character simple shape: bare hex digits, no hyphens.
pub open spec fn spec_fmt_simple(v: Seq<u8>, upper: bool) -> Seq<u8>
    recommends
        v.len() == 16,
{
    Seq::new(32, |j: int| spec_hex_char(spec_digit(v, j), upper))
}

/// The 36-character hyphenated shape, with hyphens after digits
/// 8, 12, 16 and 20.
pub open spec fn spec_fmt_hyphenated(v: Seq<u8>, upper: bool) -> Seq<u8>
    recommends
        v.len() == 16,
{
    Seq::new(
        36,
        |p: int|
            if is_hyphen_pos(p) {
                0x2Du8
            } else {
                spec_hex_char(spec_digit(v, digit_index(p)), upper)
            },
    )
}

/// The bytes of the fixed `urn:uuid:` prefix.
pub open spec fn spec_urn_prefix() -> Seq<u8> {
    seq![0x75u8, 0x72, 0x6E, 0x3A, 0x75, 0x75, 0x69, 0x64, 0x3A]
}

/// The 45-character URN shape: the fixed prefix, then the hyphenated
/// shape; only the hex digits follow the letter case.
pub open spec fn spec_fmt_urn(v: Seq<u8>, upper: bool) -> Seq<u8>
    recommends
        v.len() == 16,
{
    spec_urn_prefix() + spec_fmt_hyphenated(v, upper)
}

/// The 38-character braced shape: the hyphenated shape in `{` `}`.
pub open spec fn spec_fmt_braced(v: Seq<u8>, upper: bool) -> Seq<u8>
    recommends
        v.len() == 16,
{
    seq![0x7Bu8] + spec_fmt_hyphenated(v, upper) + seq![0x7Du8]
}

/// High and low nibble of a byte: both below sixteen, and together
/// they reassemble the byte.
pub(crate) proof fn lemma_nibbles(b: u8)
    by (bit_vector)
    ensures
        b >> 4 < 16,
        b & 0x0F < 16,
        (b >> 4) * 16 + (b & 0x0F) == b,
{
}

/// The hex character of a nibble, as an executable function.
fn hex_char(n: u8, upper: bool) -> (r: u8)
    requires
        n < 16,
    ensures
        r == spec_hex_char(n, upper),
{
    if n < 10 {
        0x30 + n
    } else if upper {
        0x37 + n
    } else {
        0x57 + n
    }
}

/// The position of hex digit `j` in the hyphenated shape, as an
/// executable function.
fn hyph_pos_exec(j: usize) -> (r: usize)
    requires
        j < 32,
    ensures
        r == hyph_pos(j as int),
        r < 36,
{
    if j < 8 {
        j
    } else if j < 12 {
        j + 1
    } else if j < 16 {
        j + 2
    } else if j < 20 {
        j + 3
    } else {
        j + 4
    }
}

/// The thirty-six bytes of the hyphenated shape of a value.
fn hyphenated_bytes(bytes: &Bytes, upper: bool) -> (r: [u8; 36])
    ensures
        r@ == spec_fmt_hyphenated(bytes@, upper),
{
    let mut out = [0u8; 36];
    let mut j: usize = 0;
    while j < 32
        invariant
            j <= 32,
            out@.len() == 36,
            forall|q: int|
                0 <= q < 36 && !is_hyphen_pos(q) && digit_index(q) < j ==> out@[q]
                    == spec_fmt_hyphenated(bytes@, upper)[q],
        decreases 32 - j,
    {
        let b = bytes[j / 2];
        let n = if j % 2 == 0 {
            b >> 4
        } else {
            b & 0x0F
        };
        proof {
            lemma_nibbles(bytes@[j as int / 2]);
        }
        let p = hyph_pos_exec(j);
        out[p] = hex_char(n, upper);
        proof {
            assert(!is_hyphen_pos(hyph_pos(j as int)));
            assert(digit_index(hyph_pos(j as int)) == j as int);
        }
        j = j + 1;
    }
    out[8] = 0x2D;
    out[13] = 0x2D;
    out[18] = 0x2D;
    out[23] = 0x2D;
    proof {
        assert forall|q: int| 0 <= q < 36 && !is_hyphen_pos(q) implies digit_index(q) < 32 by {}
        assert(out@ =~= spec_fmt_hyphenated(bytes@, upper));
    }
    out
}

impl Uuid {
    /// Write the UUID into `buf` as the lowercase 36-character
    /// hyphenated shape. The buffer is exactly the size of the shape,
    /// and is overwritten whole.
    pub fn to_str(self, buf: &mut [u8; 36])
        ensures
            final(buf)@ == spec_fmt_hyphenated(self@, false),
    {
        *buf = hyphenated_bytes(&self.to_bytes(), false);
    }

    /// `Uuid::to_str`, but uppercase.
    pub fn to_str_upper(self, buf: &mut [u8; 36])
        ensures
            final(buf)@ == spec_fmt_hyphenated(self@, true),
    {
        *buf = hyphenated_bytes(&self.to_bytes(), true);
    }

    /// Write the UUID into `buf` as the lowercase 45-character URN
    /// shape, `urn:uuid:` followed by the hyphenated shape.
    pub fn to_urn(self, buf: &mut [u8; 45])
        ensures
            final(buf)@ == spec_fmt_urn(self@, false),
    {
        *buf = urn_bytes(&self.to_bytes(), false);
    }

    /// `Uuid::to_urn`, but the UUID digits are uppercase.
    pub fn to_urn_upper(self, buf: &mut [u8; 45])
        ensures
            final(buf)@ == spec_fmt_urn(self@, true),
    {
        *buf = urn_bytes(&self.to_bytes(), true);
    }

    /// Write the UUID into `buf` as the lowercase 38-character braced
    /// shape, the hyphenated shape between `{` and `}`.
    pub fn to_braced(self, buf: &mut [u8; 38])
        ensures
            final(buf)@ == spec_fmt_braced(self@, false),
    {
        *buf = braced_bytes(&self.to_bytes(), false);
    }

    /// `Uuid::to_braced`, but the UUID digits are uppercase.
    pub fn to_braced_upper(self, buf: &mut [u8; 38])
        ensures
            final(buf)@ == spec_fmt_braced(self@, true),
    {
        *buf = braced_bytes(&self.to_bytes(), true);
    }
}

/// The forty-five bytes of the URN shape of a value.
fn urn_bytes(bytes: &Bytes, upper: bool) -> (r: [u8; 45])
    ensures
        r@ == spec_fmt_urn(bytes@, upper),
{
    let mut out = [0u8; 45];
    out[0] = 0x75;
    out[1] = 0x72;
    out[2] = 0x6E;
    out[3] = 0x3A;
    out[4] = 0x75;
    out[5] = 0x75;
    out[6] = 0x69;
    out[7] = 0x64;
    out[8] = 0x3A;
    let h = hyphenated_bytes(bytes, upper);
    let mut p: usize = 0;
    while p < 36
        invariant
            p <= 36,
            out@.len() == 45,
            h@ == spec_fmt_hyphenated(bytes@, upper),
            forall|q: int| 0 <= q < 9 ==> out@[q] == spec_urn_prefix()[q],
            forall|q: int| 0 <= q < p ==> out@[9 + q] == h@[q],
        decreases 36 - p,
    {
        out[9 + p] = h[p];
        p = p + 1;
    }
    proof {
        assert(out@ =~= spec_fmt_urn(bytes@, upper));
    }
    out
}

/// Whether a byte is an ASCII hex digit, of either letter case.
pub open spec fn is_hex_digit(c: u8) -> bool {
    (0x30 <= c <= 0x39) || (0x61 <= c <= 0x66) || (0x41 <= c <= 0x46)
}

/// The value of an ASCII hex digit.
pub open spec fn spec_hex_val(c: u8) -> u8
    recommends
        is_hex_digit(c),
{
    if 0x30 <= c <= 0x39 {
        (c - 0x30) as u8
    } else if 0x61 <= c <= 0x66 {
        (c - 0x57) as u8
    } else {
        (c - 0x37) as u8
    }
}

/// Where hex digit `j` stands in a stripped shape: at `hyph_pos(j)`
/// in the hyphenated layout, at `j` in the simple layout.
pub open spec fn spec_digit_pos(j: int, hyph: bool) -> int
    recommends
        0 <= j < 32,
{
    if hyph {
        hyph_pos(j)
    } else {
        j
    }
}

/// Whether all thirty-two digit positions of a stripped shape hold
/// hex digits. Positions outside the five groups (the hyphens of the
/// hyphenated layout) are not constrained.
pub open spec fn spec_groups_ok(s: Seq<u8>, hyph: bool) -> bool
    recommends
        s.len() == if hyph { 36int } else { 32 },
{
    forall|j: int| 0 <= j < 32 ==> is_hex_digit(#[trigger] s[spec_digit_pos(j, hyph)])
}

/// The sixteen bytes read from the thirty-two hex digits of a
/// stripped shape.
pub open spec fn spec_group_bytes(s: Seq<u8>, hyph: bool) -> Seq<u8>
    recommends
        s.len() == if hyph { 36int } else { 32 },
        spec_groups_ok(s, hyph),
{
    Seq::new(
        16,
        |i: int|
            (spec_hex_val(s[spec_digit_pos(2 * i, hyph)]) * 16 + spec_hex_val(
                s[spec_digit_pos(2 * i + 1, hyph)],
            )) as u8,
    )
}

/// Parse a stripped shape: the sixteen bytes if every digit position
/// holds a hex digit, nothing otherwise.
pub open spec fn spec_parse_stripped(s: Seq<u8>, hyph: bool) -> Option<Seq<u8>>
    recommends
        s.len() == if hyph { 36int } else { 32 },
{
    if spec_groups_ok(s, hyph) {
        Some(spec_group_bytes(s, hyph))
    } else {
        None
    }
}

/// Parse an ASCII byte sequence in any of the four accepted shapes,
/// told apart by length alone. The URN prefix, braces and hyphens are
/// stripped by position, not checked: only the five hex groups decide.
pub open spec fn spec_parse_bytes(s: Seq<u8>) -> Option<Seq<u8>> {
    if s.len() == 45 {
        spec_parse_stripped(s.subrange(9, 45), true)
    } else if s.len() == 38 {
        spec_parse_stripped(s.subrange(1, 37), true)
    } else if s.len() == 36 {
        spec_parse_stripped(s, true)
    } else if s.len() == 32 {
        spec_parse_stripped(s, false)
    } else {
        None
    }
}

/// The bytes of an ASCII character sequence.
pub open spec fn ascii_bytes_of(s: Seq<char>) -> Seq<u8> {
    Seq::new(s.len(), |i: int| s[i] as u8)
}

/// Parse a string: nothing unless it is all ASCII, else its bytes are
/// parsed by shape.
pub open spec fn spec_parse(s: Seq<char>) -> Option<Seq<u8>> {
    if vstd::utf8::is_ascii_chars(s) {
        spec_parse_bytes(ascii_bytes_of(s))
    } else {
        None
    }
}

/// Error parsing a UUID: the one uniform failure for a length outside
/// the four shapes, non-ASCII input, or a bad digit in a hex group.
#[derive(Debug, Copy, Clone, PartialEq, Eq, Structural)]
pub struct ParseUuidError;

/// The value of a hex digit byte, or nothing if it is not one.
fn hex_val(c: u8) -> (r: Option<u8>)
    ensures
        match r {
            Some(v) => is_hex_digit(c) && v == spec_hex_val(c) && v < 16,
            None => !is_hex_digit(c),
        },
{
    if 0x30 <= c && c <= 0x39 {
        Some(c - 0x30)
    } else if 0x61 <= c && c <= 0x66 {
        Some(c - 0x57)
    } else if 0x41 <= c && c <= 0x46 {
        Some(c - 0x37)
    } else {
        None
    }
}

/// The position of hex digit `j` in a stripped shape, as an
/// executable function.
fn digit_pos_exec(j: usize, hyph: bool) -> (r: usize)
    requires
        j < 32,
    ensures
        r == spec_digit_pos(j as int, hyph),
        r < 36,
{
    if hyph {
        hyph_pos_exec(j)
    } else {
        j
    }
}

/// Read the five hex groups of a stripped shape starting at `start`
/// in `b`, exactly as `spec_parse_stripped` of that stripped slice.
fn parse_groups(b: &[u8], start: usize, hyph: bool) -> (r: Option<Bytes>)
    requires
        start + if hyph {
            36int
        } else {
            32
        } <= b@.len(),
    ensures
        ({
            let stripped = b@.subrange(start as int, start + if hyph { 36int } else { 32 });
            match r {
                Some(bytes) => spec_parse_stripped(stripped, hyph) == Some(bytes@),
                None => spec_parse_stripped(stripped, hyph) is None,
            }
        }),
{
    let ghost stripped = b@.subrange(start as int, start + if hyph { 36int } else { 32 });
    let blen = b.len();
    let mut out: Bytes = [0u8; 16];
    let mut i: usize = 0;
    while i < 16
        invariant
            i <= 16,
            out@.len() == 16,
            start + if hyph {
                36int
            } else {
                32
            } <= b@.len(),
            stripped == b@.subrange(start as int, start + if hyph { 36int } else { 32 }),
            blen == b@.len(),
            forall|j: int| 0 <= j < 2 * i ==> is_hex_digit(#[trigger] stripped[spec_digit_pos(j, hyph)]),
            forall|k: int|
                0 <= k < i ==> out@[k] == (spec_hex_val(stripped[spec_digit_pos(2 * k, hyph)]) * 16
                    + spec_hex_val(stripped[spec_digit_pos(2 * k + 1, hyph)])) as u8,
        decreases 16 - i,
    {
        let p0 = start + digit_pos_exec(2 * i, hyph);
        let p1 = start + digit_pos_exec(2 * i + 1, hyph);
        proof {
            assert(stripped[spec_digit_pos(2 * (i as int), hyph)] == b@[p0 as int]);
            assert(stripped[spec_digit_pos(2 * (i as int) + 1, hyph)] == b@[p1 as int]);
        }
        let v0 = match hex_val(b[p0]) {
            Some(v) => v,
            None => {
                proof {
                    assert(!is_hex_digit(stripped[spec_digit_pos(2 * (i as int), hyph)]));
                    assert(!spec_groups_ok(stripped, hyph));
                }
                return None;
            },
        };
        let v1 = match hex_val(b[p1]) {
            Some(v) => v,
            None => {
                proof {
                    assert(!is_hex_digit(stripped[spec_digit_pos(2 * (i as int) + 1, hyph)]));
                    assert(!spec_groups_ok(stripped, hyph));
                }
                return None;
            },
        };
        out[i] = v0 * 16 + v1;
        i = i + 1;
    }
    proof {
        assert(spec_groups_ok(stripped, hyph));
        assert(out@ =~= spec_group_bytes(stripped, hyph));
    }
    Some(out)
}

impl Uuid {
    /// Parse a UUID from a string.
    ///
    /// Case insensitive; accepts the hyphenated, simple, braced and
    /// URN shapes, told apart by length. Anything else fails with the
    /// one uniform error.
    pub fn parse(s: &str) -> (r: Result<Self, ParseUuidError>)
        ensures
            match r {
                Ok(u) => spec_parse(s@) == Some(u@),
                Err(_) => spec_parse(s@) is None,
            },
    {
        if !s.is_ascii() {
            return Err(ParseUuidError);
        }
        let b = s.as_bytes();
        proof {
            vstd::string::is_ascii_spec_bytes(s);
            assert(b@ =~= ascii_bytes_of(s@));
        }
        let n = b.len();
        let parsed = if n == 45 {
            parse_groups(b, 9, true)
        } else if n == 38 {
            parse_groups(b, 1, true)
        } else if n == 36 {
            parse_groups(b, 0, true)
        } else if n == 32 {
            parse_groups(b, 0, false)
        } else {
            return Err(ParseUuidError);
        };
        proof {
            if n == 36 {
                assert(b@.subrange(0, 36) =~= b@);
            }
            if n == 32 {
                assert(b@.subrange(0, 32) =~= b@);
            }
        }
        match parsed {
            Some(bytes) => Ok(Uuid::from_bytes(bytes)),
            None => Err(ParseUuidError),
        }
    }

    /// Parse a UUID whose string shows the mixed-endian byte order:
    /// the same parse, then the endian swap, so the value is stored
    /// big-endian.
    pub fn parse_me(s: &str) -> (r: Result<Self, ParseUuidError>)
        ensures
            match r {
                Ok(u) => spec_parse(s@) is Some && u@ == crate::model::spec_swap_endian(
                    spec_parse(s@).unwrap(),
                ),
                Err(_) => spec_parse(s@) is None,
            },
    {
        match Uuid::parse(s) {
            Ok(u) => Ok(u.swap_endian()),
            Err(e) => Err(e),
        }
    }
}

/// The thirty-eight bytes of the braced shape of a value.
fn braced_bytes(bytes: &Bytes, upper: bool) -> (r: [u8; 38])
    ensures
        r@ == spec_fmt_braced(bytes@, upper),
{
    let mut out = [0u8; 38];
    out[0] = 0x7B;
    out[37] = 0x7D;
    let h = hyphenated_bytes(bytes, upper);
    let mut p: usize = 0;
    while p < 36
        invariant
            p <= 36,
            out@.len() == 38,
            h@ == spec_fmt_hyphenated(bytes@, upper),
            out@[0] == 0x7Bu8,
            out@[37] == 0x7Du8,
            forall|q: int| 0 <= q < p ==> out@[1 + q] == h@[q],
        decreases 36 - p,
    {
        out[1 + p] = h[p];
        p = p + 1;
    }
    proof {
        assert(out@ =~= spec_fmt_braced(bytes@, upper));
    }
    out
}

impl core::str::FromStr for Uuid {
    type Err = ParseUuidError;

    fn from_str(s: &str) -> Result<Self, Self::Err> {
        Uuid::parse(s)
    }
}

/// The characters of an ASCII byte sequence.
pub open spec fn ascii_chars_of(b: Seq<u8>) -> Seq<char> {
    Seq::new(b.len(), |i: int| b[i] as char)
}

/// A formatted hex character is a hex digit and reads back as the
/// nibble it was written from.
proof fn lemma_hex_char_roundtrip(n: u8, upper: bool)
    requires
        n < 16,
    ensures
        is_hex_digit(spec_hex_char(n, upper)),
        spec_hex_val(spec_hex_char(n, upper)) == n,
        spec_hex_char(n, upper) < 128,
{
}

/// Formatting and then reading the five hex groups of a stripped
/// shape gives back the sixteen bytes.
proof fn lemma_groups_roundtrip(v: Seq<u8>, upper: bool, hyph: bool)
    requires
        v.len() == 16,
    ensures
        spec_parse_stripped(
            if hyph {
                spec_fmt_hyphenated(v, upper)
            } else {
                spec_fmt_simple(v, upper)
            },
            hyph,
        ) == Some(v),
{
    let s = if hyph {
        spec_fmt_hyphenated(v, upper)
    } else {
        spec_fmt_simple(v, upper)
    };
    assert forall|j: int| 0 <= j < 32 implies #[trigger] s[spec_digit_pos(j, hyph)]
        == spec_hex_char(spec_digit(v, j), upper) by {
        if hyph {
            assert(!is_hyphen_pos(hyph_pos(j)));
            assert(digit_index(hyph_pos(j)) == j);
        }
    }
    assert forall|j: int| 0 <= j < 32 implies is_hex_digit(#[trigger] s[spec_digit_pos(j, hyph)])
        && spec_hex_val(s[spec_digit_pos(j, hyph)]) == spec_digit(v, j) by {
        lemma_nibbles(v[j / 2]);
        lemma_hex_char_roundtrip(spec_digit(v, j), upper);
    }
    assert(spec_groups_ok(s, hyph));
    assert forall|i: int| 0 <= i < 16 implies spec_group_bytes(s, hyph)[i] == v[i] by {
        assert(spec_digit(v, 2 * i) == v[i] >> 4);
        assert(spec_digit(v, 2 * i + 1) == v[i] & 0x0F);
        lemma_nibbles(v[i]);
    }
    assert(spec_group_bytes(s, hyph) =~= v);
}

/// Round trip for the hyphenated shape: parsing what was formatted,
/// in either letter case, gives back the value.
pub proof fn lemma_parse_hyphenated_roundtrip(v: Seq<u8>, upper: bool)
    requires
        v.len() == 16,
    ensures
        spec_parse_bytes(spec_fmt_hyphenated(v, upper)) == Some(v),
{
    lemma_groups_roundtrip(v, upper, true);
}

/// Round trip for the simple shape, in either letter case.
pub proof fn lemma_parse_simple_roundtrip(v: Seq<u8>, upper: bool)
    requires
        v.len() == 16,
    ensures
        spec_parse_bytes(spec_fmt_simple(v, upper)) == Some(v),
{
    lemma_groups_roundtrip(v, upper, false);
}

/// Round trip for the URN shape, in either letter case.
pub proof fn lemma_parse_urn_roundtrip(v: Seq<u8>, upper: bool)
    requires
        v.len() == 16,
    ensures
        spec_parse_bytes(spec_fmt_urn(v, upper)) == Some(v),
{
    assert(spec_fmt_urn(v, upper).subrange(9, 45) =~= spec_fmt_hyphenated(v, upper));
    lemma_groups_roundtrip(v, upper, true);
}

/// Round trip for the braced shape, in either letter case.
pub proof fn lemma_parse_braced_roundtrip(v: Seq<u8>, upper: bool)
    requires
        v.len() == 16,
    ensures
        spec_parse_bytes(spec_fmt_braced(v, upper)) == Some(v),
{
    assert(spec_fmt_braced(v, upper).subrange(1, 37) =~= spec_fmt_hyphenated(v, upper));
    lemma_groups_roundtrip(v, upper, true);
}

/// An all-ASCII byte sequence, read as characters, is ASCII and reads
/// back as the same bytes.
pub proof fn lemma_ascii_chars_of_bytes(b: Seq<u8>)
    requires
        forall|i: int| 0 <= i < b.len() ==> b[i] < 128,
    ensures
        vstd::utf8::is_ascii_chars(ascii_chars_of(b)),
        ascii_bytes_of(ascii_chars_of(b)) == b,
{
    assert(ascii_bytes_of(ascii_chars_of(b)) =~= b);
}

/// Every byte of a formatted hyphenated shape is ASCII.
pub proof fn lemma_fmt_hyphenated_ascii(v: Seq<u8>, upper: bool)
    requires
        v.len() == 16,
    ensures
        forall|p: int| 0 <= p < 36 ==> #[trigger] spec_fmt_hyphenated(v, upper)[p] < 128,
{
    assert forall|p: int| 0 <= p < 36 implies #[trigger] spec_fmt_hyphenated(v, upper)[p]
        < 128 by {
        if !is_hyphen_pos(p) {
            lemma_nibbles(v[digit_index(p) / 2]);
            lemma_hex_char_roundtrip(spec_digit(v, digit_index(p)), upper);
        }
    }
}

/// Full round trip at the string level, hyphenated shape: the parsed
/// characters of the formatted value give back the value, in either
/// letter case.
pub proof fn lemma_parse_format_hyphenated(v: Seq<u8>, upper: bool)
    requires
        v.len() == 16,
    ensures
        spec_parse(ascii_chars_of(spec_fmt_hyphenated(v, upper))) == Some(v),
{
    lemma_fmt_hyphenated_ascii(v, upper);
    lemma_ascii_chars_of_bytes(spec_fmt_hyphenated(v, upper));
    lemma_parse_hyphenated_roundtrip(v, upper);
}

/// Full round trip at the string level, simple shape.
pub proof fn lemma_parse_format_simple(v: Seq<u8>, upper: bool)
    requires
        v.len() == 16,
    ensures
        spec_parse(ascii_chars_of(spec_fmt_simple(v, upper))) == Some(v),
{
    assert forall|j: int| 0 <= j < 32 implies #[trigger] spec_fmt_simple(v, upper)[j] < 128 by {
        lemma_nibbles(v[j / 2]);
        lemma_hex_char_roundtrip(spec_digit(v, j), upper);
    }
    lemma_ascii_chars_of_bytes(spec_fmt_simple(v, upper));
    lemma_parse_simple_roundtrip(v, upper);
}

/// Full round trip at the string level, URN shape.
pub proof fn lemma_parse_format_urn(v: Seq<u8>, upper: bool)
    requires
        v.len() == 16,
    ensures
        spec_parse(ascii_chars_of(spec_fmt_urn(v, upper))) == Some(v),
{
    lemma_fmt_hyphenated_ascii(v, upper);
    assert forall|p: int| 0 <= p < 45 implies #[trigger] spec_fmt_urn(v, upper)[p] < 128 by {
        if p >= 9 {
            assert(spec_fmt_urn(v, upper)[p] == spec_fmt_hyphenated(v, upper)[p - 9]);
        }
    }
    lemma_ascii_chars_of_bytes(spec_fmt_urn(v, upper));
    lemma_parse_urn_roundtrip(v, upper);
}

/// Full round trip at the string level, braced shape.
pub proof fn lemma_parse_format_braced(v: Seq<u8>, upper: bool)
    requires
        v.len() == 16,
    ensures
        spec_parse(ascii_chars_of(spec_fmt_braced(v, upper))) == Some(v),
{
    lemma_fmt_hyphenated_ascii(v, upper);
    assert forall|p: int| 0 <= p < 38 implies #[trigger] spec_fmt_braced(v, upper)[p] < 128 by {
        if 1 <= p < 37 {
            assert(spec_fmt_braced(v, upper)[p] == spec_fmt_hyphenated(v, upper)[p - 1]);
        }
    }
    lemma_ascii_chars_of_bytes(spec_fmt_braced(v, upper));
    lemma_parse_braced_roundtrip(v, upper);
}

} // verus!

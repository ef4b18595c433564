//! Parsing of colour codes such as `"#ffffff"`, `"#00000080"` and `"transparent"`.

use vstd::prelude::*;
use vstd::utf8::*;
use vstd::string::StringSliceAdditionalSpecFns;
use crate::error::IconToolkitError;
use crate::text::{
    ascii_lower, ascii_lower_char, ascii_upper, is_ascii_text, is_white_space, lowercase_of, str_eq,
    str_to_lowercase, str_trim, trim_end_ws, trim_start_ws, trimmed_of,
};

verus! {

broadcast use vstd::string::group_string_axioms;

/// The value of an ASCII hexadecimal digit byte (`0-9`, `a-f`, `A-F`).
pub open spec fn hex_digit(b: u8) -> Option<nat> {
    if 48 <= b <= 57 {
        Some((b - 48) as nat)
    } else if 97 <= b <= 102 {
        Some((b - 87) as nat)
    } else if 65 <= b <= 70 {
        Some((b - 55) as nat)
    } else {
        None
    }
}

/// The value of a sequence of hexadecimal digit bytes, most significant first.
pub open spec fn hex_number(ds: Seq<u8>) -> Option<nat>
    decreases ds.len(),
{
    if ds.len() == 0 {
        Some(0)
    } else {
        match (hex_number(ds.drop_last()), hex_digit(ds.last())) {
            (Some(a), Some(d)) => Some(a * 16 + d),
            _ => None,
        }
    }
}

/// What `u8::from_str_radix(s, 16)` accepts and returns, over the bytes of `s`: an
/// optional `+` followed by at least one hexadecimal digit, whose value fits in a byte.
pub open spec fn radix16_byte(bs: Seq<u8>) -> Option<u8> {
    let ds = if bs.len() > 0 && bs[0] == 43 {
        bs.drop_first()
    } else {
        bs
    };
    if ds.len() == 0 {
        None
    } else {
        match hex_number(ds) {
            Some(v) => if v <= 255 {
                Some(v as u8)
            } else {
                None
            },
            None => None,
        }
    }
}

/// The value of an ASCII hexadecimal digit byte.
fn hex_digit_value(b: u8) -> (r: Option<u32>)
    ensures
        match hex_digit(b) {
            Some(d) => r == Some(d as u32),
            None => r is None,
        },
{
    if 48 <= b && b <= 57 {
        Some((b - 48) as u32)
    } else if 97 <= b && b <= 102 {
        Some((b - 87) as u32)
    } else if 65 <= b && b <= 70 {
        Some((b - 55) as u32)
    } else {
        None
    }
}

/// Parses `s` as `u8::from_str_radix(s, 16)` does: an optional `+` followed by at least
/// one hexadecimal digit, whose value fits in a byte.
fn u8_from_hex_str(s: &str) -> (r: Option<u8>)
    ensures
        r == radix16_byte(s.spec_bytes()),
{
    let bytes = s.as_bytes();
    let ghost bs = s.spec_bytes();
    assert(bytes@ == bs);
    let start: usize = if bytes.len() > 0 && bytes[0] == 43 {
        1
    } else {
        0
    };
    let ghost ds = if bs.len() > 0 && bs[0] == 43 {
        bs.drop_first()
    } else {
        bs
    };
    assert(ds =~= bs.subrange(start as int, bs.len() as int));
    if bytes.len() == start {
        return None;
    }
    let mut valid = true;
    let mut big = false;
    let mut acc: u32 = 0;
    let mut i: usize = start;
    assert(ds.take(0) =~= Seq::<u8>::empty());
    while i < bytes.len()
        invariant
            bytes@ == bs,
            ds == bs.subrange(start as int, bs.len() as int),
            start <= i <= bytes.len(),
            acc <= 256,
            !big ==> acc <= 255,
            valid == (hex_number(ds.take(i - start)) is Some),
            valid && !big ==> hex_number(ds.take(i - start)) == Some(acc as nat),
            valid && big ==> hex_number(ds.take(i - start)).unwrap() > 255,
        decreases bytes.len() - i,
    {
        let d = hex_digit_value(bytes[i]);
        let ghost pre = ds.take(i - start);
        let ghost next = ds.take(i + 1 - start);
        assert(next.drop_last() =~= pre);
        assert(next.last() == bytes@[i as int]);
        match d {
            Some(v) => {
                if valid && !big {
                    let n = acc * 16 + v;
                    if n > 255 {
                        big = true;
                        acc = 256;
                    } else {
                        acc = n;
                    }
                }
            },
            None => {
                valid = false;
            },
        }
        i = i + 1;
    }
    assert(ds.take(bytes.len() - start) =~= ds);
    if valid && !big {
        Some(acc as u8)
    } else {
        None
    }
}

/// The bytes of a lowercased colour code after an optional leading `#`.
pub open spec fn hex_body(clean: Seq<char>) -> Seq<u8> {
    let b = encode_utf8(clean);
    if b.len() > 0 && b[0] == 35 {
        b.drop_first()
    } else {
        b
    }
}

/// The value of the `k`-th two-byte group of `s`.
pub open spec fn pair_value(s: Seq<u8>, k: int) -> Option<u8> {
    radix16_byte(s.subrange(2 * k, 2 * k + 2))
}

/// Whether the groups before the `k`-th one all parse.
pub open spec fn pairs_parse(s: Seq<u8>, k: int) -> bool {
    forall|j: int| 0 <= j < k ==> (#[trigger] pair_value(s, j)) is Some
}

/// Whether the byte range of the `k`-th group starts and ends between characters.
pub open spec fn pair_on_boundaries(s: Seq<u8>, k: int) -> bool {
    is_char_boundary(s, 2 * k) && is_char_boundary(s, 2 * k + 2)
}

/// The colour parser cuts its input into two-byte groups by byte index, one group after
/// the other, and stops at the first group that does not parse. Cutting a string inside
/// a multi-byte character panics. This holds when every cut the parser makes falls
/// between characters.
pub open spec fn hex_cuts_on_boundaries(clean: Seq<char>) -> bool {
    let s = hex_body(clean);
    clean != "transparent"@ ==> (s.len() == 6 || s.len() == 8) ==> forall|k: int|
        0 <= k < s.len() / 2 && pairs_parse(s, k) ==> #[trigger] pair_on_boundaries(s, k)
}

/// How a lowercased colour code is read.
pub enum HexColorOutcome {
    /// The red, green, blue and alpha channels.
    Color(Seq<u8>),
    /// Six or eight bytes, of which a group is not a hexadecimal byte.
    BadDigits,
    /// Neither `transparent` nor six or eight bytes.
    BadFormat,
}

/// The outcome of reading a lowercased, trimmed colour code.
pub open spec fn hex_color_outcome(clean: Seq<char>) -> HexColorOutcome {
    let s = hex_body(clean);
    if clean == "transparent"@ {
        HexColorOutcome::Color(seq![0u8, 0u8, 0u8, 0u8])
    } else if s.len() == 6 {
        if pairs_parse(s, 3) {
            HexColorOutcome::Color(
                seq![
                    pair_value(s, 0).unwrap(),
                    pair_value(s, 1).unwrap(),
                    pair_value(s, 2).unwrap(),
                    255u8,
                ],
            )
        } else {
            HexColorOutcome::BadDigits
        }
    } else if s.len() == 8 {
        if pairs_parse(s, 4) {
            HexColorOutcome::Color(
                seq![
                    pair_value(s, 0).unwrap(),
                    pair_value(s, 1).unwrap(),
                    pair_value(s, 2).unwrap(),
                    pair_value(s, 3).unwrap(),
                ],
            )
        } else {
            HexColorOutcome::BadDigits
        }
    } else {
        HexColorOutcome::BadFormat
    }
}

/// The result of parsing the colour code `hex` whose lowercased, trimmed form is `clean`.
pub open spec fn hex_color_result(
    clean: Seq<char>,
    hex: Seq<char>,
    r: Result<[u8; 4], IconToolkitError>,
) -> bool {
    match hex_color_outcome(clean) {
        HexColorOutcome::Color(c) => r matches Ok(v) && v@ == c,
        HexColorOutcome::BadDigits => r matches Err(IconToolkitError::InvalidConfig(m)) && m@
            == "Invalid hex color: "@ + hex,
        HexColorOutcome::BadFormat => r matches Err(IconToolkitError::InvalidConfig(m)) && m@
            == "Invalid hex color format: "@ + hex,
    }
}

/// Boundaries of a suffix taken at a boundary are the boundaries of the whole, shifted.
proof fn lemma_boundary_shift(s: Seq<u8>, a: int, b: int)
    requires
        valid_utf8(s),
        is_char_boundary(s, a),
        0 <= a <= b <= s.len(),
    ensures
        valid_utf8(s.subrange(a, s.len() as int)),
        is_char_boundary(s, b) == is_char_boundary(s.subrange(a, s.len() as int), b - a),
{
    let t = s.subrange(a, s.len() as int);
    valid_utf8_split(s, a);
    if b == s.len() {
        is_char_boundary_start_end_of_seq(s);
        is_char_boundary_start_end_of_seq(t);
        assert(t.len() == b - a);
    } else {
        is_char_boundary_iff_not_is_continuation_byte(s, b);
        is_char_boundary_iff_not_is_continuation_byte(t, b - a);
        assert(t[b - a] == s[b]);
    }
}

/// Parses the `k`-th two-byte group of `s`.
fn parse_pair(s: &str, k: usize) -> (r: Option<u8>)
    requires
        k <= 3,
        2 * k + 2 <= s.spec_bytes().len(),
        pair_on_boundaries(s.spec_bytes(), k as int),
    ensures
        r == pair_value(s.spec_bytes(), k as int),
{
    let ghost sb = s.spec_bytes();
    proof {
        encode_utf8_valid_utf8(s@);
    }
    let (_, tail) = s.split_at(2 * k);
    proof {
        lemma_boundary_shift(sb, 2 * k, 2 * k + 2);
        assert(tail.spec_bytes() =~= sb.subrange(2 * k, sb.len() as int));
    }
    let (chunk, _) = tail.split_at(2);
    assert(chunk.spec_bytes() =~= sb.subrange(2 * k, 2 * k + 2));
    u8_from_hex_str(chunk)
}

/// Builds the `InvalidConfig` error whose message is `prefix` followed by `hex`.
fn invalid_config(prefix: &str, hex: &str) -> (e: IconToolkitError)
    ensures
        e matches IconToolkitError::InvalidConfig(m) && m@ == prefix@ + hex@,
{
    let mut m = String::new();
    m.append(prefix);
    m.append(hex);
    IconToolkitError::InvalidConfig(m)
}

/// The part of a colour code after an optional leading `#`.
fn hex_body_str(clean: &str) -> (s: &str)
    ensures
        s.spec_bytes() == hex_body(clean@),
{
    let ghost cb = clean.spec_bytes();
    let bytes = clean.as_bytes();
    if bytes.len() > 0 && bytes[0] == 35 {
        proof {
            encode_utf8_valid_utf8(clean@);
            reveal_with_fuel(is_char_boundary, 2);
            assert(length_of_first_scalar(cb) == 1);
        }
        let (_, rest) = clean.split_at(1);
        assert(rest.spec_bytes() =~= cb.drop_first());
        rest
    } else {
        clean
    }
}

/// Whether parsing the lowercased colour code `clean` cuts it only between characters.
pub fn hex_cuts_ok(clean: &str) -> (r: bool)
    ensures
        r == hex_cuts_on_boundaries(clean@),
{
    if str_eq(clean, "transparent") {
        return true;
    }
    let s = hex_body_str(clean);
    let ghost sb = s.spec_bytes();
    let n = s.as_bytes().len();
    if n != 6 && n != 8 {
        return true;
    }
    let half = n / 2;
    let mut k: usize = 0;
    while k < half
        invariant
            sb == s.spec_bytes(),
            sb == hex_body(clean@),
            clean@ != "transparent"@,
            n == sb.len(),
            n == 6 || n == 8,
            half == n / 2,
            k <= half,
            pairs_parse(sb, k as int),
            forall|j: int| 0 <= j < k ==> #[trigger] pair_on_boundaries(sb, j),
        decreases half - k,
    {
        if !(s.is_char_boundary(2 * k) && s.is_char_boundary(2 * k + 2)) {
            assert(!pair_on_boundaries(sb, k as int));
            return false;
        }
        assert(pair_on_boundaries(sb, k as int));
        let v = parse_pair(s, k);
        if v.is_none() {
            assert forall|k2: int|
                0 <= k2 < sb.len() / 2 && pairs_parse(sb, k2) implies #[trigger] pair_on_boundaries(
                sb,
                k2,
            ) by {
                if k2 > k {
                    assert(pair_value(sb, k as int) is None);
                }
            }
            return true;
        }
        assert(pairs_parse(sb, k + 1));
        k = k + 1;
    }
    true
}

/// Parses a colour code that is already trimmed and lowercased: `transparent`, or six or
/// eight hexadecimal digits after an optional `#`. `hex` is the code as the caller gave
/// it; error messages quote it.
pub fn parse_clean_hex_color(clean: &str, hex: &str) -> (r: Result<[u8; 4], IconToolkitError>)
    requires
        hex_cuts_on_boundaries(clean@),
    ensures
        hex_color_result(clean@, hex@, r),
{
    if str_eq(clean, "transparent") {
        return Ok([0, 0, 0, 0]);
    }
    let s = hex_body_str(clean);
    let ghost sb = s.spec_bytes();
    assert(sb == hex_body(clean@));
    let n = s.as_bytes().len();
    if n == 6 || n == 8 {
        assert(pairs_parse(sb, 0));
        assert(pair_on_boundaries(sb, 0));
        let c0 = match parse_pair(s, 0) {
            Some(v) => v,
            None => {
                assert(!pairs_parse(sb, (n / 2) as int));
                return Err(invalid_config("Invalid hex color: ", hex));
            },
        };
        assert(pairs_parse(sb, 1));
        assert(pair_on_boundaries(sb, 1));
        let c1 = match parse_pair(s, 1) {
            Some(v) => v,
            None => {
                assert(!pairs_parse(sb, (n / 2) as int));
                return Err(invalid_config("Invalid hex color: ", hex));
            },
        };
        assert(pairs_parse(sb, 2));
        assert(pair_on_boundaries(sb, 2));
        let c2 = match parse_pair(s, 2) {
            Some(v) => v,
            None => {
                assert(!pairs_parse(sb, (n / 2) as int));
                return Err(invalid_config("Invalid hex color: ", hex));
            },
        };
        assert(pairs_parse(sb, 3));
        if n == 6 {
            let out = [c0, c1, c2, 255];
            assert(out@ =~= seq![c0, c1, c2, 255u8]);
            return Ok(out);
        }
        assert(pair_on_boundaries(sb, 3));
        let c3 = match parse_pair(s, 3) {
            Some(v) => v,
            None => {
                assert(!pairs_parse(sb, 4));
                return Err(invalid_config("Invalid hex color: ", hex));
            },
        };
        assert(pairs_parse(sb, 4));
        let out = [c0, c1, c2, c3];
        assert(out@ =~= seq![c0, c1, c2, c3]);
        Ok(out)
    } else {
        Err(invalid_config("Invalid hex color format: ", hex))
    }
}

} // verus!

verus! {

/// Parses a colour code (e.g. `"#ffffff"`, `"#00000080"`, `"transparent"`) into red,
/// green, blue and alpha channels. The code is trimmed and lowercased first; six digits
/// give an opaque colour.
pub fn parse_hex_color(hex: &str) -> (r: Result<[u8; 4], IconToolkitError>)
    requires
        hex_cuts_on_boundaries(lowercase_of(trimmed_of(hex@))),
    ensures
        hex_color_result(lowercase_of(trimmed_of(hex@)), hex@, r),
{
    let trimmed = str_trim(hex);
    let clean = str_to_lowercase(trimmed.as_str());
    parse_clean_hex_color(clean.as_str(), hex)
}

/// Parses a colour code as `parse_hex_color` does, or returns `None` for the codes on
/// which that parser would cut a multi-byte character in two.
pub fn try_parse_hex_color(hex: &str) -> (r: Option<Result<[u8; 4], IconToolkitError>>)
    ensures
        r is None <==> !hex_cuts_on_boundaries(lowercase_of(trimmed_of(hex@))),
        r matches Some(res) ==> hex_color_result(lowercase_of(trimmed_of(hex@)), hex@, res),
{
    let trimmed = str_trim(hex);
    let clean = str_to_lowercase(trimmed.as_str());
    if hex_cuts_ok(clean.as_str()) {
        Some(parse_hex_color(hex))
    } else {
        None
    }
}

} // verus!

verus! {

/// The colour a code names, when `parse_hex_color` reads one from it.
pub open spec fn parsed_color(hex: Seq<char>) -> Option<Seq<u8>> {
    match hex_color_outcome(lowercase_of(trimmed_of(hex))) {
        HexColorOutcome::Color(c) => Some(c),
        _ => None,
    }
}

proof fn lemma_trim_start_len(s: Seq<char>)
    ensures
        trim_start_ws(s).len() <= s.len(),
        s.len() > 0 && is_white_space(s[0]) ==> trim_start_ws(s).len() < s.len(),
    decreases s.len(),
{
    if s.len() > 0 && is_white_space(s[0]) {
        lemma_trim_start_len(s.drop_first());
    }
}

proof fn lemma_trim_end_len(s: Seq<char>)
    ensures
        trim_end_ws(s).len() <= s.len(),
        s.len() > 0 && is_white_space(s.last()) ==> trim_end_ws(s).len() < s.len(),
    decreases s.len(),
{
    if s.len() > 0 && is_white_space(s.last()) {
        lemma_trim_end_len(s.drop_last());
    }
}

/// A text that trimming keeps starts and ends with characters that are not white space,
/// and trimming keeps any such text.
proof fn lemma_trimmed_fixed(x: Seq<char>)
    ensures
        (trimmed_of(x) == x) <==> (x.len() == 0 || (!is_white_space(x[0]) && !is_white_space(
            x.last(),
        ))),
{
    lemma_trim_start_len(x);
    lemma_trim_end_len(trim_start_ws(x));
    if x.len() > 0 && !is_white_space(x[0]) {
        assert(trim_start_ws(x) == x);
        lemma_trim_end_len(x);
    }
}

/// The UTF-8 encoding of a text that starts with an ASCII character starts with that
/// character's byte, followed by the encoding of the rest.
proof fn lemma_encode_ascii_first(s: Seq<char>)
    requires
        s.len() > 0,
        s[0] as u32 <= 127,
    ensures
        encode_utf8(s) == seq![s[0] as u32 as u8] + encode_utf8(s.drop_first()),
        (s[0] as u32 as u8) as u32 == s[0] as u32,
{
    let v = s[0] as u32;
    assert(((v & 0x7f) as u8) == (v as u8) && (v as u8) as u32 == v) by (bit_vector)
        requires
            v <= 127,
    ;
}

/// ASCII lowercasing keeps a text ASCII and commutes with putting `#` in front.
proof fn lemma_ascii_lower_facts(x: Seq<char>)
    requires
        is_ascii_text(x),
    ensures
        is_ascii_text(ascii_lower(x)),
        is_ascii_text(seq!['#'] + x),
        ascii_lower(seq!['#'] + x) == seq!['#'] + ascii_lower(x),
        is_ascii_text(ascii_upper(x)),
        ascii_lower(ascii_upper(x)) == ascii_lower(x),
        forall|i: int| 0 <= i < x.len() ==> is_white_space(#[trigger] ascii_upper(x)[i]) == is_white_space(x[i]),
        forall|i: int| 0 <= i < x.len() ==> (#[trigger] ascii_lower(x)[i] == '#') == (x[i] == '#'),
{
    let l = ascii_lower(x);
    let u = ascii_upper(x);
    assert forall|i: int| 0 <= i < x.len() implies (#[trigger] l[i]) as u32 <= 127 && (l[i] == '#')
        == (x[i] == '#') by {
        let n = x[i] as u32;
        if 65 <= n <= 90 {
            assert(((n + 32) as char) as u32 == n + 32);
        }
    }
    assert forall|i: int| 0 <= i < x.len() implies (#[trigger] u[i]) as u32 <= 127
        && is_white_space(u[i]) == is_white_space(x[i]) && ascii_lower_char(u[i])
        == ascii_lower_char(x[i]) by {
        let n = x[i] as u32;
        if 97 <= n <= 122 {
            assert(((n - 32) as char) as u32 == n - 32);
            assert(((n - 32 + 32) as char) as u32 == n);
        }
    }
    assert(ascii_lower(u) =~= l);
    let h = seq!['#'] + x;
    assert(is_ascii_text(h)) by {
        assert forall|i: int| 0 <= i < h.len() implies (#[trigger] h[i]) as u32 <= 127 by {
            if i > 0 {
                assert(h[i] == x[i - 1]);
            }
        }
    }
    assert(ascii_lower(h) =~= seq!['#'] + l);
}

/// The bytes read as hexadecimal digits from a lowercased ASCII code: its `#`, if it
/// has one, is left out.
proof fn lemma_hex_body_ascii(c: Seq<char>)
    requires
        is_ascii_text(c),
        c.len() == 0 || c[0] != '#',
    ensures
        hex_body(seq!['#'] + c) == hex_body(c),
        hex_body(c) == encode_utf8(c),
{
    let h = seq!['#'] + c;
    assert('#' as u32 == 35);
    lemma_encode_ascii_first(h);
    assert(h.drop_first() =~= c);
    assert(encode_utf8(h)[0] == 35);
    assert(encode_utf8(h).drop_first() =~= encode_utf8(c));
    if c.len() > 0 {
        lemma_encode_ascii_first(c);
        let v = c[0] as u32;
        if v == 35 {
            vstd::utf8::char_u32_cast(c[0], v);
            vstd::utf8::char_u32_cast('#', 35);
        }
        assert(encode_utf8(c)[0] != 35);
    } else {
        assert(encode_utf8(c) =~= Seq::<u8>::empty());
    }
}

/// A colour code is read the same whatever its letter case, with or without a leading
/// `#`, and with or without surrounding spaces (for an ASCII code that trimming keeps,
/// that does not start with `#` and that is not `transparent`); `parse_hex_color`
/// accepts each of these forms.
pub proof fn lemma_hex_color_ignores_case_hash_and_padding(x: Seq<char>)
    requires
        is_ascii_text(x),
        trimmed_of(x) == x,
        x.len() == 0 || x[0] != '#',
        lowercase_of(x) != "transparent"@,
    ensures
        parsed_color(seq!['#'] + x) == parsed_color(x),
        parsed_color(ascii_upper(x)) == parsed_color(x),
        parsed_color(seq![' ', ' '] + x + seq![' ', ' ']) == parsed_color(x),
        hex_cuts_on_boundaries(lowercase_of(trimmed_of(x))),
        hex_cuts_on_boundaries(lowercase_of(trimmed_of(seq!['#'] + x))),
        hex_cuts_on_boundaries(lowercase_of(trimmed_of(ascii_upper(x)))),
        hex_cuts_on_boundaries(lowercase_of(trimmed_of(seq![' ', ' '] + x + seq![' ', ' ']))),
{
    reveal_strlit("transparent");
    lemma_trimmed_fixed(x);
    lemma_ascii_lower_facts(x);
    let l = ascii_lower(x);
    // A leading `#`.
    let h = seq!['#'] + x;
    lemma_trimmed_fixed(h);
    assert(h[0] == '#' && h.last() == if x.len() > 0 { x.last() } else { '#' });
    assert(trimmed_of(h) == h);
    lemma_hex_body_ascii(l);
    assert(lowercase_of(h) != "transparent"@) by {
        assert(lowercase_of(h)[0] == '#');
    }
    // Upper case.
    let u = ascii_upper(x);
    lemma_trimmed_fixed(u);
    if x.len() > 0 {
        assert(is_white_space(u[0]) == is_white_space(x[0]));
        assert(is_white_space(u[u.len() - 1]) == is_white_space(x[x.len() - 1]));
    }
    assert(trimmed_of(u) == u);
    // Surrounding spaces.
    let p = seq![' ', ' '] + x + seq![' ', ' '];
    let xs = x + seq![' ', ' '];
    assert(' ' as u32 == 32);
    assert(is_white_space(' '));
    assert(p[0] == ' ');
    assert(p.drop_first()[0] == ' ');
    assert(p.drop_first().drop_first() =~= xs);
    assert(trim_start_ws(p) == trim_start_ws(p.drop_first()));
    assert(trim_start_ws(p) == trim_start_ws(xs));
    if x.len() > 0 {
        assert(xs[0] == x[0]);
        assert(trim_start_ws(xs) == xs);
        assert(xs.last() == ' ');
        assert(xs.drop_last().last() == ' ');
        assert(xs.drop_last().drop_last() =~= x);
        assert(trim_end_ws(xs) == trim_end_ws(xs.drop_last()));
        assert(trim_end_ws(xs.drop_last()) == trim_end_ws(xs.drop_last().drop_last()));
        assert(trim_end_ws(xs) == trim_end_ws(x));
    } else {
        assert(xs[0] == ' ' && xs.drop_first()[0] == ' ');
        assert(xs.drop_first().drop_first() =~= Seq::<char>::empty());
        assert(trim_start_ws(xs) == trim_start_ws(xs.drop_first()));
        assert(trim_start_ws(xs.drop_first()) == trim_start_ws(xs.drop_first().drop_first()));
        assert(trim_start_ws(xs) =~= Seq::<char>::empty());
    }
    assert(trimmed_of(p) == x);
    lemma_ascii_codes_cut_on_boundaries(x);
    lemma_ascii_codes_cut_on_boundaries(h);
    lemma_ascii_codes_cut_on_boundaries(u);
    assert(lowercase_of(trimmed_of(p)) == lowercase_of(trimmed_of(x)));
}

} // verus!

verus! {

proof fn lemma_trim_start_keeps_ascii(s: Seq<char>)
    requires
        is_ascii_text(s),
    ensures
        is_ascii_text(trim_start_ws(s)),
    decreases s.len(),
{
    if s.len() > 0 && is_white_space(s[0]) {
        let t = s.drop_first();
        assert forall|i: int| 0 <= i < t.len() implies (#[trigger] t[i]) as u32 <= 127 by {
            assert(t[i] == s[i + 1]);
        }
        lemma_trim_start_keeps_ascii(t);
    }
}

proof fn lemma_trim_end_keeps_ascii(s: Seq<char>)
    requires
        is_ascii_text(s),
    ensures
        is_ascii_text(trim_end_ws(s)),
    decreases s.len(),
{
    if s.len() > 0 && is_white_space(s.last()) {
        let t = s.drop_last();
        assert forall|i: int| 0 <= i < t.len() implies (#[trigger] t[i]) as u32 <= 127 by {
            assert(t[i] == s[i]);
        }
        lemma_trim_end_keeps_ascii(t);
    }
}

/// The UTF-8 encoding of ASCII text has one byte per character, and every index up to
/// its length is a character boundary.
proof fn lemma_ascii_boundaries(c: Seq<char>)
    requires
        is_ascii_text(c),
    ensures
        encode_utf8(c).len() == c.len(),
        valid_utf8(encode_utf8(c)),
        forall|i: int| 0 <= i <= c.len() ==> #[trigger] is_char_boundary(encode_utf8(c), i),
    decreases c.len(),
{
    encode_utf8_valid_utf8(c);
    let b = encode_utf8(c);
    if c.len() > 0 {
        let t = c.drop_first();
        assert forall|i: int| 0 <= i < t.len() implies (#[trigger] t[i]) as u32 <= 127 by {
            assert(t[i] == c[i + 1]);
        }
        lemma_ascii_boundaries(t);
        lemma_encode_ascii_first(c);
        encode_utf8_first_scalar(c);
        assert(length_of_first_scalar(b) == 1);
        assert(pop_first_scalar(b) =~= encode_utf8(t));
        assert forall|i: int| 0 <= i <= c.len() implies #[trigger] is_char_boundary(b, i) by {
            if i > 0 {
                assert(is_char_boundary(encode_utf8(t), i - 1));
            }
        }
    } else {
        assert forall|i: int| 0 <= i <= c.len() implies #[trigger] is_char_boundary(b, i) by {}
    }
}

/// Every cut the colour parser makes in an ASCII colour code falls between characters,
/// so `parse_hex_color` accepts every ASCII code.
pub proof fn lemma_ascii_codes_cut_on_boundaries(hex: Seq<char>)
    requires
        is_ascii_text(hex),
    ensures
        hex_cuts_on_boundaries(lowercase_of(trimmed_of(hex))),
{
    lemma_trim_start_keeps_ascii(hex);
    lemma_trim_end_keeps_ascii(trim_start_ws(hex));
    let t = trimmed_of(hex);
    lemma_ascii_lower_facts(t);
    let clean = lowercase_of(t);
    assert(is_ascii_text(clean));
    let b = encode_utf8(clean);
    lemma_ascii_boundaries(clean);
    let d = if b.len() > 0 && b[0] == 35 {
        clean.drop_first()
    } else {
        clean
    };
    if b.len() > 0 && b[0] == 35 {
        lemma_encode_ascii_first(clean);
        assert(b.drop_first() =~= encode_utf8(d));
    }
    assert(hex_body(clean) == encode_utf8(d));
    assert(is_ascii_text(d)) by {
        assert forall|i: int| 0 <= i < d.len() implies (#[trigger] d[i]) as u32 <= 127 by {
            if b.len() > 0 && b[0] == 35 {
                assert(d[i] == clean[i + 1]);
            }
        }
    }
    lemma_ascii_boundaries(d);
    let sb = hex_body(clean);
    assert forall|k: int|
        0 <= k < sb.len() / 2 && pairs_parse(sb, k) implies #[trigger] pair_on_boundaries(sb, k) by {
        assert(is_char_boundary(encode_utf8(d), 2 * k));
        assert(is_char_boundary(encode_utf8(d), 2 * k + 2));
    }
}

} // verus!

verus! {

/// The channel a pair of hexadecimal digit bytes gives: 16 times the first digit plus
/// the second.
pub open spec fn digit_pair(s: Seq<u8>, k: int) -> nat {
    16 * hex_digit(s[2 * k]).unwrap() + hex_digit(s[2 * k + 1]).unwrap()
}

proof fn lemma_pair_value_of_digits(s: Seq<u8>, k: int)
    requires
        0 <= k,
        2 * k + 2 <= s.len(),
        hex_digit(s[2 * k]) is Some,
        hex_digit(s[2 * k + 1]) is Some,
    ensures
        pair_value(s, k) matches Some(v) && v as nat == digit_pair(s, k),
{
    let sub = s.subrange(2 * k, 2 * k + 2);
    assert(sub[0] == s[2 * k] && sub[1] == s[2 * k + 1]);
    assert(sub.drop_last() =~= seq![sub[0]]);
    let one = seq![sub[0]];
    assert(one.drop_last() =~= Seq::<u8>::empty());
    assert(hex_number(Seq::<u8>::empty()) == Some(0nat));
    assert(one.last() == sub[0]);
    assert(hex_number(one) == Some(0nat * 16 + hex_digit(sub[0]).unwrap()));
    assert(sub.last() == sub[1]);
    assert(hex_number(seq![sub[0]]) == Some(hex_digit(sub[0]).unwrap()));
    assert(hex_number(sub) == Some(digit_pair(s, k)));
    assert(digit_pair(s, k) <= 255);
}

/// A colour code of six or eight hexadecimal digits (after an optional `#`) is read two
/// digits per channel, in order: channel `k` is 16 times digit `2k` plus digit `2k + 1`
/// (red, green, blue, then alpha); a six-digit code is opaque.
pub proof fn lemma_hex_channels_from_digit_pairs(
    clean: Seq<char>,
    hex: Seq<char>,
    r: Result<[u8; 4], IconToolkitError>,
)
    requires
        hex_color_result(clean, hex, r),
        clean != "transparent"@,
        hex_body(clean).len() == 6 || hex_body(clean).len() == 8,
        forall|i: int| 0 <= i < hex_body(clean).len() ==> #[trigger] hex_digit(hex_body(clean)[i]) is Some,
    ensures
        r matches Ok(v) && (forall|k: int|
            0 <= k < hex_body(clean).len() / 2 ==> v@[k] as nat == #[trigger] digit_pair(
                hex_body(clean),
                k,
            )) && (hex_body(clean).len() == 6 ==> v@[3] == 255),
{
    let s = hex_body(clean);
    let n = s.len() / 2;
    assert forall|k: int| 0 <= k < n implies (#[trigger] pair_value(s, k)) matches Some(v) && v as nat
        == digit_pair(s, k) by {
        assert(hex_digit(s[2 * k]) is Some);
        assert(hex_digit(s[2 * k + 1]) is Some);
        lemma_pair_value_of_digits(s, k);
    }
    assert(pairs_parse(s, n as int));
    let v = r.unwrap();
    assert forall|k: int| 0 <= k < n implies v@[k] as nat == #[trigger] digit_pair(s, k) by {
        assert(pair_value(s, k) is Some);
        if k == 0 {
        } else if k == 1 {
        } else if k == 2 {
        } else {
        }
    }
}

} // verus!

verus! {

/// `transparent` is the fully transparent black; any other code whose digits (after an
/// optional `#`) number neither six nor eight is a format error that quotes the code.
pub proof fn lemma_transparent_and_format_errors(
    clean: Seq<char>,
    hex: Seq<char>,
    r: Result<[u8; 4], IconToolkitError>,
)
    requires
        hex_color_result(clean, hex, r),
    ensures
        clean == "transparent"@ ==> (r matches Ok(v) && v@ == seq![0u8, 0u8, 0u8, 0u8]),
        clean != "transparent"@ && hex_body(clean).len() != 6 && hex_body(clean).len() != 8
            ==> (r matches Err(IconToolkitError::InvalidConfig(m)) && m@
            == "Invalid hex color format: "@ + hex),
        r is Ok ==> clean == "transparent"@ || hex_body(clean).len() == 6 || hex_body(clean).len()
            == 8,
{
}

} // verus!

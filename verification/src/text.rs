//! Character-level helpers shared by the parsers of the library.

use vstd::prelude::*;

verus! {

/// The characters of a string slice, in order.
pub fn str_chars(s: &str) -> (r: Vec<char>)
    ensures
        r@ == s@,
{
    let mut out: Vec<char> = Vec::new();
    for c in it: s.chars()
        invariant
            out@ == it.seq().take(it.index() as int),
            it.seq() == s@,
    {
        out.push(c);
    }
    out
}

/// Builds a `String` holding exactly the given characters (`String::from_iter`).
#[verifier::external_body]
pub(crate) fn string_from_chars(v: &Vec<char>) -> (r: String)
    ensures
        r@ == v@,
{
    v.iter().collect()
}

} // verus!

verus! {

/// Whether two string slices hold the same characters.
pub fn str_eq(a: &str, b: &str) -> (r: bool)
    ensures
        r == (a@ == b@),
{
    let x = str_chars(a);
    let y = str_chars(b);
    if x.len() != y.len() {
        return false;
    }
    let mut i: usize = 0;
    while i < x.len()
        invariant
            x@ == a@,
            y@ == b@,
            x.len() == y.len(),
            i <= x.len(),
            forall|j: int| 0 <= j < i ==> x@[j] == y@[j],
        decreases x.len() - i,
    {
        if x[i] != y[i] {
            return false;
        }
        i = i + 1;
    }
    assert(x@ =~= y@);
    true
}

/// Whether every character of a text is ASCII.
pub open spec fn is_ascii_text(s: Seq<char>) -> bool {
    forall|i: int| 0 <= i < s.len() ==> (#[trigger] s[i]) as u32 <= 127
}

/// The ASCII lowercase of a character: `A`-`Z` become `a`-`z`, others are kept.
pub open spec fn ascii_lower_char(c: char) -> char {
    if 65 <= (c as u32) <= 90 {
        ((c as u32) + 32) as char
    } else {
        c
    }
}

/// The ASCII uppercase of a character: `a`-`z` become `A`-`Z`, others are kept.
pub open spec fn ascii_upper_char(c: char) -> char {
    if 97 <= (c as u32) <= 122 {
        ((c as u32) - 32) as char
    } else {
        c
    }
}

/// The ASCII lowercase of a text, character by character.
pub open spec fn ascii_lower(s: Seq<char>) -> Seq<char> {
    s.map_values(|c: char| ascii_lower_char(c))
}

/// The ASCII uppercase of a text, character by character.
pub open spec fn ascii_upper(s: Seq<char>) -> Seq<char> {
    s.map_values(|c: char| ascii_upper_char(c))
}

/// What `str::to_lowercase` returns for a text that is not all ASCII: its mapping by
/// the Unicode lowercase tables of std.
pub uninterp spec fn unicode_lowercase(s: Seq<char>) -> Seq<char>;

/// What `str::to_lowercase` returns: for ASCII text, each of `A`-`Z` mapped to `a`-`z`
/// (the Unicode lowercase of an ASCII letter); for other text, `unicode_lowercase`.
pub open spec fn lowercase_of(s: Seq<char>) -> Seq<char> {
    if is_ascii_text(s) {
        ascii_lower(s)
    } else {
        unicode_lowercase(s)
    }
}

/// Whether a character has the Unicode `White_Space` property, the white space that
/// `str::trim` removes: U+0009 to U+000D, U+0020, U+0085, U+00A0, U+1680, U+2000 to
/// U+200A, U+2028, U+2029, U+202F, U+205F and U+3000.
pub open spec fn is_white_space(c: char) -> bool {
    let n = c as u32;
    ||| 9 <= n <= 13
    ||| n == 32
    ||| n == 0x85
    ||| n == 0xa0
    ||| n == 0x1680
    ||| 0x2000 <= n <= 0x200a
    ||| n == 0x2028
    ||| n == 0x2029
    ||| n == 0x202f
    ||| n == 0x205f
    ||| n == 0x3000
}

/// A text without its leading white space.
pub open spec fn trim_start_ws(s: Seq<char>) -> Seq<char>
    decreases s.len(),
{
    if s.len() > 0 && is_white_space(s[0]) {
        trim_start_ws(s.drop_first())
    } else {
        s
    }
}

/// A text without its trailing white space.
pub open spec fn trim_end_ws(s: Seq<char>) -> Seq<char>
    decreases s.len(),
{
    if s.len() > 0 && is_white_space(s.last()) {
        trim_end_ws(s.drop_last())
    } else {
        s
    }
}

/// What `str::trim` returns: the text without leading and trailing white space.
pub open spec fn trimmed_of(s: Seq<char>) -> Seq<char> {
    trim_end_ws(trim_start_ws(s))
}

/// Calls `str::to_lowercase`. Its documentation defines the result by the Unicode
/// lowercase mapping, under which the ASCII letters `A`-`Z` map to `a`-`z` and other
/// ASCII characters to themselves; for text that is not all ASCII the result is a
/// function of the characters alone, which the contract names.
#[verifier::external_body]
pub(crate) fn str_to_lowercase(s: &str) -> (r: String)
    ensures
        r@ == lowercase_of(s@),
        !is_ascii_text(s@) ==> r@ == unicode_lowercase(s@),
{
    s.to_lowercase()
}

/// Whether a character has the Unicode `White_Space` property.
pub fn is_white_space_char(c: char) -> (r: bool)
    ensures
        r == is_white_space(c),
{
    let n = c as u32;
    (9 <= n && n <= 13) || n == 32 || n == 0x85 || n == 0xa0 || n == 0x1680 || (0x2000 <= n && n
        <= 0x200a) || n == 0x2028 || n == 0x2029 || n == 0x202f || n == 0x205f || n == 0x3000
}

/// The text without leading and trailing white space, as `str::trim` gives it.
pub fn str_trim(s: &str) -> (r: String)
    ensures
        r@ == trimmed_of(s@),
{
    let cs = str_chars(s);
    let n = cs.len();
    let mut lo: usize = 0;
    assert(cs@.subrange(0, n as int) =~= s@);
    while lo < n && is_white_space_char(cs[lo])
        invariant
            cs@ == s@,
            n == cs.len(),
            lo <= n,
            trim_start_ws(cs@.subrange(lo as int, n as int)) == trim_start_ws(s@),
        decreases n - lo,
    {
        assert(cs@.subrange(lo as int, n as int).drop_first() =~= cs@.subrange(lo + 1, n as int));
        lo = lo + 1;
    }
    let ghost u = cs@.subrange(lo as int, n as int);
    assert(trim_start_ws(u) == u);
    let mut hi: usize = n;
    while hi > lo && is_white_space_char(cs[hi - 1])
        invariant
            cs@ == s@,
            n == cs.len(),
            lo <= hi <= n,
            u == cs@.subrange(lo as int, n as int),
            trim_end_ws(cs@.subrange(lo as int, hi as int)) == trim_end_ws(u),
        decreases hi - lo,
    {
        assert(cs@.subrange(lo as int, hi as int).drop_last() =~= cs@.subrange(
            lo as int,
            hi - 1,
        ));
        hi = hi - 1;
    }
    let mut out: Vec<char> = Vec::new();
    let mut i: usize = lo;
    while i < hi
        invariant
            cs@ == s@,
            lo <= i <= hi <= n,
            n == cs.len(),
            out@ == cs@.subrange(lo as int, i as int),
        decreases hi - i,
    {
        out.push(cs[i]);
        i = i + 1;
        assert(out@ =~= cs@.subrange(lo as int, i as int));
    }
    assert(trim_end_ws(out@) == out@);
    string_from_chars(&out)
}

/// The ASCII character of a decimal digit.
pub open spec fn digit_char(d: nat) -> char {
    if d == 0 {
        '0'
    } else if d == 1 {
        '1'
    } else if d == 2 {
        '2'
    } else if d == 3 {
        '3'
    } else if d == 4 {
        '4'
    } else if d == 5 {
        '5'
    } else if d == 6 {
        '6'
    } else if d == 7 {
        '7'
    } else if d == 8 {
        '8'
    } else {
        '9'
    }
}

/// The decimal representation of a natural number, without sign or leading zeros
/// (what `format!("{}", n)` prints for an unsigned integer).
pub open spec fn decimal(n: nat) -> Seq<char>
    decreases n,
{
    if n < 10 {
        seq![digit_char(n)]
    } else {
        decimal(n / 10).push(digit_char(n % 10))
    }
}

fn digit_to_char(d: u64) -> (c: char)
    requires
        d < 10,
    ensures
        c == digit_char(d as nat),
{
    if d == 0 {
        '0'
    } else if d == 1 {
        '1'
    } else if d == 2 {
        '2'
    } else if d == 3 {
        '3'
    } else if d == 4 {
        '4'
    } else if d == 5 {
        '5'
    } else if d == 6 {
        '6'
    } else if d == 7 {
        '7'
    } else if d == 8 {
        '8'
    } else {
        '9'
    }
}

/// Appends the decimal representation of `n` to `out`.
pub fn push_decimal(out: &mut Vec<char>, n: u64)
    ensures
        final(out)@ == old(out)@ + decimal(n as nat),
    decreases n,
{
    if n < 10 {
        out.push(digit_to_char(n));
        assert(decimal(n as nat) == seq![digit_char(n as nat)]);
    } else {
        push_decimal(out, n / 10);
        out.push(digit_to_char(n % 10));
    }
}

/// The decimal representation of `n` as a string.
pub fn decimal_string(n: u64) -> (r: String)
    ensures
        r@ == decimal(n as nat),
{
    let mut v: Vec<char> = Vec::new();
    push_decimal(&mut v, n);
    assert(v@ =~= decimal(n as nat));
    string_from_chars(&v)
}

/// Appends the characters of `s` to `out`.
pub fn push_str(out: &mut Vec<char>, s: &str)
    ensures
        final(out)@ == old(out)@ + s@,
{
    let cs = str_chars(s);
    let mut i: usize = 0;
    let ghost start = out@;
    while i < cs.len()
        invariant
            cs@ == s@,
            i <= cs.len(),
            out@ == start + cs@.take(i as int),
        decreases cs.len() - i,
    {
        out.push(cs[i]);
        i = i + 1;
        assert(cs@.take(i as int) =~= cs@.take(i - 1).push(cs@[i - 1]));
    }
    assert(cs@.take(cs.len() as int) =~= cs@);
}

} // verus!

verus! {

/// The characters of an optional string.
pub open spec fn opt_view(s: Option<String>) -> Option<Seq<char>> {
    match s {
        Some(x) => Some(x@),
        None => None,
    }
}

/// A copy of an optional string.
pub fn copy_opt(s: &Option<String>) -> (r: Option<String>)
    ensures
        opt_view(r) == opt_view(*s),
{
    match s {
        Some(x) => Some(String::from_str(x.as_str())),
        None => None,
    }
}

} // verus!

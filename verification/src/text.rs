//! Text building blocks: equality, decimal and hexadecimal rendering, joining and byte order.

use vstd::prelude::*;
use vstd::string::*;
use vstd::utf8::*;

verus! {

/// Copies a string slice into an owned string.
pub fn text(s: &str) -> (r: String)
    ensures
        r@ == s@,
{
    s.to_owned()
}

/// Copies an owned string.
pub fn copy(s: &String) -> (r: String)
    ensures
        r == *s,
{
    s.clone()
}

/// Copies an optional string.
pub fn copy_opt(s: &Option<String>) -> (r: Option<String>)
    ensures
        r == *s,
{
    match s {
        Some(v) => Some(v.clone()),
        None => None,
    }
}

/// Copies a list of strings.
pub fn copy_all(v: &Vec<String>) -> (r: Vec<String>)
    ensures
        r@ == v@,
{
    let mut out: Vec<String> = Vec::new();
    let mut i: usize = 0;
    while i < v.len()
        invariant
            i <= v.len(),
            out@ == v@.take(i as int),
        decreases v.len() - i,
    {
        out.push(v[i].clone());
        i = i + 1;
        assert(v@.take(i as int) =~= v@.take(i - 1).push(v@[i - 1]));
    }
    assert(v@.take(i as int) =~= v@);
    out
}

/// Whether two strings hold the same characters.
pub fn same(a: &str, b: &str) -> (r: bool)
    ensures
        r == (a@ == b@),
{
    a.to_owned() == b.to_owned()
}

/// Whether an optional string is present and holds the given characters.
pub fn opt_is(a: &Option<String>, b: &str) -> (r: bool)
    ensures
        r == (a is Some && a->0@ == b@),
{
    match a {
        Some(v) => same(v.as_str(), b),
        None => false,
    }
}

/// Two strings glued together.
pub fn join2(a: &str, b: &str) -> (r: String)
    ensures
        r@ == a@ + b@,
{
    let mut out = a.to_owned();
    out.append(b);
    out
}

/// Three strings glued together.
pub fn join3(a: &str, b: &str, c: &str) -> (r: String)
    ensures
        r@ == a@ + b@ + c@,
{
    let mut out = a.to_owned();
    out.append(b);
    out.append(c);
    out
}

/// Four texts, one after the other.
pub fn join4(a: &str, b: &str, c: &str, d: &str) -> (r: String)
    ensures
        r@ == a@ + b@ + c@ + d@,
{
    let mut out = text(a);
    out.append(b);
    out.append(c);
    out.append(d);
    out
}

/// Five strings glued together.
pub fn join5(a: &str, b: &str, c: &str, d: &str, e: &str) -> (r: String)
    ensures
        r@ == a@ + b@ + c@ + d@ + e@,
{
    let mut out = a.to_owned();
    out.append(b);
    out.append(c);
    out.append(d);
    out.append(e);
    out
}

/// The characters of a list of strings, as a sequence of sequences.
pub open spec fn views(v: Seq<String>) -> Seq<Seq<char>> {
    v.map_values(|s: String| s@)
}

/// What `join` yields: the items in order, with a separator between neighbours.
pub open spec fn joined(items: Seq<Seq<char>>, sep: Seq<char>) -> Seq<char>
    decreases items.len(),
{
    if items.len() == 0 {
        seq![]
    } else if items.len() == 1 {
        items[0]
    } else {
        joined(items.drop_last(), sep) + sep + items.last()
    }
}

/// The items of a list, in order, with a separator between neighbours.
pub fn join(items: &Vec<String>, sep: &str) -> (r: String)
    ensures
        r@ == joined(views(items@), sep@),
{
    if items.len() == 0 {
        return String::new();
    }
    let mut out = items[0].clone();
    let mut i: usize = 1;
    assert(views(items@).take(1) =~= seq![items@[0]@]);
    while i < items.len()
        invariant
            1 <= i <= items.len(),
            out@ == joined(views(items@).take(i as int), sep@),
        decreases items.len() - i,
    {
        out.append(sep);
        out.append(items[i].as_str());
        i = i + 1;
        assert(views(items@).take(i as int).drop_last() =~= views(items@).take(i - 1));
        assert(views(items@).take(i as int).last() == items@[i - 1]@);
    }
    assert(views(items@).take(i as int) =~= views(items@));
    out
}

// ---------------------------------------------------------------------------------------------
// Decimal
// ---------------------------------------------------------------------------------------------

/// The character of a decimal or hexadecimal (lower case) digit.
pub open spec fn digit_char(d: nat) -> char {
    if d < 10 {
        (48 + d) as char
    } else {
        (87 + d) as char
    }
}

/// The decimal digits of a number, most significant first, without leading zeros.
pub open spec fn decimal(n: nat) -> Seq<char>
    decreases n,
{
    if n < 10 {
        seq![digit_char(n)]
    } else {
        decimal(n / 10).push(digit_char(n % 10))
    }
}

fn digit(d: u64) -> (r: &'static str)
    requires
        d < 16,
    ensures
        r@ == seq![digit_char(d as nat)],
{
    proof {
        reveal_strlit("0");
        reveal_strlit("1");
        reveal_strlit("2");
        reveal_strlit("3");
        reveal_strlit("4");
        reveal_strlit("5");
        reveal_strlit("6");
        reveal_strlit("7");
        reveal_strlit("8");
        reveal_strlit("9");
        reveal_strlit("a");
        reveal_strlit("b");
        reveal_strlit("c");
        reveal_strlit("d");
        reveal_strlit("e");
        reveal_strlit("f");
    }
    let r: &'static str = if d == 0 {
        "0"
    } else if d == 1 {
        "1"
    } else if d == 2 {
        "2"
    } else if d == 3 {
        "3"
    } else if d == 4 {
        "4"
    } else if d == 5 {
        "5"
    } else if d == 6 {
        "6"
    } else if d == 7 {
        "7"
    } else if d == 8 {
        "8"
    } else if d == 9 {
        "9"
    } else if d == 10 {
        "a"
    } else if d == 11 {
        "b"
    } else if d == 12 {
        "c"
    } else if d == 13 {
        "d"
    } else if d == 14 {
        "e"
    } else {
        "f"
    };
    assert(r@ =~= seq![digit_char(d as nat)]);
    r
}

/// Renders a number in decimal.
pub fn number(n: u64) -> (r: String)
    ensures
        r@ == decimal(n as nat),
    decreases n,
{
    if n < 10 {
        text(digit(n))
    } else {
        let mut out = number(n / 10);
        out.append(digit(n % 10));
        assert(decimal(n as nat) =~= decimal((n / 10) as nat) + seq![digit_char((n % 10) as nat)]);
        out
    }
}

// ---------------------------------------------------------------------------------------------
// Hexadecimal
// ---------------------------------------------------------------------------------------------

/// The lower case hexadecimal rendering of bytes, two digits a byte.
pub open spec fn hex(bytes: Seq<u8>) -> Seq<char> {
    Seq::new(
        2 * bytes.len(),
        |i: int|
            if i % 2 == 0 {
                digit_char((bytes[i / 2] / 16) as nat)
            } else {
                digit_char((bytes[i / 2] % 16) as nat)
            },
    )
}

/// Renders bytes in lower case hexadecimal.
pub fn hex_str(bytes: &[u8]) -> (r: String)
    ensures
        r@ == hex(bytes@),
{
    let mut out = String::new();
    let mut i: usize = 0;
    while i < bytes.len()
        invariant
            i <= bytes.len(),
            out@ == hex(bytes@.take(i as int)),
        decreases bytes.len() - i,
    {
        let b: u8 = bytes[i];
        out.append(digit((b / 16) as u64));
        out.append(digit((b % 16) as u64));
        i = i + 1;
        assert(hex(bytes@.take(i as int)) =~= hex(bytes@.take(i - 1)) + seq![
            digit_char((b / 16) as nat),
        ] + seq![digit_char((b % 16) as nat)]);
    }
    assert(bytes@.take(i as int) =~= bytes@);
    out
}

/// Whether a character is an ASCII hexadecimal digit, in either case.
pub open spec fn is_hex_char(c: char) -> bool {
    '0' <= c <= '9' || 'A' <= c <= 'F' || 'a' <= c <= 'f'
}

/// Whether a string is exactly `byte_len` bytes written as hexadecimal digits.
pub open spec fn fixed_hex(s: Seq<char>, byte_len: nat) -> bool {
    &&& s.len() == 2 * byte_len
    &&& forall|i: int| 0 <= i < s.len() ==> is_hex_char(#[trigger] s[i])
}

/// Whether a string is exactly `byte_len` bytes written as hexadecimal digits.
pub fn is_fixed_hex(s: &str, byte_len: usize) -> (r: bool)
    requires
        2 * byte_len <= usize::MAX,
    ensures
        r == fixed_hex(s@, byte_len as nat),
{
    if !s.is_ascii() {
        assert(exists|i: int| 0 <= i < s@.len() && !('\0' <= #[trigger] s@[i] <= '\u{7f}'));
        return false;
    }
    proof {
        is_ascii_chars_encode_utf8(s@);
    }
    let bytes = s.as_bytes();
    if bytes.len() != byte_len * 2 {
        return false;
    }
    let mut i: usize = 0;
    while i < bytes.len()
        invariant
            i <= bytes.len(),
            is_ascii_chars(s@),
            bytes@ == encode_utf8(s@),
            bytes@.len() == s@.len(),
            bytes@.len() == 2 * byte_len,
            forall|j: int| 0 <= j < s@.len() ==> s@[j] as u8 == #[trigger] bytes@[j],
            forall|j: int| 0 <= j < i ==> is_hex_char(#[trigger] s@[j]),
        decreases bytes.len() - i,
    {
        let b: u8 = bytes[i];
        assert('\0' <= s@[i as int] <= '\u{7f}');
        assert(s@[i as int] as u8 == b);
        if !((48 <= b && b <= 57) || (65 <= b && b <= 70) || (97 <= b && b <= 102)) {
            assert(!is_hex_char(s@[i as int]));
            return false;
        }
        i = i + 1;
    }
    true
}

// ---------------------------------------------------------------------------------------------
// Byte order
// ---------------------------------------------------------------------------------------------

/// The lexicographic order of byte strings.
pub open spec fn bytes_lt(a: Seq<u8>, b: Seq<u8>) -> bool
    decreases a.len(),
{
    if b.len() == 0 {
        false
    } else if a.len() == 0 {
        true
    } else if a[0] != b[0] {
        a[0] < b[0]
    } else {
        bytes_lt(a.drop_first(), b.drop_first())
    }
}

/// The order of strings: that of their UTF-8 bytes.
pub open spec fn text_lt(a: Seq<char>, b: Seq<char>) -> bool {
    bytes_lt(encode_utf8(a), encode_utf8(b))
}

pub proof fn lemma_bytes_lt_irreflexive(a: Seq<u8>)
    ensures
        !bytes_lt(a, a),
    decreases a.len(),
{
    if a.len() > 0 {
        lemma_bytes_lt_irreflexive(a.drop_first());
    }
}

pub proof fn lemma_bytes_lt_transitive(a: Seq<u8>, b: Seq<u8>, c: Seq<u8>)
    requires
        bytes_lt(a, b),
        bytes_lt(b, c),
    ensures
        bytes_lt(a, c),
    decreases a.len(),
{
    if a.len() > 0 && b.len() > 0 && c.len() > 0 && a[0] == b[0] && b[0] == c[0] {
        lemma_bytes_lt_transitive(a.drop_first(), b.drop_first(), c.drop_first());
    }
}

pub proof fn lemma_bytes_lt_total(a: Seq<u8>, b: Seq<u8>)
    requires
        a != b,
    ensures
        bytes_lt(a, b) || bytes_lt(b, a),
    decreases a.len(),
{
    if a.len() == 0 || b.len() == 0 {
        if a.len() == 0 && b.len() == 0 {
            assert(a =~= b);
        }
    } else if a[0] == b[0] {
        if a.drop_first() == b.drop_first() {
            assert(a =~= seq![a[0]] + a.drop_first());
            assert(b =~= seq![b[0]] + b.drop_first());
        }
        lemma_bytes_lt_total(a.drop_first(), b.drop_first());
    }
}

/// Strings are strictly and totally ordered.
pub proof fn lemma_text_order(a: Seq<char>, b: Seq<char>, c: Seq<char>)
    ensures
        !text_lt(a, a),
        text_lt(a, b) && text_lt(b, c) ==> text_lt(a, c),
        a != b ==> text_lt(a, b) || text_lt(b, a),
        !(text_lt(a, b) && text_lt(b, a)),
{
    let ea = encode_utf8(a);
    let eb = encode_utf8(b);
    let ec = encode_utf8(c);
    lemma_bytes_lt_irreflexive(ea);
    if text_lt(a, b) && text_lt(b, c) {
        lemma_bytes_lt_transitive(ea, eb, ec);
    }
    if text_lt(a, b) && text_lt(b, a) {
        lemma_bytes_lt_transitive(ea, eb, ea);
    }
    if a != b {
        if ea == eb {
            encode_utf8_decode_utf8(a);
            encode_utf8_decode_utf8(b);
        }
        lemma_bytes_lt_total(ea, eb);
    }
}

/// Whether one byte string comes before another.
pub fn bytes_less(a: &[u8], b: &[u8]) -> (r: bool)
    ensures
        r == bytes_lt(a@, b@),
{
    let mut i: usize = 0;
    assert(a@.skip(0) =~= a@);
    assert(b@.skip(0) =~= b@);
    while i < a.len() && i < b.len()
        invariant
            i <= a.len(),
            i <= b.len(),
            bytes_lt(a@, b@) == bytes_lt(a@.skip(i as int), b@.skip(i as int)),
        decreases a.len() - i,
    {
        if a[i] != b[i] {
            return a[i] < b[i];
        }
        assert(a@.skip(i as int).drop_first() =~= a@.skip(i + 1));
        assert(b@.skip(i as int).drop_first() =~= b@.skip(i + 1));
        i = i + 1;
    }
    i < b.len()
}

/// Whether one string comes before another.
pub fn text_less(a: &str, b: &str) -> (r: bool)
    ensures
        r == text_lt(a@, b@),
{
    bytes_less(a.as_bytes(), b.as_bytes())
}

/// Whether a byte string stands at a place of another.
pub fn bytes_at(bytes: &[u8], from: usize, part: &[u8]) -> (r: bool)
    requires
        from + part@.len() <= bytes@.len(),
    ensures
        r == (bytes@.subrange(from as int, from + part@.len()) == part@),
{
    let len: usize = bytes.len();
    let mut i: usize = 0;
    while i < part.len()
        invariant
            i <= part@.len(),
            from + part@.len() <= bytes@.len(),
            bytes@.len() == len,
            forall|j: int| 0 <= j < i ==> bytes@[from + j] == #[trigger] part@[j],
        decreases part@.len() - i,
    {
        if bytes[from + i] != part[i] {
            assert(bytes@.subrange(from as int, from + part@.len())[i as int] != part@[i as int]);
            return false;
        }
        i = i + 1;
    }
    assert(bytes@.subrange(from as int, from + part@.len()) =~= part@);
    true
}

/// Whether a byte string ends another.
pub open spec fn is_suffix(bytes: Seq<u8>, part: Seq<u8>) -> bool {
    bytes.len() >= part.len() && bytes.skip(bytes.len() - part.len()) == part
}

/// Whether a string ends with another.
pub fn ends_with(s: &str, part: &str) -> (r: bool)
    ensures
        r == is_suffix(encode_utf8(s@), encode_utf8(part@)),
{
    let bytes = s.as_bytes();
    let part = part.as_bytes();
    if bytes.len() < part.len() {
        return false;
    }
    let at: usize = bytes.len() - part.len();
    let r = bytes_at(bytes, at, part);
    assert(bytes@.subrange(at as int, at + part@.len()) =~= bytes@.skip(at as int));
    r
}

/// Cutting the end off a string cuts between characters.
proof fn lemma_suffix(s: Seq<char>, part: Seq<char>)
    requires
        is_suffix(encode_utf8(s), encode_utf8(part)),
    ensures
        ({
            let at = encode_utf8(s).len() - encode_utf8(part).len();
            &&& is_char_boundary(encode_utf8(s), at)
            &&& decode_utf8(encode_utf8(s).subrange(0, at)) + part == s
        }),
{
    let bytes = encode_utf8(s);
    let end = encode_utf8(part);
    let at = bytes.len() - end.len();
    encode_utf8_valid_utf8(s);
    encode_utf8_valid_utf8(part);
    encode_utf8_decode_utf8(s);
    encode_utf8_decode_utf8(part);
    assert(bytes.subrange(at, bytes.len() as int) =~= bytes.skip(at));
    if end.len() == 0 {
        is_char_boundary_start_end_of_seq(bytes);
    } else {
        is_char_boundary_start_end_of_seq(end);
        is_char_boundary_iff_not_is_continuation_byte(end, 0);
        assert(bytes.skip(at)[0] == bytes[at]);
        is_char_boundary_iff_not_is_continuation_byte(bytes, at);
    }
    decode_utf8_split(bytes, at);
}

/// What comes before the end of a string.
pub fn before_suffix(s: &str, part: &str) -> (r: String)
    requires
        is_suffix(encode_utf8(s@), encode_utf8(part@)),
    ensures
        r@ + part@ == s@,
        encode_utf8(r@).len() == encode_utf8(s@).len() - encode_utf8(part@).len(),
{
    let longer: usize = s.as_bytes().len();
    let shorter: usize = part.as_bytes().len();
    proof {
        lemma_suffix(s@, part@);
        encode_utf8_valid_utf8(s@);
    }
    let (start, _) = s.split_at(longer - shorter);
    proof {
        encode_utf8_decode_utf8(start@);
    }
    text(start)
}

/// Whether a byte string holds another.
pub open spec fn holds_bytes(bytes: Seq<u8>, part: Seq<u8>) -> bool {
    exists|i: int|
        0 <= i <= bytes.len() - part.len() && #[trigger] bytes.subrange(i, i + part.len()) == part
}

/// Whether a string holds another.
pub fn holds(s: &str, part: &str) -> (r: bool)
    ensures
        r == holds_bytes(encode_utf8(s@), encode_utf8(part@)),
{
    let bytes = s.as_bytes();
    let part = part.as_bytes();
    if bytes.len() < part.len() {
        return false;
    }
    let last: usize = bytes.len() - part.len();
    let mut i: usize = 0;
    let mut found = bytes_at(bytes, 0, part);
    while i < last && !found
        invariant
            bytes@.len() == last + part@.len(),
            i <= last,
            found == (bytes@.subrange(i as int, i + part@.len()) == part@),
            forall|j: int| 0 <= j < i ==> #[trigger] bytes@.subrange(j, j + part@.len()) != part@,
        decreases last - i,
    {
        i += 1;
        found = bytes_at(bytes, i, part);
    }
    proof {
        let whole = bytes@;
        let piece = part@;
        if found {
            assert(whole.subrange(i as int, i + piece.len()) == piece);
        }
        assert(found == holds_bytes(whole, piece));
    }
    found
}

/// The characters with the Unicode property `White_Space`.
pub open spec fn is_white_space(c: char) -> bool {
    ||| '\u{9}' <= c <= '\u{d}'
    ||| c == '\u{20}'
    ||| c == '\u{85}'
    ||| c == '\u{a0}'
    ||| c == '\u{1680}'
    ||| '\u{2000}' <= c <= '\u{200a}'
    ||| c == '\u{2028}'
    ||| c == '\u{2029}'
    ||| c == '\u{202f}'
    ||| c == '\u{205f}'
    ||| c == '\u{3000}'
}

/// A text without the white space at its ends.
pub open spec fn trimmed(s: Seq<char>) -> Seq<char>
    decreases s.len(),
{
    if s.len() == 0 {
        s
    } else if is_white_space(s[0]) {
        trimmed(s.drop_first())
    } else if is_white_space(s.last()) {
        trimmed(s.drop_last())
    } else {
        s
    }
}

/// `str::trim`: removes leading and trailing white space, as Unicode defines it.
#[verifier::external_body]
pub(crate) fn trim(s: &str) -> (r: &str)
    ensures
        r@ == trimmed(s@),
{
    s.trim()
}

// ---------------------------------------------------------------------------------------------
// Numbers
// ---------------------------------------------------------------------------------------------

/// The number that bytes stand for as decimal digits.
pub open spec fn digits_value(digits: Seq<u8>) -> nat
    decreases digits.len(),
{
    if digits.len() == 0 {
        0
    } else {
        10 * digits_value(digits.drop_last()) + (digits.last() - 48) as nat
    }
}

/// The digits of a number: the bytes after a leading plus sign, if there is one.
pub open spec fn unsigned_digits(bytes: Seq<u8>) -> Seq<u8> {
    if bytes.len() > 0 && bytes[0] == 43 {
        bytes.drop_first()
    } else {
        bytes
    }
}

/// The number that a text stands for, if it does: decimal digits, with at most one plus sign before
/// them, of a value that fits 64 bits.
pub open spec fn parsed_u64(s: Seq<char>) -> Option<u64> {
    let digits = unsigned_digits(encode_utf8(s));
    if digits.len() > 0 && (forall|i: int|
        0 <= i < digits.len() ==> 48 <= #[trigger] digits[i] <= 57) && digits_value(digits)
        <= u64::MAX {
        Some(digits_value(digits) as u64)
    } else {
        None
    }
}

proof fn lemma_digits_grow(digits: Seq<u8>, i: int)
    requires
        0 <= i <= digits.len(),
        forall|k: int| 0 <= k < digits.len() ==> 48 <= #[trigger] digits[k] <= 57,
    ensures
        digits_value(digits.take(i)) <= digits_value(digits),
    decreases digits.len() - i,
{
    if i < digits.len() {
        lemma_digits_grow(digits, i + 1);
        assert(digits.take(i + 1).drop_last() =~= digits.take(i));
    } else {
        assert(digits.take(i) =~= digits);
    }
}

/// Reads a number.
pub fn parse_u64(s: &str) -> (r: Option<u64>)
    ensures
        r == parsed_u64(s@),
{
    let bytes = s.as_bytes();
    let start: usize = if bytes.len() > 0 && bytes[0] == 43 {
        1
    } else {
        0
    };
    let ghost digits = unsigned_digits(bytes@);
    assert(digits =~= bytes@.skip(start as int));
    if bytes.len() == start {
        return None;
    }
    let mut i: usize = start;
    while i < bytes.len()
        invariant
            start <= i <= bytes@.len(),
            start <= 1,
            digits == unsigned_digits(encode_utf8(s@)),
            digits == bytes@.skip(start as int),
            forall|k: int| start <= k < i ==> 48 <= #[trigger] bytes@[k] <= 57,
        decreases bytes@.len() - i,
    {
        if bytes[i] < 48 || bytes[i] > 57 {
            assert(digits[i - start] == bytes@[i as int]);
            return None;
        }
        i = i + 1;
    }
    assert forall|k: int| 0 <= k < digits.len() implies 48 <= #[trigger] digits[k] <= 57 by {
        assert(digits[k] == bytes@[k + start]);
    }
    let mut value: u64 = 0;
    let mut j: usize = start;
    assert(digits.take(0) =~= Seq::<u8>::empty());
    while j < bytes.len()
        invariant
            start <= j <= bytes@.len(),
            start <= 1,
            digits == unsigned_digits(encode_utf8(s@)),
            digits == bytes@.skip(start as int),
            forall|k: int| 0 <= k < digits.len() ==> 48 <= #[trigger] digits[k] <= 57,
            value == digits_value(digits.take(j - start)),
        decreases bytes@.len() - j,
    {
        assert(digits[j - start] == bytes@[j as int]);
        let digit: u64 = (bytes[j] - 48) as u64;
        assert(digits.take(j - start + 1).drop_last() =~= digits.take(j - start));
        assert(digits.take(j - start + 1).last() == bytes@[j as int]);
        proof {
            lemma_digits_grow(digits, j - start + 1);
        }
        if value > (u64::MAX - digit) / 10 {
            assert(10 * value + digit > u64::MAX);
            return None;
        }
        value = 10 * value + digit;
        j = j + 1;
    }
    assert(digits.take(j - start) =~= digits);
    Some(value)
}

/// A number that was written is read back: its decimal digits stand for it, start with no zero but that
/// of zero itself, and belong to no other number.
pub proof fn law_written_numbers_are_read_back(n: u64, other: u64)
    ensures
        parsed_u64(decimal(n as nat)) == Some(n),
        n > 0 ==> decimal(n as nat)[0] != '0',
        decimal(n as nat) == decimal(other as nat) ==> n == other,
{
    lemma_decimal_digits(n as nat);
    lemma_decimal_digits(other as nat);
    lemma_parsed(n);
    lemma_parsed(other);
}

proof fn lemma_decimal_digits(n: nat)
    ensures
        decimal(n).len() > 0,
        forall|i: int| 0 <= i < decimal(n).len() ==> '0' <= #[trigger] decimal(n)[i] <= '9',
        n > 0 ==> decimal(n)[0] != '0',
    decreases n,
{
    if n >= 10 {
        lemma_decimal_digits(n / 10);
        let before = decimal(n / 10);
        assert forall|i: int| 0 <= i < decimal(n).len() implies '0' <= #[trigger] decimal(n)[i]
            <= '9' by {
            if i < before.len() {
                assert(decimal(n)[i] == before[i]);
            }
        }
        assert(decimal(n)[0] == before[0]);
    }
}

/// Bytes that are the digits of a number stand for it.
proof fn lemma_digits_of(n: nat, bytes: Seq<u8>)
    requires
        bytes.len() == decimal(n).len(),
        forall|i: int| 0 <= i < bytes.len() ==> #[trigger] bytes[i] == decimal(n)[i] as u8,
    ensures
        digits_value(bytes) == n,
    decreases n,
{
    lemma_decimal_digits(n);
    if n < 10 {
        assert(bytes.drop_last().len() == 0);
        assert(digits_value(bytes.drop_last()) == 0);
        assert(bytes.last() == digit_char(n) as u8);
        assert(digit_char(n) as u8 == 48 + n);
    } else {
        let rest = bytes.drop_last();
        let before = decimal(n / 10);
        assert(decimal(n) == before.push(digit_char(n % 10)));
        assert forall|i: int| 0 <= i < rest.len() implies #[trigger] rest[i] == before[i] as u8 by {
            assert(rest[i] == bytes[i]);
            assert(decimal(n)[i] == before[i]);
        }
        lemma_digits_of(n / 10, rest);
        assert(bytes.last() == digit_char(n % 10) as u8);
        assert(digit_char(n % 10) as u8 == 48 + n % 10);
    }
}

proof fn lemma_parsed(n: u64)
    ensures
        parsed_u64(decimal(n as nat)) == Some(n),
{
    let s = decimal(n as nat);
    lemma_decimal_digits(n as nat);
    assert(is_ascii_chars(s)) by {
        assert forall|i| 0 <= i < s.len() implies '\0' <= #[trigger] s[i] <= '\u{7f}' by {
            assert('0' <= s[i] <= '9');
        }
    }
    is_ascii_chars_encode_utf8(s);
    let bytes = encode_utf8(s);
    assert forall|i: int| 0 <= i < bytes.len() implies #[trigger] bytes[i] == s[i] as u8 && 48
        <= bytes[i] <= 57 by {
        assert(s[i] as u8 == bytes[i]);
        assert('0' <= s[i] <= '9');
    }
    assert(unsigned_digits(bytes) == bytes);
    lemma_digits_of(n as nat, bytes);
}

/// Bytes and their hexadecimal rendering belong together: it has two digits a byte, and no other bytes
/// have it.
pub proof fn law_hexadecimal_tells_bytes_apart(a: Seq<u8>, b: Seq<u8>)
    ensures
        fixed_hex(hex(a), a.len()),
        hex(a) == hex(b) ==> a == b,
        hex(a + b) == hex(a) + hex(b),
{
    assert forall|i: int| 0 <= i < hex(a).len() implies is_hex_char(#[trigger] hex(a)[i]) by {
        assert(0 <= a[i / 2] / 16 < 16 && 0 <= a[i / 2] % 16 < 16);
    }
    if hex(a) == hex(b) {
        assert(hex(a).len() == 2 * a.len() && hex(b).len() == 2 * b.len());
        assert forall|k: int| 0 <= k < a.len() implies #[trigger] a[k] == b[k] by {
            assert(hex(a)[2 * k] == hex(b)[2 * k]);
            assert(hex(a)[2 * k + 1] == hex(b)[2 * k + 1]);
            assert((2 * k) / 2 == k && (2 * k) % 2 == 0);
            assert((2 * k + 1) / 2 == k && (2 * k + 1) % 2 == 1);
            assert(digit_char((a[k] / 16) as nat) == digit_char((b[k] / 16) as nat));
            assert(digit_char((a[k] % 16) as nat) == digit_char((b[k] % 16) as nat));
            assert(a[k] / 16 == b[k] / 16 && a[k] % 16 == b[k] % 16);
        }
    }
    assert(hex(a + b) =~= hex(a) + hex(b)) by {
        assert forall|i: int| 0 <= i < 2 * (a.len() + b.len()) implies #[trigger] hex(a + b)[i] == (
        hex(a) + hex(b))[i] by {
            if i >= 2 * a.len() {
                let j = i - 2 * a.len();
                assert(j / 2 == i / 2 - a.len());
                assert(j % 2 == i % 2);
                assert((a + b)[i / 2] == b[j / 2]);
            } else {
                assert((a + b)[i / 2] == a[i / 2]);
            }
        }
    }
}

/// Joining goes part by part: what two lists come to, with the separator between them, is what the list
/// of both comes to; one item comes to itself.
pub proof fn law_joining_goes_part_by_part(
    first: Seq<Seq<char>>,
    second: Seq<Seq<char>>,
    sep: Seq<char>,
)
    requires
        first.len() > 0,
        second.len() > 0,
    ensures
        joined(first + second, sep) == joined(first, sep) + sep + joined(second, sep),
        first.len() == 1 ==> joined(first, sep) == first[0],
    decreases second.len(),
{
    let all = first + second;
    assert(all.last() == second.last());
    if second.len() == 1 {
        assert(all.drop_last() == first);
    } else {
        assert(all.drop_last() == first + second.drop_last());
        law_joining_goes_part_by_part(first, second.drop_last(), sep);
        assert(joined(first, sep) + sep + joined(second.drop_last(), sep) + sep + second.last()
            == joined(first, sep) + sep + (joined(second.drop_last(), sep) + sep + second.last()));
    }
}

/// One byte string comes before another exactly where it is a shorter start of it, or holds the smaller
/// byte at the first place where they differ.
pub proof fn law_bytes_are_ordered_by_their_first_difference(a: Seq<u8>, b: Seq<u8>, k: int)
    requires
        0 <= k <= a.len(),
        k <= b.len(),
        a.take(k) == b.take(k),
    ensures
        k < a.len() && k < b.len() && a[k] < b[k] ==> bytes_lt(a, b) && !bytes_lt(b, a),
        k == a.len() && k < b.len() ==> bytes_lt(a, b) && !bytes_lt(b, a),
        k == a.len() && k == b.len() ==> !bytes_lt(a, b) && !bytes_lt(b, a),
    decreases k,
{
    if k > 0 {
        assert(a[0] == a.take(k)[0] && b[0] == b.take(k)[0]);
        assert(a.drop_first().take(k - 1) == a.take(k).drop_first());
        assert(b.drop_first().take(k - 1) == b.take(k).drop_first());
        law_bytes_are_ordered_by_their_first_difference(a.drop_first(), b.drop_first(), k - 1);
        if k < a.len() {
            assert(a[k] == a.drop_first()[k - 1]);
        }
        if k < b.len() {
            assert(b[k] == b.drop_first()[k - 1]);
        }
    }
}

} // verus!

//! Text: numbers in decimal and hexadecimal, trimming, case, and the pieces of
//! `std` that text handling rests on.
use vstd::prelude::*;
use vstd::string::{StrSliceExecFns, StringExecFns};

verus! {

/// `String::push` adds one character at the end.
pub assume_specification[ String::push ](s: &mut String, c: char)
    ensures
        final(s)@ == old(s)@.push(c),
;

/// The character of the digit `d`, for bases up to sixteen.
pub open spec fn digit_char(d: int) -> char {
    if d < 10 {
        (48 + d) as char
    } else {
        (87 + d) as char
    }
}

/// `n` written in decimal.
pub open spec fn decimal(n: nat) -> Seq<char>
    decreases n,
{
    if n < 10 {
        seq![digit_char(n as int)]
    } else {
        decimal(n / 10).push(digit_char((n % 10) as int))
    }
}

/// `n` written in decimal with a sign where it is negative.
pub open spec fn signed_decimal(n: int) -> Seq<char> {
    if n < 0 {
        seq!['-'] + decimal((-n) as nat)
    } else {
        decimal(n as nat)
    }
}

/// `n` written in lower-case hexadecimal.
pub open spec fn hexadecimal(n: nat) -> Seq<char>
    decreases n,
{
    if n < 16 {
        seq![digit_char(n as int)]
    } else {
        hexadecimal(n / 16).push(digit_char((n % 16) as int))
    }
}

/// A number is known from its hexadecimal digits.
pub proof fn lemma_hexadecimal_is_unique(a: nat, b: nat)
    requires
        hexadecimal(a) == hexadecimal(b),
    ensures
        a == b,
    decreases a,
{
    assert(hexadecimal(a).last() == digit_char((a % 16) as int));
    assert(hexadecimal(b).last() == digit_char((b % 16) as int));
    assert(a % 16 == b % 16);
    if a < 16 {
        assert(hexadecimal(a).len() == 1);
        if b >= 16 {
            assert(hexadecimal(b / 16).len() >= 1) by {
                reveal_with_fuel(hexadecimal, 2);
            }
        }
    } else if b < 16 {
        assert(hexadecimal(b).len() == 1);
        assert(hexadecimal(a / 16).len() >= 1) by {
            reveal_with_fuel(hexadecimal, 2);
        }
    } else {
        assert(hexadecimal(a).drop_last() =~= hexadecimal(a / 16));
        assert(hexadecimal(b).drop_last() =~= hexadecimal(b / 16));
        lemma_hexadecimal_is_unique(a / 16, b / 16);
    }
}

fn digit_of(d: u64) -> (c: char)
    requires
        d < 16,
    ensures
        c == digit_char(d as int),
{
    if d < 10 {
        (48u8 + d as u8) as char
    } else {
        (87u8 + d as u8) as char
    }
}

/// `n` in decimal.
pub fn decimal_text(n: u64) -> (s: String)
    ensures
        s@ == decimal(n as nat),
    decreases n,
{
    if n < 10 {
        let mut s = String::new();
        s.push(digit_of(n));
        assert(s@ =~= decimal(n as nat));
        s
    } else {
        let mut s = decimal_text(n / 10);
        s.push(digit_of(n % 10));
        s
    }
}

/// `n` in decimal, with a sign where it is negative.
pub fn signed_text(n: i64) -> (s: String)
    ensures
        s@ == signed_decimal(n as int),
{
    if n < 0 {
        let mut s = String::new();
        s.push('-');
        let magnitude: u64 = if n == i64::MIN {
            9_223_372_036_854_775_808
        } else {
            (-n) as u64
        };
        let digits = decimal_text(magnitude);
        s.append(digits.as_str());
        assert(s@ =~= signed_decimal(n as int));
        s
    } else {
        decimal_text(n as u64)
    }
}

/// `n` in lower-case hexadecimal.
pub fn hexadecimal_text(n: u64) -> (s: String)
    ensures
        s@ == hexadecimal(n as nat),
    decreases n,
{
    if n < 16 {
        let mut s = String::new();
        s.push(digit_of(n));
        assert(s@ =~= hexadecimal(n as nat));
        s
    } else {
        let mut s = hexadecimal_text(n / 16);
        s.push(digit_of(n % 16));
        s
    }
}

/// `a` followed by `b`.
pub fn joined(a: &str, b: &str) -> (s: String)
    ensures
        s@ == a@ + b@,
{
    let mut s = a.to_owned();
    s.append(b);
    s
}

/// The views of `parts`.
pub open spec fn texts(parts: Seq<String>) -> Seq<Seq<char>> {
    Seq::new(parts.len(), |i: int| parts[i]@)
}

/// The texts of `parts` with `between` between them.
pub open spec fn listed(parts: Seq<Seq<char>>, between: Seq<char>) -> Seq<char>
    decreases parts.len(),
{
    if parts.len() == 0 {
        Seq::empty()
    } else if parts.len() == 1 {
        parts[0]
    } else {
        listed(parts.drop_last(), between) + between + parts.last()
    }
}

/// The texts of `parts` with `between` between them.
pub fn list_text(parts: &Vec<String>, between: &str) -> (r: String)
    ensures
        r@ == listed(texts(parts@), between@),
{
    let mut r = String::new();
    let mut i: usize = 0;
    let ghost all = texts(parts@);
    while i < parts.len()
        invariant
            i <= parts@.len(),
            all == texts(parts@),
            r@ == listed(all.take(i as int), between@),
        decreases parts@.len() - i,
    {
        if i > 0 {
            r.append(between);
        }
        r.append(parts[i].as_str());
        proof {
            let t = all.take(i + 1);
            assert(t.drop_last() =~= all.take(i as int));
            if i == 0 {
                assert(r@ =~= all[0]);
            }
        }
        i = i + 1;
    }
    assert(all.take(i as int) =~= all);
    r
}

/// Two lower-case hexadecimal digits.
pub open spec fn hex_pair(b: u8) -> Seq<char> {
    seq![digit_char((b / 16) as int), digit_char((b % 16) as int)]
}

/// Adds `b` as two lower-case hexadecimal digits.
pub fn push_hex_pair(s: &mut String, b: u8)
    ensures
        final(s)@ == old(s)@ + hex_pair(b),
{
    s.push(digit_of((b / 16) as u64));
    s.push(digit_of((b % 16) as u64));
    assert(s@ =~= old(s)@ + hex_pair(b));
}

/// Bytes as pairs of hexadecimal digits.
pub open spec fn hex_of(bytes: Seq<u8>) -> Seq<char>
    decreases bytes.len(),
{
    if bytes.len() == 0 {
        Seq::empty()
    } else {
        hex_of(bytes.drop_last()) + hex_pair(bytes.last())
    }
}

/// What the `Debug` form of a text is.
pub uninterp spec fn quoted_text(s: Seq<char>) -> Seq<char>;

/// The `Debug` form of a `str`: the text in quotation marks with escapes. Which
/// characters are escaped is left to the name.
#[verifier::external_body]
pub(crate) fn quoted(s: &str) -> (r: String)
    ensures
        r@ == quoted_text(s@),
{
    format!("{s:?}")
}

/// What the `Debug` form of a character is.
pub uninterp spec fn quoted_char_text(c: char) -> Seq<char>;

/// The `Debug` form of a `char`: the character in single quotes with escapes. Which
/// characters are escaped is left to the name.
#[verifier::external_body]
pub(crate) fn quoted_char(c: char) -> (r: String)
    ensures
        r@ == quoted_char_text(c),
{
    format!("{c:?}")
}

/// Length of `s` in bytes.
pub fn byte_len(s: &str) -> (n: usize)
    ensures
        n == vstd::utf8::encode_utf8(s@).len(),
{
    s.as_bytes().len()
}

/// Whether two texts are equal.
pub fn same_text(a: &str, b: &str) -> (r: bool)
    ensures
        r == (a@ == b@),
{
    let x = a.as_bytes();
    let y = b.as_bytes();
    proof {
        vstd::utf8::encode_utf8_decode_utf8(a@);
        vstd::utf8::encode_utf8_decode_utf8(b@);
    }
    if x.len() != y.len() {
        return false;
    }
    let mut i: usize = 0;
    while i < x.len()
        invariant
            i <= x@.len(),
            x@.len() == y@.len(),
            x@ == vstd::utf8::encode_utf8(a@),
            y@ == vstd::utf8::encode_utf8(b@),
            forall|k: int| 0 <= k < i ==> x@[k] == y@[k],
        decreases x@.len() - i,
    {
        if x[i] != y[i] {
            return false;
        }
        i = i + 1;
    }
    assert(x@ =~= y@);
    true
}

/// The characters of `s`.
pub fn chars_of(s: &str) -> (v: Vec<char>)
    ensures
        v@ == s@,
{
    let mut v: Vec<char> = Vec::new();
    for c in it: s.chars()
        invariant
            v@ == it.seq().take(it.index()),
            it.seq() == s@,
    {
        v.push(c);
        assert(v@ =~= it.seq().take(it.index() + 1));
    }
    assert(v@ =~= s@);
    v
}

/// The text of `chars`.
pub fn text_of(chars: &[char]) -> (s: String)
    ensures
        s@ == chars@,
{
    let mut s = String::new();
    let mut i: usize = 0;
    while i < chars.len()
        invariant
            i <= chars@.len(),
            s@ == chars@.take(i as int),
        decreases chars@.len() - i,
    {
        s.push(chars[i]);
        i = i + 1;
        assert(s@ =~= chars@.take(i as int));
    }
    assert(s@ =~= chars@);
    s
}

/// The scalar value of `c`.
pub fn code_of(c: char) -> (n: u32)
    ensures
        n == c as int,
{
    c as u32
}

/// Whether `c` is a control character.
pub open spec fn control(c: char) -> bool {
    c as int <= 0x1f || 0x7f <= c as int <= 0x9f
}

/// Whether some character of `s` is a control character.
pub open spec fn has_control(s: Seq<char>) -> bool {
    exists|i: int| 0 <= i < s.len() && control(#[trigger] s[i])
}

/// Whether `c` is a control character.
pub fn is_control(c: char) -> (r: bool)
    ensures
        r == control(c),
{
    let n: u32 = c as u32;
    n <= 0x1f || (0x7f <= n && n <= 0x9f)
}

/// Whether some character of `s` is a control character.
pub fn contains_control(s: &str) -> (r: bool)
    ensures
        r == has_control(s@),
{
    let v = chars_of(s);
    let mut i: usize = 0;
    while i < v.len()
        invariant
            i <= v@.len(),
            v@ == s@,
            forall|k: int| 0 <= k < i ==> !control(#[trigger] s@[k]),
        decreases v@.len() - i,
    {
        if is_control(v[i]) {
            return true;
        }
        i = i + 1;
    }
    false
}

/// Whether `c` counts as white space when text is trimmed.
pub open spec fn blank(c: char) -> bool {
    let n = c as int;
    ||| 0x09 <= n <= 0x0d
    ||| n == 0x20
    ||| n == 0x85
    ||| n == 0xa0
    ||| n == 0x1680
    ||| 0x2000 <= n <= 0x200a
    ||| n == 0x2028
    ||| n == 0x2029
    ||| n == 0x202f
    ||| n == 0x205f
    ||| n == 0x3000
}

/// Whether `c` counts as white space when text is trimmed.
pub fn is_blank(c: char) -> (r: bool)
    ensures
        r == blank(c),
{
    let n: u32 = c as u32;
    (0x09 <= n && n <= 0x0d) || n == 0x20 || n == 0x85 || n == 0xa0 || n == 0x1680 || (0x2000 <= n
        && n <= 0x200a) || n == 0x2028 || n == 0x2029 || n == 0x202f || n == 0x205f || n == 0x3000
}

/// `s` without the white space at its ends.
pub open spec fn trimmed(s: Seq<char>) -> Seq<char>
    decreases s.len(),
{
    if s.len() == 0 {
        s
    } else if blank(s[0]) {
        trimmed(s.drop_first())
    } else if blank(s.last()) {
        trimmed(s.drop_last())
    } else {
        s
    }
}

/// `s` without the white space at its ends.
pub fn trim(s: &str) -> (r: String)
    ensures
        r@ == trimmed(s@),
{
    let v = chars_of(s);
    let mut from: usize = 0;
    let mut to: usize = v.len();
    assert(v@.subrange(0, to as int) =~= s@);
    while from < to && is_blank(v[from])
        invariant
            from <= to <= v@.len(),
            trimmed(v@.subrange(from as int, to as int)) == trimmed(s@),
            v@ == s@,
        decreases to - from,
    {
        assert(v@.subrange(from as int, to as int).drop_first() =~= v@.subrange(
            from + 1,
            to as int,
        ));
        from = from + 1;
    }
    while from < to && is_blank(v[to - 1])
        invariant
            from <= to <= v@.len(),
            from < to ==> !blank(v@[from as int]),
            trimmed(v@.subrange(from as int, to as int)) == trimmed(s@),
            v@ == s@,
        decreases to - from,
    {
        assert(v@.subrange(from as int, to as int).drop_last() =~= v@.subrange(
            from as int,
            to - 1,
        ));
        to = to - 1;
    }
    s.substring_char(from, to).to_owned()
}

/// `c` in lower case, where it is an ASCII letter.
pub open spec fn ascii_lower(c: char) -> char {
    if 65 <= c as int && c as int <= 90 {
        (c as int + 32) as char
    } else {
        c
    }
}

/// `s` with its ASCII letters in lower case.
pub open spec fn lowered(s: Seq<char>) -> Seq<char> {
    Seq::new(s.len(), |i: int| ascii_lower(s[i]))
}

/// `s` with its ASCII letters in lower case.
pub fn ascii_lowercase(s: &str) -> (r: String)
    ensures
        r@ == lowered(s@),
{
    let v = chars_of(s);
    let mut r = String::new();
    let mut i: usize = 0;
    while i < v.len()
        invariant
            i <= v@.len(),
            v@ == s@,
            r@ == lowered(s@).take(i as int),
        decreases v@.len() - i,
    {
        let n: u32 = v[i] as u32;
        if 65 <= n && n <= 90 {
            r.push((n as u8 + 32) as char);
        } else {
            r.push(v[i]);
        }
        i = i + 1;
        assert(r@ =~= lowered(s@).take(i as int));
    }
    assert(r@ =~= lowered(s@));
    r
}

/// Whether `c` is a decimal digit.
pub open spec fn is_digit(c: char) -> bool {
    48 <= c as int <= 57
}

/// Whether every character of `s` is a decimal digit.
pub open spec fn all_digits(s: Seq<char>) -> bool {
    forall|i: int| 0 <= i < s.len() ==> is_digit(#[trigger] s[i])
}

/// The number that the digits `s` spell.
pub open spec fn digits_value(s: Seq<char>) -> nat
    decreases s.len(),
{
    if s.len() == 0 {
        0
    } else {
        digits_value(s.drop_last()) * 10 + (s.last() as int - 48) as nat
    }
}

/// The number that `s` spells: decimal digits after an optional plus sign, no
/// more than `max`.
pub open spec fn parsed_unsigned(s: Seq<char>, max: nat) -> Option<nat> {
    let body = if s.len() > 0 && s[0] == '+' {
        s.drop_first()
    } else {
        s
    };
    if body.len() > 0 && all_digits(body) && digits_value(body) <= max {
        Some(digits_value(body))
    } else {
        None
    }
}

/// The number that `s` spells: decimal digits after an optional sign, between
/// `min` and `max`.
pub open spec fn parsed_signed(s: Seq<char>, min: int, max: nat) -> Option<int> {
    if s.len() > 0 && s[0] == '-' {
        let body = s.drop_first();
        if body.len() > 0 && all_digits(body) && -digits_value(body) >= min {
            Some(-digits_value(body))
        } else {
            None
        }
    } else {
        match parsed_unsigned(s, max) {
            Some(n) => Some(n as int),
            None => None,
        }
    }
}

/// The number that the digits `v[from..]` spell, if they are digits and the
/// number is at most `max`.
fn parse_digits(v: &Vec<char>, from: usize, max: u64) -> (r: Option<u64>)
    requires
        from <= v@.len(),
    ensures
        ({
            let body = v@.skip(from as int);
            r == if body.len() > 0 && all_digits(body) && digits_value(body) <= max {
                Some(digits_value(body) as u64)
            } else {
                None
            }
        }),
{
    let ghost body = v@.skip(from as int);
    if from == v.len() {
        return None;
    }
    let mut value: u64 = 0;
    let mut i: usize = from;
    let mut over = false;
    while i < v.len()
        invariant
            from <= i <= v@.len(),
            body == v@.skip(from as int),
            forall|k: int| 0 <= k < i - from ==> is_digit(#[trigger] body[k]),
            !over ==> value == digits_value(body.take(i - from)) && value <= max,
            over ==> digits_value(body.take(i - from)) > max,
        decreases v@.len() - i,
    {
        let c: char = v[i];
        let n: u32 = code_of(c);
        assert(body[i - from] == c);
        if n < 48 || n > 57 {
            assert(!is_digit(c));
            return None;
        }
        let d: u64 = (n - 48) as u64;
        proof {
            let t = body.take(i - from + 1);
            assert(t.drop_last() =~= body.take(i - from));
            assert(t.last() == body[i - from]);
            assert(digits_value(t) == digits_value(body.take(i - from)) * 10 + d);
        }
        if !over {
            if value as u128 * 10 + d as u128 > max as u128 {
                over = true;
            } else {
                value = value * 10 + d;
            }
        }
        i = i + 1;
    }
    assert(body.take(body.len() as int) =~= body);
    if over {
        None
    } else {
        Some(value)
    }
}

/// The number that `s` spells, at most `max`.
pub fn parse_unsigned(s: &str, max: u64) -> (r: Option<u64>)
    ensures
        r is Some <==> parsed_unsigned(s@, max as nat) is Some,
        r matches Some(n) ==> parsed_unsigned(s@, max as nat) == Some(n as nat),
{
    let v = chars_of(s);
    if v.len() > 0 && v[0] == '+' {
        assert(v@.skip(1) =~= s@.drop_first());
        parse_digits(&v, 1, max)
    } else {
        assert(v@.skip(0) =~= s@);
        parse_digits(&v, 0, max)
    }
}

/// The number that `s` spells as a signed 64-bit number.
pub fn parse_signed(s: &str) -> (r: Option<i64>)
    ensures
        r is Some <==> parsed_signed(s@, i64::MIN as int, i64::MAX as nat) is Some,
        r matches Some(n) ==> parsed_signed(s@, i64::MIN as int, i64::MAX as nat) == Some(n as int),
{
    let v = chars_of(s);
    if v.len() > 0 && v[0] == '-' {
        assert(v@.skip(1) =~= s@.drop_first());
        match parse_digits(&v, 1, 9_223_372_036_854_775_808) {
            None => None,
            Some(n) => {
                if n == 9_223_372_036_854_775_808 {
                    Some(i64::MIN)
                } else {
                    Some(-(n as i64))
                }
            },
        }
    } else {
        match parse_unsigned(s, i64::MAX as u64) {
            None => None,
            Some(n) => Some(n as i64),
        }
    }
}

/// What `String::from_utf8_lossy` makes of `bytes`.
pub uninterp spec fn lossy_text(bytes: Seq<u8>) -> Seq<char>;

/// `String::from_utf8_lossy`: valid UTF-8 comes back as the text it encodes;
/// which replacement characters stand for other bytes is left to the name.
#[verifier::external_body]
pub(crate) fn lossy(bytes: &[u8]) -> (s: String)
    ensures
        s@ == lossy_text(bytes@),
        vstd::utf8::valid_utf8(bytes@) ==> s@ == vstd::utf8::decode_utf8(bytes@),
{
    String::from_utf8_lossy(bytes).into_owned()
}

/// The text that received bytes are shown as: the one that they encode, where they are
/// valid UTF-8, and else what is left to the name.
pub open spec fn shown(bytes: Seq<u8>) -> Seq<char> {
    if vstd::utf8::valid_utf8(bytes) {
        vstd::utf8::decode_utf8(bytes)
    } else {
        lossy_text(bytes)
    }
}

/// A text that was encoded is shown as it was.
pub proof fn lemma_encoded_is_shown(s: Seq<char>)
    ensures
        shown(vstd::utf8::encode_utf8(s)) == s,
{
    vstd::utf8::encode_utf8_valid_utf8(s);
    vstd::utf8::encode_utf8_decode_utf8(s);
}

/// `String::from_utf8`: the text that `bytes` encode, if they are valid UTF-8.
#[verifier::external_body]
pub(crate) fn utf8_text(bytes: Vec<u8>) -> (s: Option<String>)
    ensures
        s is Some <==> vstd::utf8::valid_utf8(bytes@),
        s matches Some(t) ==> t@ == vstd::utf8::decode_utf8(bytes@),
{
    String::from_utf8(bytes).ok()
}

/// The place of the last `c` in `s`, or -1.
pub open spec fn last_place(s: Seq<char>, c: char) -> int
    decreases s.len(),
{
    if s.len() == 0 {
        -1
    } else if s.last() == c {
        s.len() - 1
    } else {
        last_place(s.drop_last(), c)
    }
}

/// What stands before and after the last `c` of `s`, if there is one.
pub open spec fn split_at_last(s: Seq<char>, c: char) -> Option<(Seq<char>, Seq<char>)> {
    let at = last_place(s, c);
    if at < 0 {
        None
    } else {
        Some((s.take(at), s.skip(at + 1)))
    }
}

/// The last place lies in the sequence, holds the character, and nothing after it
/// does.
pub proof fn lemma_last_place(s: Seq<char>, c: char)
    ensures
        -1 <= last_place(s, c) < s.len(),
        last_place(s, c) >= 0 ==> s[last_place(s, c)] == c,
        forall|i: int| last_place(s, c) < i < s.len() ==> s[i] != c,
    decreases s.len(),
{
    if s.len() > 0 && s.last() != c {
        lemma_last_place(s.drop_last(), c);
        assert forall|i: int| last_place(s, c) < i < s.len() implies s[i] != c by {
            if i < s.len() - 1 {
                assert(s.drop_last()[i] == s[i]);
            }
        }
    }
}

/// Splits `s` at its last `c`.
pub fn rsplit_once(s: &str, c: char) -> (r: Option<(String, String)>)
    ensures
        match r {
            Some((before, after)) => split_at_last(s@, c) == Some((before@, after@)),
            None => split_at_last(s@, c) is None,
        },
{
    let chars = chars_of(s);
    let mut at: usize = chars.len();
    proof {
        assert(chars@.take(at as int) =~= s@);
    }
    while at > 0
        invariant
            at <= chars@.len(),
            chars@ == s@,
            last_place(s@, c) == last_place(chars@.take(at as int), c),
        decreases at,
    {
        let ghost head = chars@.take(at as int);
        if chars[at - 1] == c {
            let before = text_of(vstd::slice::slice_subrange(chars.as_slice(), 0, at - 1));
            let after = text_of(vstd::slice::slice_subrange(chars.as_slice(), at, chars.len()));
            proof {
                assert(head.last() == c);
                assert(before@ =~= s@.take(at - 1));
                assert(after@ =~= s@.skip(at as int));
            }
            return Some((before, after));
        }
        proof {
            assert(head.drop_last() =~= chars@.take(at - 1));
        }
        at = at - 1;
    }
    None
}

/// Whether every character of `s` is a decimal digit; an empty text has none that
/// is not.
pub fn only_digits(s: &str) -> (r: bool)
    ensures
        r == all_digits(s@),
{
    let chars = chars_of(s);
    let mut i: usize = 0;
    while i < chars.len()
        invariant
            i <= chars@.len(),
            chars@ == s@,
            forall|j: int| 0 <= j < i ==> is_digit(chars@[j]),
        decreases chars@.len() - i,
    {
        let c = chars[i];
        if !('0' <= c && c <= '9') {
            assert(!is_digit(s@[i as int]));
            return false;
        }
        i = i + 1;
    }
    true
}

/// Whether `c` occurs in `s`.
pub fn has_char(s: &str, c: char) -> (r: bool)
    ensures
        r == s@.contains(c),
{
    let chars = chars_of(s);
    let mut i: usize = 0;
    while i < chars.len()
        invariant
            i <= chars@.len(),
            chars@ == s@,
            forall|j: int| 0 <= j < i ==> chars@[j] != c,
        decreases chars@.len() - i,
    {
        if chars[i] == c {
            assert(s@[i as int] == c);
            return true;
        }
        i = i + 1;
    }
    false
}

/// Whether `a` comes before `b`: at the first place where they differ, the smaller
/// scalar value comes first, and a text comes before its continuations.
pub open spec fn precedes(a: Seq<char>, b: Seq<char>) -> bool
    decreases a.len(),
{
    if b.len() == 0 {
        false
    } else if a.len() == 0 {
        true
    } else if a[0] != b[0] {
        (a[0] as int) < (b[0] as int)
    } else {
        precedes(a.skip(1), b.skip(1))
    }
}

/// Of two texts exactly one comes first, unless they are the same.
pub proof fn lemma_precedes_total(a: Seq<char>, b: Seq<char>)
    ensures
        precedes(a, b) || precedes(b, a) || a == b,
        !(precedes(a, b) && precedes(b, a)),
        a == b ==> !precedes(a, b),
    decreases a.len(),
{
    if a.len() > 0 && b.len() > 0 {
        lemma_precedes_total(a.skip(1), b.skip(1));
        if a[0] == b[0] && a.skip(1) == b.skip(1) {
            assert(a =~= seq![a[0]] + a.skip(1));
            assert(b =~= seq![b[0]] + b.skip(1));
        }
    } else if a.len() == 0 && b.len() == 0 {
        assert(a =~= b);
    }
}

/// The order is transitive.
pub proof fn lemma_precedes_transitive(a: Seq<char>, b: Seq<char>, c: Seq<char>)
    requires
        precedes(a, b),
        precedes(b, c),
    ensures
        precedes(a, c),
    decreases a.len(),
{
    if a.len() > 0 && a[0] == b[0] && b[0] == c[0] {
        lemma_precedes_transitive(a.skip(1), b.skip(1), c.skip(1));
    }
}

/// Whether `a` comes before `b`.
pub fn comes_before(a: &str, b: &str) -> (r: bool)
    ensures
        r == precedes(a@, b@),
{
    let x = chars_of(a);
    let y = chars_of(b);
    let mut i: usize = 0;
    proof {
        assert(x@.skip(0) =~= a@);
        assert(y@.skip(0) =~= b@);
    }
    while i < x.len() && i < y.len()
        invariant
            i <= x@.len(),
            i <= y@.len(),
            precedes(a@, b@) == precedes(x@.skip(i as int), y@.skip(i as int)),
        decreases x@.len() - i,
    {
        if x[i] != y[i] {
            return code_of(x[i]) < code_of(y[i]);
        }
        proof {
            assert(x@.skip(i as int).skip(1) =~= x@.skip(i + 1));
            assert(y@.skip(i as int).skip(1) =~= y@.skip(i + 1));
        }
        i = i + 1;
    }
    i < y.len()
}

/// Whether texts stand in strictly ascending order.
pub open spec fn ascending(v: Seq<Seq<char>>) -> bool {
    forall|i: int, j: int| 0 <= i < j < v.len() ==> precedes(#[trigger] v[i], #[trigger] v[j])
}

/// Puts `s` where it belongs among ascending texts, unless it is there.
pub fn insert_ascending(v: &mut Vec<String>, s: String)
    requires
        ascending(texts(old(v)@)),
    ensures
        ascending(texts(final(v)@)),
        forall|t: Seq<char>|
            #[trigger] texts(final(v)@).contains(t) <==> (texts(old(v)@).contains(t) || t == s@),
{
    let mut k: usize = 0;
    while k < v.len() && comes_before(v[k].as_str(), s.as_str())
        invariant
            k <= v@.len(),
            v@ == old(v)@,
            forall|i: int| 0 <= i < k ==> precedes(#[trigger] texts(v@)[i], s@),
        decreases v@.len() - k,
    {
        k = k + 1;
    }
    let ghost before = texts(v@);
    if k < v.len() && same_text(v[k].as_str(), s.as_str()) {
        assert(before[k as int] == s@);
        return;
    }
    proof {
        if k < v@.len() {
            lemma_precedes_total(before[k as int], s@);
        }
        assert forall|j: int| k <= j < before.len() implies precedes(s@, #[trigger] before[j]) by {
            if j > k {
                lemma_precedes_transitive(s@, before[k as int], before[j]);
            }
        }
    }
    let ghost t = s@;
    v.insert(k, s);
    proof {
        let after = texts(v@);
        assert(after =~= before.insert(k as int, t));
        assert(after[k as int] == t);
        assert forall|u: Seq<char>| before.contains(u) implies after.contains(u) by {
            let i = before.index_of(u);
            if i < k {
                assert(after[i] == u);
            } else {
                assert(after[i + 1] == u);
            }
        }
        assert forall|u: Seq<char>| after.contains(u) implies (before.contains(u) || u == t) by {
            let i = after.index_of(u);
            if i < k {
                assert(before[i] == u);
            } else if i > k {
                assert(before[i - 1] == u);
            }
        }
        assert forall|i: int, j: int| 0 <= i < j < after.len() implies precedes(
            #[trigger] after[i],
            #[trigger] after[j],
        ) by {
            let a = if i < k {
                before[i]
            } else if i > k {
                before[i - 1]
            } else {
                t
            };
            let b = if j < k {
                before[j]
            } else if j > k {
                before[j - 1]
            } else {
                t
            };
            assert(after[i] == a && after[j] == b);
        }
    }
}

/// The first place from `at` on that is white space, or the end.
pub open spec fn word_end(s: Seq<char>, at: int) -> int
    decreases s.len() - at,
{
    if at < 0 || at >= s.len() || blank(s[at]) {
        at
    } else {
        word_end(s, at + 1)
    }
}

/// The words of `s` from place `at` on: what white space separates.
pub open spec fn words_from(s: Seq<char>, at: int) -> Seq<Seq<char>>
    decreases s.len() - at,
    via words_from_shrinks
{
    if at < 0 || at >= s.len() {
        Seq::empty()
    } else if blank(s[at]) {
        words_from(s, at + 1)
    } else {
        seq![s.subrange(at, word_end(s, at))] + words_from(s, word_end(s, at))
    }
}

#[via_fn]
proof fn words_from_shrinks(s: Seq<char>, at: int) {
    if 0 <= at < s.len() && !blank(s[at]) {
        lemma_word_end(s, at + 1);
    }
}

proof fn lemma_word_end(s: Seq<char>, at: int)
    requires
        0 <= at <= s.len(),
    ensures
        at <= word_end(s, at) <= s.len(),
    decreases s.len() - at,
{
    if at < s.len() && !blank(s[at]) {
        lemma_word_end(s, at + 1);
    }
}

/// The words of `s`: what white space separates.
pub fn split_words(s: &str) -> (r: Vec<String>)
    ensures
        texts(r@) == words_from(s@, 0),
{
    let v = chars_of(s);
    let mut out: Vec<String> = Vec::new();
    let mut at: usize = 0;
    assert(texts(out@) + words_from(s@, 0) =~= words_from(s@, 0));
    while at < v.len()
        invariant
            at <= v@.len(),
            v@ == s@,
            texts(out@) + words_from(s@, at as int) == words_from(s@, 0),
        decreases v@.len() - at,
    {
        if is_blank(v[at]) {
            at = at + 1;
        } else {
            let start: usize = at;
            let ghost before = texts(out@);
            while at < v.len() && !is_blank(v[at])
                invariant
                    start <= at <= v@.len(),
                    v@ == s@,
                    word_end(s@, start as int) == word_end(s@, at as int),
                decreases v@.len() - at,
            {
                at = at + 1;
            }
            assert(word_end(s@, at as int) == at);
            let word = text_of(vstd::slice::slice_subrange(v.as_slice(), start, at));
            assert(word@ =~= s@.subrange(start as int, at as int));
            proof {
                lemma_word_end(s@, start as int);
                assert(at > start);
            }
            out.push(word);
            assert(texts(out@) =~= before.push(word@));
            assert(texts(out@) + words_from(s@, at as int) =~= before + words_from(
                s@,
                start as int,
            ));
        }
    }
    assert(texts(out@) + words_from(s@, at as int) =~= texts(out@));
    out
}

/// `true` or `false`.
pub open spec fn truth(b: bool) -> Seq<char> {
    if b {
        "true"@
    } else {
        "false"@
    }
}

/// `true` or `false`.
pub fn truth_text(b: bool) -> (r: &'static str)
    ensures
        r@ == truth(b),
{
    if b {
        "true"
    } else {
        "false"
    }
}

} // verus!

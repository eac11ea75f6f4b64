//! What holds of numbers and texts: what is written reads back, and how texts are taken
//! apart and put together.
use vstd::prelude::*;
use crate::entries;
use crate::json;
use crate::text;

verus! {

proof fn lemma_digits_of(n: nat)
    ensures
        text::decimal(n).len() > 0,
        text::all_digits(text::decimal(n)),
        text::digits_value(text::decimal(n)) == n,
        n > 0 ==> text::decimal(n)[0] != '0',
    decreases n,
{
    let d = text::decimal(n);
    if n < 10 {
        assert(d =~= seq![text::digit_char(n as int)]);
        assert(d.drop_last() =~= Seq::<char>::empty());
        reveal_with_fuel(text::digits_value, 2);
    } else {
        lemma_digits_of(n / 10);
        let rest = text::decimal(n / 10);
        assert(d.drop_last() =~= rest);
        assert forall|i: int| 0 <= i < d.len() implies text::is_digit(#[trigger] d[i]) by {
            if i < rest.len() {
                assert(d[i] == rest[i]);
            }
        }
        assert(d[0] == rest[0]);
    }
}

/// A number that is written in decimal reads back, with a plus sign in front too, wherever
/// it is not too large; it is written without leading zeros.
pub proof fn lemma_numbers_read_back(n: nat, max: nat)
    ensures
        text::parsed_unsigned(text::decimal(n), max) == (if n <= max {
            Some(n)
        } else {
            None
        }),
        text::parsed_unsigned(seq!['+'] + text::decimal(n), max) == (if n <= max {
            Some(n)
        } else {
            None
        }),
        n > 0 ==> text::decimal(n)[0] != '0',
        text::decimal(0) == seq!['0'],
{
    lemma_digits_of(n);
    let d = text::decimal(n);
    assert(text::is_digit(d[0]));
    assert((seq!['+'] + d).drop_first() =~= d);
}

/// A number with a sign reads back wherever it lies in the range.
pub proof fn lemma_signed_numbers_read_back(n: int, min: int, max: nat)
    ensures
        text::parsed_signed(text::signed_decimal(n), min, max) == (if n < 0 && n >= min || 0 <= n
            <= max {
            Some(n)
        } else {
            None
        }),
{
    if n < 0 {
        lemma_digits_of((-n) as nat);
        let d = text::decimal((-n) as nat);
        assert((seq!['-'] + d).drop_first() =~= d);
    } else {
        lemma_numbers_read_back(n as nat, max);
        lemma_digits_of(n as nat);
        assert(text::is_digit(text::decimal(n as nat)[0]));
    }
}

/// A text with anything but digits behind an optional plus sign is no number, and neither
/// is a sign alone.
pub proof fn lemma_other_texts_are_no_numbers(s: Seq<char>, i: int, max: nat)
    ensures
        s.len() == 0 || s == seq!['+'] ==> text::parsed_unsigned(s, max) is None,
        0 < i < s.len() && !('0' <= s[i] && s[i] <= '9') ==> text::parsed_unsigned(s, max) is None,
        s.len() > 0 && s[0] != '+' && !('0' <= s[0] && s[0] <= '9') ==> text::parsed_unsigned(
            s,
            max,
        ) is None,
{
    if 0 < i < s.len() && s[0] == '+' {
        assert(s.drop_first()[i - 1] == s[i]);
    }
}

/// The value of a digit in base sixteen.
pub open spec fn nibble(c: char) -> int {
    if '0' <= c && c <= '9' {
        c as int - '0' as int
    } else if 'a' <= c && c <= 'f' {
        c as int - 'a' as int + 10
    } else {
        -1
    }
}

/// The number that digits in base sixteen spell.
pub open spec fn nibbles_value(s: Seq<char>) -> int
    decreases s.len(),
{
    if s.len() == 0 {
        0
    } else {
        nibbles_value(s.drop_last()) * 16 + nibble(s.last())
    }
}

/// Digits in base sixteen are lower-case, and spell the number that they were written for.
pub proof fn lemma_base_sixteen(n: nat)
    ensures
        nibbles_value(text::hexadecimal(n)) == n,
        forall|i: int|
            0 <= i < text::hexadecimal(n).len() ==> nibble(#[trigger] text::hexadecimal(n)[i]) >= 0,
        n > 0 ==> text::hexadecimal(n)[0] != '0',
    decreases n,
{
    let d = text::hexadecimal(n);
    if n < 16 {
        assert(d =~= seq![text::digit_char(n as int)]);
        assert(d.drop_last() =~= Seq::<char>::empty());
        reveal_with_fuel(nibbles_value, 2);
    } else {
        lemma_base_sixteen(n / 16);
        let rest = text::hexadecimal(n / 16);
        assert(d.drop_last() =~= rest);
        assert(rest.len() > 0) by {
            reveal_with_fuel(text::hexadecimal, 2);
        }
        assert forall|i: int| 0 <= i < d.len() implies nibble(#[trigger] d[i]) >= 0 by {
            if i < rest.len() {
                assert(d[i] == rest[i]);
            }
        }
        assert(d[0] == rest[0]);
    }
}

/// Each byte is written as two digits, the higher one first, in the order of the bytes.
pub proof fn lemma_bytes_in_base_sixteen(bytes: Seq<u8>, i: int)
    requires
        0 <= i < bytes.len(),
    ensures
        text::hex_of(bytes).len() == 2 * bytes.len(),
        nibble(text::hex_of(bytes)[2 * i]) * 16 + nibble(text::hex_of(bytes)[2 * i + 1])
            == bytes[i],
    decreases bytes.len(),
{
    let rest = bytes.drop_last();
    if i < rest.len() {
        lemma_bytes_in_base_sixteen(rest, i);
        assert(rest[i] == bytes[i]);
    } else if rest.len() > 0 {
        lemma_bytes_in_base_sixteen(rest, 0);
    } else {
        assert(text::hex_of(rest).len() == 0);
    }
}

/// A list of one text is that text, and lists that follow each other are one list.
pub proof fn lemma_lists(a: Seq<Seq<char>>, b: Seq<Seq<char>>, s: Seq<char>, between: Seq<char>)
    requires
        a.len() > 0,
    ensures
        text::listed(seq![s], between) == s,
        b.len() > 0 ==> text::listed(a + b, between) == text::listed(a, between) + between
            + text::listed(b, between),
    decreases b.len(),
{
    if b.len() == 1 {
        assert((a + b).drop_last() =~= a);
        assert((a + b).last() == b[0]);
    } else if b.len() > 1 {
        lemma_lists(a, b.drop_last(), s, between);
        assert((a + b).drop_last() =~= a + b.drop_last());
        assert((a + b).last() == b.last());
        assert(text::listed(a, between) + between + text::listed(b.drop_last(), between) + between
            + b.last() =~= text::listed(a, between) + between + (text::listed(
            b.drop_last(),
            between,
        ) + between + b.last()));
    }
}

/// White space at the ends is taken away and nothing else: what stays has none at its ends,
/// and it stays where more is put around it.
pub proof fn lemma_trimming(s: Seq<char>, c: char)
    ensures
        text::trimmed(s).len() > 0 ==> !text::blank(text::trimmed(s)[0]) && !text::blank(
            text::trimmed(s).last(),
        ),
        text::trimmed(text::trimmed(s)) == text::trimmed(s),
        text::blank(c) ==> text::trimmed(seq![c] + s) == text::trimmed(s),
        s.len() > 0 && !text::blank(s[0]) && !text::blank(s.last()) ==> text::trimmed(s) == s,
    decreases s.len(),
{
    assert((seq![c] + s).drop_first() =~= s);
    if s.len() > 0 {
        if text::blank(s[0]) {
            lemma_trimming(s.drop_first(), c);
        } else if text::blank(s.last()) {
            lemma_trimming(s.drop_last(), c);
        }
    }
}

/// White space behind a text is taken away as well.
pub proof fn lemma_trimming_behind(s: Seq<char>, c: char)
    requires
        text::blank(c),
    ensures
        text::trimmed(s + seq![c]) == text::trimmed(s),
    decreases s.len(),
{
    let longer = s + seq![c];
    if s.len() == 0 {
        assert(longer.drop_first() =~= s);
    } else if text::blank(s[0]) {
        lemma_trimming_behind(s.drop_first(), c);
        assert(longer.drop_first() =~= s.drop_first() + seq![c]);
    } else {
        assert(longer[0] == s[0]);
        assert(longer.drop_last() =~= s);
    }
}

/// Whether a text is white space alone.
#[verifier::opaque]
pub open spec fn all_blank(s: Seq<char>) -> bool {
    forall|i: int| 0 <= i < s.len() ==> text::blank(#[trigger] s[i])
}

proof fn lemma_blank_ends(s: Seq<char>, c: char)
    ensures
        all_blank(Seq::empty()),
        all_blank(s) && text::blank(c) ==> all_blank(seq![c] + s) && all_blank(s.push(c)),
{
    reveal(all_blank);
    if all_blank(s) && text::blank(c) {
        assert forall|i: int| 0 <= i < (seq![c] + s).len() implies text::blank(
            #[trigger] (seq![c] + s)[i],
        ) by {
            if i > 0 {
                assert((seq![c] + s)[i] == s[i - 1]);
            }
        }
    }
}

/// What is taken away is white space that stood around what stays.
pub proof fn lemma_trimmed_part(s: Seq<char>) -> (parts: (Seq<char>, Seq<char>))
    ensures
        s == parts.0 + text::trimmed(s) + parts.1,
        all_blank(parts.0),
        all_blank(parts.1),
    decreases s.len(),
{
    let none = Seq::<char>::empty();
    if s.len() == 0 {
        lemma_blank_ends(none, ' ');
        assert(s =~= none + text::trimmed(s) + none);
        (none, none)
    } else if text::blank(s[0]) {
        let (before, after) = lemma_trimmed_part(s.drop_first());
        lemma_blank_ends(before, s[0]);
        assert(s =~= seq![s[0]] + s.drop_first());
        assert(s =~= seq![s[0]] + before + text::trimmed(s) + after);
        (seq![s[0]] + before, after)
    } else if text::blank(s.last()) {
        let (before, after) = lemma_trimmed_part(s.drop_last());
        lemma_blank_ends(after, s.last());
        assert(s =~= s.drop_last().push(s.last()));
        assert(s =~= before + text::trimmed(s) + after.push(s.last()));
        (before, after.push(s.last()))
    } else {
        lemma_blank_ends(none, ' ');
        assert(s =~= none + text::trimmed(s) + none);
        (none, none)
    }
}

/// Capital letters become small ones, and no other character changes.
pub proof fn lemma_lower_case(s: Seq<char>, i: int)
    requires
        0 <= i < s.len(),
    ensures
        text::lowered(s).len() == s.len(),
        'A' <= s[i] && s[i] <= 'Z' ==> text::lowered(s)[i] as int - 'a' as int == s[i] as int
            - 'A' as int,
        !('A' <= s[i] && s[i] <= 'Z') ==> text::lowered(s)[i] == s[i],
        text::lowered(text::lowered(s)) == text::lowered(s),
{
    assert(text::lowered(text::lowered(s)) =~= text::lowered(s));
}

/// A text is taken apart at the last place of a character, and where the character does not
/// occur it is not taken apart.
pub proof fn lemma_taken_apart(a: Seq<char>, b: Seq<char>, c: char)
    requires
        forall|i: int| 0 <= i < b.len() ==> #[trigger] b[i] != c,
    ensures
        text::split_at_last(a + seq![c] + b, c) == Some((a, b)),
        text::split_at_last(b, c) is None,
{
    let s = a + seq![c] + b;
    text::lemma_last_place(s, c);
    text::lemma_last_place(b, c);
    let at = text::last_place(s, c);
    let n = a.len() as int;
    assert(s[n] == c);
    if at > n {
        assert(s[at] == b[at - n - 1]);
    }
    assert(at == n);
    assert(s.take(at) =~= a);
    assert(s.skip(at + 1) =~= b);
    if text::last_place(b, c) >= 0 {
        assert(b[text::last_place(b, c)] != c);
    }
}

proof fn lemma_end_of_a_word(word: Seq<char>, rest: Seq<char>, at: int)
    requires
        0 <= at <= word.len(),
        forall|i: int| 0 <= i < word.len() ==> !text::blank(#[trigger] word[i]),
        rest.len() == 0 || text::blank(rest[0]),
    ensures
        text::word_end(word + rest, at) == word.len(),
    decreases word.len() - at,
{
    if at < word.len() {
        assert((word + rest)[at] == word[at]);
        lemma_end_of_a_word(word, rest, at + 1);
    } else if rest.len() > 0 {
        assert((word + rest)[at] == rest[0]);
    }
}

/// The first word of a text is what stands before the first white space.
pub proof fn lemma_first_words(word: Seq<char>, rest: Seq<char>)
    requires
        word.len() > 0,
        forall|i: int| 0 <= i < word.len() ==> !text::blank(#[trigger] word[i]),
        rest.len() == 0 || text::blank(rest[0]),
    ensures
        text::words_from(word + rest, 0) == seq![word] + text::words_from(
            word + rest,
            word.len() as int,
        ),
        text::words_from(word, 0) == seq![word],
{
    lemma_end_of_a_word(word, rest, 0);
    assert((word + rest)[0] == word[0]);
    assert((word + rest).subrange(0, word.len() as int) =~= word);
    let none = Seq::<char>::empty();
    lemma_end_of_a_word(word, none, 0);
    assert(word + none =~= word);
    assert(word.subrange(0, word.len() as int) =~= word);
    assert(text::words_from(word, word.len() as int) =~= Seq::<Seq<char>>::empty());
    assert(text::words_from(word, 0) =~= seq![word]);
}

/// White space in front of a word is passed over.
pub proof fn lemma_white_space_is_passed_over(s: Seq<char>, at: int)
    requires
        0 <= at < s.len(),
        text::blank(s[at]),
    ensures
        text::words_from(s, at) == text::words_from(s, at + 1),
{
}

/// Texts are ordered: of two different ones exactly one comes first, and a beginning comes
/// before its continuations.
pub proof fn lemma_order(a: Seq<char>, b: Seq<char>, c: char, d: char)
    ensures
        !text::precedes(a, a),
        text::precedes(a, a + seq![c] + b),
        !text::precedes(a + seq![c] + b, a),
        (c as int) < (d as int) ==> text::precedes(a + seq![c] + b, a + seq![d]),
    decreases a.len(),
{
    if a.len() == 0 {
        assert((a + seq![c] + b).len() > 0);
        assert((a + seq![c] + b)[0] == c);
        assert((a + seq![d])[0] == d);
    } else {
        lemma_order(a.skip(1), b, c, d);
        assert((a + seq![c] + b).skip(1) =~= a.skip(1) + seq![c] + b);
        assert((a + seq![d]).skip(1) =~= a.skip(1) + seq![d]);
        assert((a + seq![c] + b)[0] == a[0]);
        assert((a + seq![d])[0] == a[0]);
    }
}

/// Yes and no are written as these words, which differ.
pub proof fn lemma_truths(b: bool)
    ensures
        text::truth(b) == "true"@ <==> b,
        text::truth(b) == "false"@ <==> !b,
{
    reveal_strlit("true");
    reveal_strlit("false");
    assert("true"@.len() == 4);
    assert("false"@.len() == 5);
}

/// Of fields with the same key the first one counts, and a field with another key never
/// does.
pub proof fn lemma_fields(first: json::FieldView, fields: Seq<json::FieldView>, key: Seq<char>)
    ensures
        ({
            let all = seq![first] + fields;
            &&& first.key == key ==> json::text_in(all, key) == first.text && (json::true_in(
                all,
                key,
            ) <==> first.truth == Some(true))
            &&& first.key != key ==> json::text_in(all, key) == json::text_in(fields, key)
                && json::true_in(all, key) == json::true_in(fields, key)
            &&& fields.len() == 0 && first.key != key ==> json::text_in(all, key) is None
                && !json::true_in(all, key)
        }),
{
    assert((seq![first] + fields).skip(1) =~= fields);
}

/// What stands under a key, or nothing where nothing does.
pub proof fn lemma_values_or_nothing(items: Seq<(Seq<char>, Seq<char>)>, key: Seq<char>)
    ensures
        entries::value_of(items, key) matches Some(v) ==> entries::value_or_empty(items, key) == v,
        entries::value_of(items, key) is None ==> entries::value_or_empty(items, key).len() == 0,
{
}

/// Spaces, tabs and the ends of lines are white space; what is printed of ASCII is not, and
/// nothing is above the ideographic space.
pub proof fn lemma_white_space(c: char)
    ensures
        c == ' ' || c == '\t' || c == '\n' || c == '\r' || c == '\u{3000}' ==> text::blank(c),
        '!' <= c && c <= '~' ==> !text::blank(c),
        c > '\u{3000}' ==> !text::blank(c),
        c < '\t' ==> !text::blank(c),
        '\u{3001}' > c && c > '\u{205f}' && text::blank(c) ==> c == '\u{3000}',
{
}

/// Control characters are those below the space, the delete character and those up to the
/// no-break space; a text has one where one of its characters is one.
pub proof fn lemma_control_characters(s: Seq<char>, i: int)
    requires
        0 <= i < s.len(),
    ensures
        ' ' > s[i] ==> text::has_control(s),
        s[i] >= '\u{7f}' && '\u{a0}' > s[i] ==> text::has_control(s),
        (forall|j: int| 0 <= j < s.len() ==> #[trigger] s[j] >= ' ' && '\u{7f}' > s[j])
            ==> !text::has_control(s),
{
    if ' ' > s[i] || s[i] >= '\u{7f}' && '\u{a0}' > s[i] {
        assert(text::control(s[i]));
    }
}

} // verus!

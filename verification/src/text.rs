//! Small operations on text that the rest of the crate is built from.

use vstd::prelude::*;

verus! {

/// `String::push` of std: appends one character to the end of the string.
pub assume_specification[ String::push ](s: &mut String, c: char)
    ensures
        final(s)@ == old(s)@.push(c),
;

/// `==` of std on string slices: true exactly when both hold the same text.
pub assume_specification[ <str as PartialEq>::eq ](a: &str, b: &str) -> (same: bool)
    ensures
        same == (a@ == b@),
;

/// The lower-case form that std gives a text, by the Unicode case mapping.
pub uninterp spec fn lowercase_text(s: Seq<char>) -> Seq<char>;

/// `str::to_lowercase` of std: the lower-case equivalent of the text, as a
/// function of the text alone.
pub assume_specification[ str::to_lowercase ](s: &str) -> (lowered: String)
    ensures
        lowered@ == lowercase_text(s@),
;

/// Whether two string slices hold the same text.
pub fn same_text(a: &str, b: &str) -> (same: bool)
    ensures
        same == (a@ == b@),
{
    a.eq(b)
}

/// The characters of a string slice, in order.
pub fn to_chars(s: &str) -> (chars: Vec<char>)
    ensures
        chars@ == s@,
{
    let mut chars: Vec<char> = Vec::new();
    for c in it: s.chars()
        invariant
            it.seq() == s@,
            chars@ == s@.take(it.index() as int),
    {
        chars.push(c);
        assert(s@.take(it.index() + 1) =~= s@.take(it.index() as int).push(c));
    }
    assert(s@.take(s@.len() as int) =~= s@);
    chars
}

/// The text made of the characters `chars[from..to]`.
pub fn text_of(chars: &Vec<char>, from: usize, to: usize) -> (text: String)
    requires
        from <= to <= chars.len(),
    ensures
        text@ == chars@.subrange(from as int, to as int),
{
    let mut text = String::new();
    let mut i: usize = from;
    while i < to
        invariant
            from <= i <= to <= chars.len(),
            text@ == chars@.subrange(from as int, i as int),
        decreases to - i,
    {
        text.push(chars[i]);
        i += 1;
        assert(text@ =~= chars@.subrange(from as int, i as int));
    }
    text
}

/// Whether `prefix` is an initial segment of `s`.
pub open spec fn has_prefix(s: Seq<char>, prefix: Seq<char>) -> bool {
    prefix.len() <= s.len() && s.subrange(0, prefix.len() as int) == prefix
}

/// Whether `chars` begins with `prefix`.
pub fn starts_with(chars: &Vec<char>, prefix: &Vec<char>) -> (found: bool)
    ensures
        found == has_prefix(chars@, prefix@),
{
    if prefix.len() > chars.len() {
        return false;
    }
    let mut i: usize = 0;
    while i < prefix.len()
        invariant
            i <= prefix.len() <= chars.len(),
            forall|j: int| 0 <= j < i ==> chars@[j] == prefix@[j],
        decreases prefix.len() - i,
    {
        if chars[i] != prefix[i] {
            assert(chars@.subrange(0, prefix.len() as int)[i as int] != prefix@[i as int]);
            return false;
        }
        i += 1;
    }
    assert(chars@.subrange(0, prefix.len() as int) =~= prefix@);
    true
}

/// Whether the text of `s` begins with the text of `prefix`.
pub fn text_starts_with(s: &str, prefix: &str) -> (found: bool)
    ensures
        found == has_prefix(s@, prefix@),
{
    let chars = to_chars(s);
    let wanted = to_chars(prefix);
    starts_with(&chars, &wanted)
}

/// The position of the first `c` in `s`, or the length of `s` where it holds
/// none.
pub open spec fn first_position(s: Seq<char>, c: char) -> int
    decreases s.len(),
{
    if s.len() == 0 || s[0] == c {
        0
    } else {
        1 + first_position(s.skip(1), c)
    }
}

/// `first_position` lies within bounds, nothing before it is `c`, and where
/// it is a position, `c` stands there.
pub proof fn lemma_first_position(s: Seq<char>, c: char)
    ensures
        0 <= first_position(s, c) <= s.len(),
        forall|j: int| 0 <= j < first_position(s, c) ==> s[j] != c,
        first_position(s, c) < s.len() ==> s[first_position(s, c)] == c,
    decreases s.len(),
{
    if s.len() == 0 || s[0] == c {
    } else {
        lemma_first_position(s.skip(1), c);
        let p = first_position(s.skip(1), c);
        assert forall|j: int| 0 <= j < 1 + p implies s[j] != c by {
            if j > 0 {
                assert(s.skip(1)[j - 1] == s[j]);
            }
        }
        if 1 + p < s.len() {
            assert(s.skip(1)[p] == s[p + 1]);
        }
    }
}

/// A position with nothing equal to `c` before it, and `c` on it unless it is
/// the end, is `first_position`.
pub proof fn lemma_first_position_is(s: Seq<char>, c: char, p: int)
    requires
        0 <= p <= s.len(),
        forall|j: int| 0 <= j < p ==> s[j] != c,
        p < s.len() ==> s[p] == c,
    ensures
        first_position(s, c) == p,
{
    lemma_first_position(s, c);
    let q = first_position(s, c);
    if q < p {
        assert(s[q] != c);
    } else if p < q {
        assert(s[p] != c);
    }
}

/// The position of the first `c` at or after `from`, or the length.
pub fn find_from(chars: &Vec<char>, c: char, from: usize) -> (position: usize)
    requires
        from <= chars.len(),
    ensures
        from <= position <= chars.len(),
        position == from + first_position(chars@.skip(from as int), c),
        forall|j: int| from <= j < position ==> chars@[j] != c,
        position < chars.len() ==> chars@[position as int] == c,
{
    let mut i: usize = from;
    while i < chars.len() && chars[i] != c
        invariant
            from <= i <= chars.len(),
            forall|j: int| from <= j < i ==> chars@[j] != c,
        decreases chars.len() - i,
    {
        i += 1;
    }
    proof {
        let rest = chars@.skip(from as int);
        assert forall|j: int| 0 <= j < i - from implies rest[j] != c by {
            assert(rest[j] == chars@[from + j]);
        }
        lemma_first_position_is(rest, c, i - from);
    }
    i
}

/// The position just after the last `c` in `s`, or 0 where it holds none.
pub open spec fn after_last(s: Seq<char>, c: char) -> int
    decreases s.len(),
{
    if s.len() == 0 || s.last() == c {
        s.len() as int
    } else {
        after_last(s.drop_last(), c)
    }
}

/// The text of `s` after its last `c`; all of `s` where it holds none.
pub open spec fn last_segment(s: Seq<char>, c: char) -> Seq<char> {
    s.subrange(after_last(s, c), s.len() as int)
}

/// The position just after the last `c`, or 0.
pub fn find_after_last(chars: &Vec<char>, c: char) -> (position: usize)
    ensures
        position == after_last(chars@, c),
        position <= chars.len(),
{
    let mut i: usize = chars.len();
    proof {
        assert(chars@.subrange(0, i as int) =~= chars@);
    }
    while i > 0 && chars[i - 1] != c
        invariant
            i <= chars.len(),
            after_last(chars@, c) == after_last(chars@.subrange(0, i as int), c),
        decreases i,
    {
        proof {
            let s = chars@.subrange(0, i as int);
            assert(s.last() == chars@[i - 1]);
            assert(s.drop_last() =~= chars@.subrange(0, i - 1));
        }
        i -= 1;
    }
    proof {
        let s = chars@.subrange(0, i as int);
        if i > 0 {
            assert(s.last() == chars@[i - 1]);
        }
    }
    i
}

/// The pieces of `s` between occurrences of `c`, in order. A text without
/// `c` is one piece; the pieces may be empty.
pub open spec fn split_text(s: Seq<char>, c: char) -> Seq<Seq<char>>
    decreases s.len(),
{
    let p = first_position(s, c);
    if 0 <= p < s.len() {
        seq![s.subrange(0, p)] + split_text(s.skip(p + 1), c)
    } else {
        seq![s]
    }
}

/// Splits the text at every `c`.
pub fn split(chars: &Vec<char>, c: char) -> (pieces: Vec<String>)
    ensures
        pieces@.len() == split_text(chars@, c).len(),
        forall|k: int| 0 <= k < pieces@.len() ==> #[trigger] pieces@[k]@ == split_text(chars@, c)[k],
{
    let mut pieces: Vec<String> = Vec::new();
    let mut start: usize = 0;
    let ghost mut done: Seq<Seq<char>> = Seq::empty();
    proof {
        assert(chars@.skip(0) =~= chars@);
    }
    loop
        invariant
            start <= chars.len(),
            pieces@.len() == done.len(),
            forall|k: int| 0 <= k < pieces@.len() ==> #[trigger] pieces@[k]@ == done[k],
            split_text(chars@, c) == done + split_text(chars@.skip(start as int), c),
        decreases chars.len() - start,
    {
        let ghost rest = chars@.skip(start as int);
        let stop = find_from(chars, c, start);
        let piece = text_of(chars, start, stop);
        proof {
            lemma_first_position(rest, c);
            assert(piece@ =~= rest.subrange(0, stop - start));
        }
        pieces.push(piece);
        if stop >= chars.len() {
            proof {
                assert(rest.subrange(0, stop - start) =~= rest);
                assert(split_text(rest, c) == seq![rest]);
                done = done.push(rest);
                assert(split_text(chars@, c) =~= done);
            }
            return pieces;
        }
        proof {
            assert(rest.skip(stop - start + 1) =~= chars@.skip(stop + 1));
            assert(done + (seq![piece@] + split_text(chars@.skip(stop + 1), c)) =~= done.push(
                piece@,
            ) + split_text(chars@.skip(stop + 1), c));
            done = done.push(piece@);
        }
        start = stop + 1;
    }
}

/// The decimal digit of a value below ten.
pub open spec fn digit_char(d: int) -> char {
    ((d + 48) as u8) as char
}

/// The decimal numeral of `n`, without leading zeros.
pub open spec fn decimal_text(n: nat) -> Seq<char>
    decreases n,
{
    if n < 10 {
        seq![digit_char(n as int)]
    } else {
        decimal_text(n / 10).push(digit_char((n % 10) as int))
    }
}

/// Writes `n` as a decimal numeral.
pub fn decimal(n: u64) -> (text: String)
    ensures
        text@ == decimal_text(n as nat),
{
    let mut digits: Vec<char> = Vec::new();
    let mut rest: u64 = n;
    let ghost mut tail: Seq<char> = Seq::empty();
    while rest >= 10
        invariant
            decimal_text(n as nat) == decimal_text(rest as nat) + tail,
            digits@.len() == tail.len(),
            forall|k: int| 0 <= k < tail.len() ==> digits@[tail.len() - 1 - k] == tail[k],
        decreases rest,
    {
        let d = (rest % 10) as u8;
        let ghost c = digit_char((rest % 10) as int);
        proof {
            assert(decimal_text(rest as nat) == decimal_text((rest / 10) as nat).push(c));
            assert(decimal_text((rest / 10) as nat).push(c) + tail =~= decimal_text(
                (rest / 10) as nat,
            ) + (seq![c] + tail));
            tail = seq![c] + tail;
        }
        digits.push((d + 48) as char);
        rest = rest / 10;
    }
    let mut text = String::new();
    text.push(((rest as u8) + 48) as char);
    let mut i: usize = digits.len();
    while i > 0
        invariant
            i <= digits.len(),
            digits@.len() == tail.len(),
            forall|k: int| 0 <= k < tail.len() ==> digits@[tail.len() - 1 - k] == tail[k],
            text@ == decimal_text(rest as nat) + tail.subrange(0, digits.len() - i),
            rest < 10,
        decreases i,
    {
        i -= 1;
        text.push(digits[i]);
        proof {
            let k = digits.len() - 1 - i;
            assert(digits@[tail.len() - 1 - k] == tail[k]);
            assert(tail.subrange(0, k + 1) =~= tail.subrange(0, k).push(tail[k]));
            assert(text@ =~= decimal_text(rest as nat) + tail.subrange(0, k + 1));
        }
    }
    assert(tail.subrange(0, tail.len() as int) =~= tail);
    text
}

/// How many times `c` stands at the beginning of `s`.
pub open spec fn leading_count(s: Seq<char>, c: char) -> int
    decreases s.len(),
{
    if s.len() > 0 && s[0] == c {
        1 + leading_count(s.skip(1), c)
    } else {
        0
    }
}

/// How many times `c` stands at the end of `s`.
pub open spec fn trailing_count(s: Seq<char>, c: char) -> int
    decreases s.len(),
{
    if s.len() > 0 && s.last() == c {
        1 + trailing_count(s.drop_last(), c)
    } else {
        0
    }
}

/// `s` without the `c`s at its beginning and at its end.
pub open spec fn trimmed_of(s: Seq<char>, c: char) -> Seq<char> {
    let a = leading_count(s, c);
    if a >= s.len() {
        Seq::empty()
    } else {
        s.subrange(a, s.len() - trailing_count(s, c))
    }
}

/// A count of `c`s at the beginning that ends at the end or at another
/// character is `leading_count`.
pub proof fn lemma_leading_count_is(s: Seq<char>, c: char, a: int)
    requires
        0 <= a <= s.len(),
        forall|j: int| 0 <= j < a ==> s[j] == c,
        a < s.len() ==> s[a] != c,
    ensures
        leading_count(s, c) == a,
    decreases s.len(),
{
    if s.len() > 0 && s[0] == c {
        assert(a > 0);
        assert forall|j: int| 0 <= j < a - 1 implies s.skip(1)[j] == c by {
            assert(s.skip(1)[j] == s[j + 1]);
        }
        if a < s.len() {
            assert(s.skip(1)[a - 1] == s[a]);
        }
        lemma_leading_count_is(s.skip(1), c, a - 1);
    }
}

/// A count of `c`s at the end that ends at the beginning or at another
/// character is `trailing_count`.
pub proof fn lemma_trailing_count_is(s: Seq<char>, c: char, b: int)
    requires
        0 <= b <= s.len(),
        forall|j: int| s.len() - b <= j < s.len() ==> s[j] == c,
        b < s.len() ==> s[s.len() - b - 1] != c,
    ensures
        trailing_count(s, c) == b,
    decreases s.len(),
{
    if s.len() > 0 && s.last() == c {
        assert(b > 0);
        let t = s.drop_last();
        assert forall|j: int| t.len() - (b - 1) <= j < t.len() implies t[j] == c by {
            assert(t[j] == s[j]);
        }
        if b - 1 < t.len() {
            assert(t[t.len() - (b - 1) - 1] == s[s.len() - b - 1]);
        }
        lemma_trailing_count_is(t, c, b - 1);
    }
}

/// The text without the `c`s at its beginning and at its end.
pub fn trim_char(chars: &Vec<char>, c: char) -> (text: String)
    ensures
        text@ == trimmed_of(chars@, c),
{
    let mut a: usize = 0;
    while a < chars.len() && chars[a] == c
        invariant
            a <= chars.len(),
            forall|j: int| 0 <= j < a ==> chars@[j] == c,
        decreases chars.len() - a,
    {
        a += 1;
    }
    proof {
        lemma_leading_count_is(chars@, c, a as int);
    }
    if a >= chars.len() {
        return String::new();
    }
    let mut b: usize = chars.len();
    while b > a && chars[b - 1] == c
        invariant
            a <= b <= chars.len(),
            a < chars.len(),
            chars@[a as int] != c,
            forall|j: int| b <= j < chars.len() ==> chars@[j] == c,
        decreases b,
    {
        b -= 1;
    }
    proof {
        lemma_trailing_count_is(chars@, c, chars.len() - b);
    }
    text_of(chars, a, b)
}

/// Whether std counts a character as alphanumeric, by the Unicode tables.
pub uninterp spec fn alphanumeric(c: char) -> bool;

/// `char::is_alphanumeric` of std: a function of the character alone.
pub assume_specification[ char::is_alphanumeric ](c: char) -> (yes: bool)
    ensures
        yes == alphanumeric(c),
;

/// A text without the white space, as Unicode defines it, at its beginning
/// and at its end.
pub uninterp spec fn trimmed_text(s: Seq<char>) -> Seq<char>;

/// `str::trim` of std: the slice without leading and trailing white space,
/// a function of the text alone.
pub assume_specification<'a>[ str::trim ](s: &'a str) -> (trimmed: &'a str)
    ensures
        trimmed@ == trimmed_text(s@),
;

/// Whether a character is one of the decimal digits `0` to `9`.
pub open spec fn is_decimal_digit(c: char) -> bool {
    48 <= c as u32 <= 57
}

/// The number that a text of decimal digits stands for.
pub open spec fn digits_value(digits: Seq<char>) -> nat
    decreases digits.len(),
{
    if digits.len() == 0 {
        0
    } else {
        digits_value(digits.drop_last()) * 10 + (digits.last() as u32 - 48) as nat
    }
}

/// A numeral without the `+` that may stand before it.
pub open spec fn without_plus(s: Seq<char>) -> Seq<char> {
    if s.len() > 0 && s[0] == '+' {
        s.skip(1)
    } else {
        s
    }
}

/// Whether a text holds decimal digits only.
pub open spec fn all_decimal_digits(digits: Seq<char>) -> bool {
    forall|i: int| 0 <= i < digits.len() ==> is_decimal_digit(#[trigger] digits[i])
}

/// The number that a text stands for as an unsigned 16-bit integer: the
/// text is an optional `+` and then one decimal digit or more, nothing
/// before, between or after, and the number is 65535 at most. Any other
/// text stands for none.
pub open spec fn parsed_u16(s: Seq<char>) -> Option<u16> {
    let digits = without_plus(s);
    if digits.len() > 0 && all_decimal_digits(digits) && digits_value(digits) <= 65535 {
        Some(digits_value(digits) as u16)
    } else {
        None
    }
}

/// `str::parse::<u16>` of std, its error dropped. Claimed, as std documents
/// it for the integers: the text is read as an optional `+` followed by
/// decimal digits only; an empty text, any other character and a number too
/// large for the type are errors.
#[verifier::external_body]
pub(crate) fn parse_u16(s: &str) -> (number: Option<u16>)
    ensures
        number == parsed_u16(s@),
{
    s.parse::<u16>().ok()
}

} // verus!

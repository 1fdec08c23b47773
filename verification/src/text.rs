//! Text: what the library says about strings, and the operations it needs on them.
//!
//! A string stands for the sequence of its characters. Everything here is proved except
//! the five operations of the standard library at the end of the file, which read the
//! Unicode tables or grow a `String`.

use vstd::prelude::*;
use vstd::utf8::*;

verus! {

broadcast use vstd::string::group_string_axioms;

// ---------------------------------------------------------------------------------------
// What is said of texts
// ---------------------------------------------------------------------------------------

/// How many bytes `s` takes in UTF-8.
pub open spec fn bytes(s: Seq<char>) -> nat {
    encode_utf8(s).len()
}

/// Behind the first `n` bytes of `s` a character ends.
pub open spec fn cuts_at(s: Seq<char>, n: int) -> bool {
    is_char_boundary(encode_utf8(s), n)
}

/// The characters in the first `n` bytes of `s`.
pub open spec fn first_bytes(s: Seq<char>, n: int) -> Seq<char> {
    decode_utf8(encode_utf8(s).subrange(0, n))
}

/// The characters behind the first `n` bytes of `s`.
pub open spec fn behind_bytes(s: Seq<char>, n: int) -> Seq<char> {
    decode_utf8(encode_utf8(s).subrange(n, encode_utf8(s).len() as int))
}

/// `p` stands in `s` at position `i`.
pub open spec fn occurs_at(s: Seq<char>, p: Seq<char>, i: int) -> bool {
    0 <= i && i + p.len() <= s.len() && s.subrange(i, i + p.len()) == p
}

/// `p` stands somewhere in `s`.
pub open spec fn has(s: Seq<char>, p: Seq<char>) -> bool {
    exists|i: int| occurs_at(s, p, i)
}

/// The first position at or behind `i` at which `p` stands in `s`.
pub open spec fn find_from(s: Seq<char>, p: Seq<char>, i: int) -> Option<int>
    decreases s.len() - i,
{
    if i < 0 || i + p.len() > s.len() {
        None
    } else if occurs_at(s, p, i) {
        Some(i)
    } else if i >= s.len() {
        None
    } else {
        find_from(s, p, i + 1)
    }
}

/// The rest of `s` from position `i` on, with every `p` in it, read from the left and without
/// overlaps, replaced by `r`.
pub open spec fn replaced_from(s: Seq<char>, p: Seq<char>, r: Seq<char>, i: int) -> Seq<char>
    decreases s.len() - i,
{
    if i < 0 || i >= s.len() {
        Seq::empty()
    } else if p.len() > 0 && occurs_at(s, p, i) {
        r + replaced_from(s, p, r, i + p.len())
    } else {
        seq![s[i]] + replaced_from(s, p, r, i + 1)
    }
}

/// `s` with every `p` replaced by `r`.
pub open spec fn replaced(s: Seq<char>, p: Seq<char>, r: Seq<char>) -> Seq<char> {
    replaced_from(s, p, r, 0)
}

/// `s` with every character `c` replaced by `r`.
pub open spec fn char_replaced(s: Seq<char>, c: char, r: Seq<char>) -> Seq<char>
    decreases s.len(),
{
    if s.len() == 0 {
        Seq::empty()
    } else {
        char_replaced(s.drop_last(), c, r) + if s.last() == c {
            r
        } else {
            seq![s.last()]
        }
    }
}

/// `s` without the characters that stand in `drop`.
pub open spec fn without(s: Seq<char>, drop: Seq<char>) -> Seq<char>
    decreases s.len(),
{
    if s.len() == 0 {
        Seq::empty()
    } else if drop.contains(s.last()) {
        without(s.drop_last(), drop)
    } else {
        without(s.drop_last(), drop).push(s.last())
    }
}

/// The characters of `s` that are letters or digits, those of `extra` kept too.
pub open spec fn alphanumeric_part(s: Seq<char>, extra: Seq<char>) -> Seq<char>
    decreases s.len(),
{
    if s.len() == 0 {
        Seq::empty()
    } else if alphanumeric(s.last()) || extra.contains(s.last()) {
        alphanumeric_part(s.drop_last(), extra).push(s.last())
    } else {
        alphanumeric_part(s.drop_last(), extra)
    }
}

/// `s` without the white space at its end.
pub open spec fn end_trimmed(s: Seq<char>) -> Seq<char>
    decreases s.len(),
{
    if s.len() > 0 && whitespace(s.last()) {
        end_trimmed(s.drop_last())
    } else {
        s
    }
}

/// `s` without the white space at its start.
pub open spec fn start_trimmed(s: Seq<char>) -> Seq<char>
    decreases s.len(),
{
    if s.len() > 0 && whitespace(s.first()) {
        start_trimmed(s.drop_first())
    } else {
        s
    }
}

/// `s` without the white space at both ends.
pub open spec fn trimmed(s: Seq<char>) -> Seq<char> {
    start_trimmed(end_trimmed(s))
}

/// The pieces of `s` between the characters `c`.
pub open spec fn split_at_char(s: Seq<char>, c: char) -> Seq<Seq<char>>
    decreases s.len(),
{
    if s.len() == 0 {
        seq![Seq::empty()]
    } else {
        let before = split_at_char(s.drop_last(), c);
        if s.last() == c {
            before.push(Seq::empty())
        } else {
            before.drop_last().push(before.last().push(s.last()))
        }
    }
}

/// The texts of `parts` in a row, with `sep` between each two.
pub open spec fn joined(parts: Seq<Seq<char>>, sep: Seq<char>) -> Seq<char>
    decreases parts.len(),
{
    if parts.len() == 0 {
        Seq::empty()
    } else if parts.len() == 1 {
        parts[0]
    } else {
        joined(parts.drop_last(), sep) + sep + parts.last()
    }
}

/// `s` without `p` at its start, however often it stands there.
pub open spec fn prefix_stripped(s: Seq<char>, p: Seq<char>) -> Seq<char>
    decreases s.len(),
{
    if p.len() > 0 && p.is_prefix_of(s) {
        prefix_stripped(s.skip(p.len() as int), p)
    } else {
        s
    }
}

/// The decimal digit for `d`.
pub open spec fn digit_char(d: nat) -> char {
    if d == 0 { '0' } else if d == 1 { '1' } else if d == 2 { '2' } else if d == 3 { '3' }
    else if d == 4 { '4' } else if d == 5 { '5' } else if d == 6 { '6' }
    else if d == 7 { '7' } else if d == 8 { '8' } else { '9' }
}

/// `n` written in decimal.
pub open spec fn decimal(n: nat) -> Seq<char>
    decreases n,
{
    if n < 10 {
        seq![digit_char(n)]
    } else {
        decimal(n / 10).push(digit_char(n % 10))
    }
}

/// `n` written in decimal, with a minus sign where it is negative.
pub open spec fn signed_decimal(n: int) -> Seq<char> {
    if n < 0 {
        seq!['-'] + decimal((-n) as nat)
    } else {
        decimal(n as nat)
    }
}

/// `b` written out.
pub open spec fn bool_word(b: bool) -> Seq<char> {
    if b { "true"@ } else { "false"@ }
}

pub open spec fn is_digit(c: char) -> bool {
    '0' <= c <= '9'
}

/// The number that the digits of `s` write.
pub open spec fn digits_value(s: Seq<char>) -> nat
    decreases s.len(),
{
    if s.len() == 0 {
        0
    } else {
        digits_value(s.drop_last()) * 10 + (s.last() as nat - '0' as nat) as nat
    }
}

pub open spec fn all_digits(s: Seq<char>) -> bool {
    forall|i: int| 0 <= i < s.len() ==> is_digit(#[trigger] s[i])
}

/// What `s` says as an unsigned number of at most `max`: one plus sign may lead, digits follow,
/// at least one, and nothing else.
pub open spec fn parsed_unsigned(s: Seq<char>, max: nat) -> Option<nat> {
    let digits = if s.len() > 0 && s[0] == '+' { s.drop_first() } else { s };
    if digits.len() > 0 && all_digits(digits) && digits_value(digits) <= max {
        Some(digits_value(digits))
    } else {
        None
    }
}

/// `s` is one number of an IPv4 address: one to three digits, no leading zero, at most 255.
pub open spec fn is_octet(s: Seq<char>) -> bool {
    &&& 1 <= s.len() <= 3
    &&& all_digits(s)
    &&& s.len() > 1 ==> s[0] != '0'
    &&& digits_value(s) <= 255
}

/// `s` is an IPv4 address: four numbers with dots between them.
pub open spec fn is_ipv4(s: Seq<char>) -> bool {
    let parts = split_at_char(s, '.');
    parts.len() == 4 && is_octet(parts[0]) && is_octet(parts[1]) && is_octet(parts[2])
        && is_octet(parts[3])
}

pub open spec fn is_hex_digit(c: char) -> bool {
    '0' <= c <= '9' || 'a' <= c <= 'f' || 'A' <= c <= 'F'
}

pub open spec fn all_hex(s: Seq<char>) -> bool {
    forall|i: int| 0 <= i < s.len() ==> is_hex_digit(#[trigger] s[i])
}

/// `c` with an ASCII capital made small.
pub open spec fn ascii_small(c: char) -> char {
    if 'A' <= c <= 'Z' { ((c as u8) + 32) as char } else { c }
}

/// `c` with a small ASCII letter made a capital.
pub open spec fn ascii_large(c: char) -> char {
    if 'a' <= c <= 'z' { ((c as u8) - 32) as char } else { c }
}

/// `s` with its ASCII capitals made small.
pub open spec fn ascii_lowercase(s: Seq<char>) -> Seq<char> {
    s.map_values(|c: char| ascii_small(c))
}

/// `s` with its small ASCII letters made capitals.
pub open spec fn ascii_uppercase(s: Seq<char>) -> Seq<char> {
    s.map_values(|c: char| ascii_large(c))
}

/// `s` in lower case.
pub open spec fn lowercase(s: Seq<char>) -> Seq<char> {
    if is_ascii_chars(s) { ascii_lowercase(s) } else { unicode_lowercase(ascii_lowercase(s)) }
}

/// `s` in upper case.
pub open spec fn uppercase(s: Seq<char>) -> Seq<char> {
    if is_ascii_chars(s) { ascii_uppercase(s) } else { unicode_uppercase(s) }
}

/// `c` is white space: it has the Unicode property `White_Space`.
pub open spec fn whitespace(c: char) -> bool {
    ||| '\u{9}' <= c <= '\u{d}'
    ||| c == ' '
    ||| c == '\u{85}'
    ||| c == '\u{a0}'
    ||| c == '\u{1680}'
    ||| '\u{2000}' <= c <= '\u{200a}'
    ||| c == '\u{2028}'
    ||| c == '\u{2029}'
    ||| c == '\u{202f}'
    ||| c == '\u{205f}'
    ||| c == '\u{3000}'
}

pub open spec fn is_ascii_letter_or_digit(c: char) -> bool {
    '0' <= c <= '9' || 'a' <= c <= 'z' || 'A' <= c <= 'Z'
}

/// `c` is a letter or a digit.
pub open spec fn alphanumeric(c: char) -> bool {
    if c <= '\u{7f}' { is_ascii_letter_or_digit(c) } else { unicode_alphanumeric(c) }
}

/// `a` and `b` are the same but for the case of ASCII letters.
pub open spec fn same_ignoring_ascii_case(a: Seq<char>, b: Seq<char>) -> bool {
    a.len() == b.len() && forall|i: int| 0 <= i < a.len() ==> ascii_small(#[trigger] a[i]) == ascii_small(b[i])
}

/// From position `i` on, `a` stands before `b` in the order of code points, or equals it.
pub open spec fn at_most_from(a: Seq<char>, b: Seq<char>, i: int) -> bool
    decreases a.len() - i,
{
    if i < 0 || i >= a.len() {
        true
    } else if i >= b.len() {
        false
    } else if a[i] != b[i] {
        a[i] < b[i]
    } else {
        at_most_from(a, b, i + 1)
    }
}

/// `a` stands before `b` in the order of code points, or equals it.
pub open spec fn at_most(a: Seq<char>, b: Seq<char>) -> bool {
    at_most_from(a, b, 0)
}

/// The text of an absent value is empty.
pub open spec fn or_empty(s: Option<Seq<char>>) -> Seq<char> {
    match s {
        Some(t) => t,
        None => Seq::empty(),
    }
}

/// An absent value gives way to `t`.
pub open spec fn or_text(s: Option<Seq<char>>, t: Seq<char>) -> Seq<char> {
    match s {
        Some(u) => u,
        None => t,
    }
}

/// What is the same as an ASCII text but for the case of letters is ASCII too, and has the same
/// upper case.
pub proof fn lemma_ascii_alike(a: Seq<char>, b: Seq<char>)
    requires
        is_ascii_chars(a),
        same_ignoring_ascii_case(a, b),
    ensures
        is_ascii_chars(b),
        uppercase(a) == uppercase(b),
{
    assert forall|i: int| 0 <= i < b.len() implies '\0' <= #[trigger] b[i] <= '\u{7f}' && ascii_large(a[i]) == ascii_large(
        b[i],
    ) by {
        assert('\0' <= a[i] <= '\u{7f}');
        assert(ascii_small(a[i]) == ascii_small(b[i]));
    }
    assert(ascii_uppercase(a) =~= ascii_uppercase(b));
}

/// Texts that are the same but for the case of ASCII letters have the same lower case.
pub proof fn case_of_ascii_letters_is_lowered(a: Seq<char>, b: Seq<char>)
    requires
        same_ignoring_ascii_case(a, b),
    ensures
        lowercase(a) == lowercase(b),
{
    if is_ascii_chars(a) {
        lemma_ascii_alike(a, b);
    }
    if is_ascii_chars(b) {
        assert(same_ignoring_ascii_case(b, a)) by {
            assert forall|i: int| 0 <= i < b.len() implies ascii_small(#[trigger] b[i]) == ascii_small(a[i]) by {
                assert(ascii_small(a[i]) == ascii_small(b[i]));
            }
        }
        lemma_ascii_alike(b, a);
    }
    assert(ascii_lowercase(a) =~= ascii_lowercase(b));
}

/// The case of ASCII letters changes neither the bytes of a text nor where they can be cut, and
/// behind a cut stand texts that are the same but for that case.
pub proof fn lemma_cuts_alike(a: Seq<char>, b: Seq<char>, n: int)
    requires
        same_ignoring_ascii_case(a, b),
        0 <= n <= bytes(a),
    ensures
        bytes(a) == bytes(b),
        cuts_at(a, n) == cuts_at(b, n),
        cuts_at(a, n) ==> same_ignoring_ascii_case(behind_bytes(a, n), behind_bytes(b, n)),
    decreases a.len(),
{
    let (x, y) = (encode_utf8(a), encode_utf8(b));
    encode_utf8_valid_utf8(a);
    encode_utf8_valid_utf8(b);
    encode_utf8_decode_utf8(a);
    encode_utf8_decode_utf8(b);
    if a.len() == 0 {
        assert(a =~= b);
    } else {
        let (c, d) = (a.drop_first(), b.drop_first());
        let (first, other) = (encode_scalar(a[0] as u32), encode_scalar(b[0] as u32));
        assert(ascii_small(a[0]) == ascii_small(b[0]));
        assert forall|i: int| 0 <= i < c.len() implies ascii_small(#[trigger] c[i]) == ascii_small(d[i]) by {
            assert(c[i] == a[i + 1]);
        }
        encode_utf8_first_scalar(a);
        encode_utf8_first_scalar(b);
        assert(first.len() == other.len());
        assert(x =~= first + encode_utf8(c));
        assert(y =~= other + encode_utf8(d));
        assert(pop_first_scalar(x) =~= encode_utf8(c));
        assert(pop_first_scalar(y) =~= encode_utf8(d));
        let rest = n - first.len();
        encode_utf8_valid_utf8(c);
        encode_utf8_valid_utf8(d);
        if n > 0 {
            reveal_with_fuel(is_char_boundary, 2);
            assert(cuts_at(a, n) == cuts_at(c, rest));
            assert(cuts_at(b, n) == cuts_at(d, rest));
        }
        lemma_cuts_alike(c, d, if rest < 0 { 0 } else { rest });
        if n == 0 {
            assert(x.subrange(0, x.len() as int) =~= x);
            assert(y.subrange(0, y.len() as int) =~= y);
        } else if rest >= 0 {
            assert(x.subrange(n, x.len() as int) =~= encode_utf8(c).subrange(rest, encode_utf8(c).len() as int));
            assert(y.subrange(n, y.len() as int) =~= encode_utf8(d).subrange(rest, encode_utf8(d).len() as int));
        }
    }
}

/// Of a text in ASCII every byte is a character.
pub proof fn lemma_ascii_tail(s: Seq<char>, n: int)
    requires
        is_ascii_chars(s),
        0 <= n <= s.len(),
    ensures
        bytes(s) == s.len(),
        cuts_at(s, n),
        behind_bytes(s, n) == s.skip(n),
{
    let raw = encode_utf8(s);
    let tail = s.skip(n);
    assert(is_ascii_chars(tail)) by {
        assert forall|i: int| 0 <= i < tail.len() implies '\0' <= #[trigger] tail[i] <= '\u{7f}' by {
            assert(tail[i] == s[n + i]);
        }
    }
    is_ascii_chars_encode_utf8(s);
    is_ascii_chars_encode_utf8(tail);
    encode_utf8_valid_utf8(s);
    assert(raw.subrange(n, raw.len() as int) =~= encode_utf8(tail)) by {
        assert forall|i: int| 0 <= i < tail.len() implies raw.subrange(n, raw.len() as int)[i] == encode_utf8(tail)[i] by {
            assert(tail[i] == s[n + i]);
        }
    }
    encode_utf8_decode_utf8(tail);
    if n < s.len() {
        assert(s[n] as u8 == raw[n]);
        assert(is_leading_byte_width_1(raw[n]));
        is_char_boundary_iff_is_leading_byte(raw, n);
    } else {
        is_char_boundary_start_end_of_seq(raw);
    }
}

/// `s` is white space throughout.
pub open spec fn all_whitespace(s: Seq<char>) -> bool {
    forall|i: int| 0 <= i < s.len() ==> whitespace(#[trigger] s[i])
}

/// The case of ASCII letters does not change what is trimmed.
pub proof fn lemma_trimmed_alike(a: Seq<char>, b: Seq<char>)
    requires
        same_ignoring_ascii_case(a, b),
    ensures
        same_ignoring_ascii_case(trimmed(a), trimmed(b)),
{
    lemma_end_trimmed_alike(a, b);
    lemma_start_trimmed_alike(end_trimmed(a), end_trimmed(b));
}

proof fn lemma_end_trimmed_alike(a: Seq<char>, b: Seq<char>)
    requires
        same_ignoring_ascii_case(a, b),
    ensures
        same_ignoring_ascii_case(end_trimmed(a), end_trimmed(b)),
    decreases a.len(),
{
    if a.len() > 0 {
        assert(ascii_small(a[a.len() - 1]) == ascii_small(b[b.len() - 1]));
        if whitespace(a.last()) {
            let (x, y) = (a.drop_last(), b.drop_last());
            assert forall|i: int| 0 <= i < x.len() implies ascii_small(#[trigger] x[i]) == ascii_small(y[i]) by {
                assert(x[i] == a[i]);
            }
            lemma_end_trimmed_alike(x, y);
        }
    }
}

proof fn lemma_start_trimmed_alike(a: Seq<char>, b: Seq<char>)
    requires
        same_ignoring_ascii_case(a, b),
    ensures
        same_ignoring_ascii_case(start_trimmed(a), start_trimmed(b)),
    decreases a.len(),
{
    if a.len() > 0 {
        assert(ascii_small(a[0]) == ascii_small(b[0]));
        if whitespace(a.first()) {
            let (x, y) = (a.drop_first(), b.drop_first());
            assert forall|i: int| 0 <= i < x.len() implies ascii_small(#[trigger] x[i]) == ascii_small(y[i]) by {
                assert(x[i] == a[i + 1]);
            }
            lemma_start_trimmed_alike(x, y);
        }
    }
}

/// What is trimmed is a part of the text.
pub proof fn lemma_trimmed_ascii(s: Seq<char>)
    requires
        is_ascii_chars(s),
    ensures
        is_ascii_chars(trimmed(s)),
{
    lemma_end_trimmed_ascii(s);
    lemma_start_trimmed_ascii(end_trimmed(s));
}

proof fn lemma_end_trimmed_ascii(s: Seq<char>)
    requires
        is_ascii_chars(s),
    ensures
        is_ascii_chars(end_trimmed(s)),
    decreases s.len(),
{
    if s.len() > 0 && whitespace(s.last()) {
        let rest = s.drop_last();
        assert forall|i: int| 0 <= i < rest.len() implies '\0' <= #[trigger] rest[i] <= '\u{7f}' by {
            assert(rest[i] == s[i]);
        }
        lemma_end_trimmed_ascii(rest);
    }
}

proof fn lemma_start_trimmed_ascii(s: Seq<char>)
    requires
        is_ascii_chars(s),
    ensures
        is_ascii_chars(start_trimmed(s)),
    decreases s.len(),
{
    if s.len() > 0 && whitespace(s.first()) {
        let rest = s.drop_first();
        assert forall|i: int| 0 <= i < rest.len() implies '\0' <= #[trigger] rest[i] <= '\u{7f}' by {
            assert(rest[i] == s[i + 1]);
        }
        lemma_start_trimmed_ascii(rest);
    }
}

/// White space around a text is trimmed away.
pub proof fn lemma_space_is_trimmed(before: Seq<char>, s: Seq<char>, after: Seq<char>)
    requires
        all_whitespace(before),
        all_whitespace(after),
    ensures
        trimmed(before + s + after) == trimmed(s),
{
    lemma_end_is_trimmed(before + s, after);
    lemma_start_is_trimmed(before, s);
}

proof fn lemma_end_is_trimmed(s: Seq<char>, after: Seq<char>)
    requires
        all_whitespace(after),
    ensures
        end_trimmed(s + after) == end_trimmed(s),
    decreases after.len(),
{
    let whole = s + after;
    if after.len() == 0 {
        assert(whole =~= s);
    } else {
        let rest = after.drop_last();
        assert(whole.drop_last() =~= s + rest);
        assert(whole.last() == after[after.len() - 1]);
        assert forall|i: int| 0 <= i < rest.len() implies whitespace(#[trigger] rest[i]) by {
            assert(rest[i] == after[i]);
        }
        lemma_end_is_trimmed(s, rest);
    }
}

proof fn lemma_start_is_trimmed(before: Seq<char>, s: Seq<char>)
    requires
        all_whitespace(before),
    ensures
        trimmed(before + s) == trimmed(s),
    decreases s.len(),
{
    let whole = before + s;
    if s.len() == 0 {
        assert(whole =~= s + before);
        lemma_end_is_trimmed(s, before);
    } else if whitespace(s.last()) {
        assert(whole.drop_last() =~= before + s.drop_last());
        lemma_start_is_trimmed(before, s.drop_last());
    } else {
        lemma_start_is_skipped(before, s);
    }
}

proof fn lemma_start_is_skipped(before: Seq<char>, s: Seq<char>)
    requires
        all_whitespace(before),
    ensures
        start_trimmed(before + s) == start_trimmed(s),
    decreases before.len(),
{
    let whole = before + s;
    if before.len() == 0 {
        assert(whole =~= s);
    } else {
        let rest = before.drop_first();
        assert(whole.drop_first() =~= rest + s);
        assert(whole.first() == before[0]);
        assert forall|i: int| 0 <= i < rest.len() implies whitespace(#[trigger] rest[i]) by {
            assert(rest[i] == before[i + 1]);
        }
        lemma_start_is_skipped(rest, s);
    }
}

// ---------------------------------------------------------------------------------------
// Operations
// ---------------------------------------------------------------------------------------

/// The characters of `s`.
pub fn chars_of(s: &str) -> (v: Vec<char>)
    ensures
        v@ == s@,
{
    let mut v: Vec<char> = Vec::new();
    for c in it: s.chars()
        invariant
            it.seq() == s@,
            v@ == s@.take(it.index()),
    {
        proof {
            assert(s@.take(it.index() + 1) =~= s@.take(it.index()).push(s@[it.index()]));
        }
        v.push(c);
    }
    assert(s@.take(s@.len() as int) =~= s@);
    v
}

/// The text of the characters `chars[from..to]`.
pub fn text_of(chars: &Vec<char>, from: usize, to: usize) -> (s: String)
    requires
        from <= to <= chars@.len(),
    ensures
        s@ == chars@.subrange(from as int, to as int),
{
    let mut s = String::new();
    let mut i: usize = from;
    while i < to
        invariant
            from <= i <= to <= chars@.len(),
            s@ == chars@.subrange(from as int, i as int),
        decreases to - i,
    {
        proof {
            assert(chars@.subrange(from as int, i + 1) =~= chars@.subrange(from as int, i as int).push(chars@[i as int]));
        }
        s.push(chars[i]);
        i = i + 1;
    }
    s
}

/// Hexadecimal digits behind a cut are as many characters as bytes.
pub proof fn lemma_hex_tail(s: Seq<char>, n: int)
    requires
        0 <= n <= bytes(s),
        cuts_at(s, n),
        all_hex(behind_bytes(s, n)),
    ensures
        behind_bytes(s, n).len() == bytes(s) - n,
        is_ascii_chars(behind_bytes(s, n)),
{
    let tail = behind_bytes(s, n);
    let raw = encode_utf8(s);
    assert forall|i: int| 0 <= i < tail.len() implies (#[trigger] tail[i]) <= '\u{7f}' by {
        assert(is_hex_digit(tail[i]));
    }
    encode_utf8_valid_utf8(s);
    valid_utf8_split(raw, n);
    decode_utf8_encode_utf8(raw.subrange(n, raw.len() as int));
    is_ascii_chars_encode_utf8(tail);
}

/// `c` stands in `s`.
pub fn holds(s: &str, c: char) -> (r: bool)
    ensures
        r == s@.contains(c),
{
    let chars = chars_of(s);
    let mut i: usize = 0;
    while i < chars.len()
        invariant
            i <= chars@.len(),
            chars@ == s@,
            forall|k: int| 0 <= k < i ==> chars@[k] != c,
        decreases chars@.len() - i,
    {
        if chars[i] == c {
            return true;
        }
        i = i + 1;
    }
    false
}

/// The text without characters.
pub fn empty() -> (s: String)
    ensures
        s@ == Seq::<char>::empty(),
{
    let s = String::new();
    assert(s@ =~= Seq::<char>::empty());
    s
}

/// `s` has no characters.
pub fn blank(s: &str) -> (r: bool)
    ensures
        r == (s@.len() == 0),
{
    proof {
        reveal_strlit("");
        assert(s@.len() == 0 ==> s@ =~= ""@);
    }
    same(s, "")
}

/// How many bytes `s` takes.
pub fn byte_len(s: &str) -> (n: usize)
    ensures
        n == bytes(s@),
{
    s.as_bytes().len()
}

/// The first `n` bytes of `s` and the rest.
pub fn cut(s: &str, n: usize) -> (r: (&str, &str))
    requires
        n <= bytes(s@),
        cuts_at(s@, n as int),
    ensures
        r.0@ == first_bytes(s@, n as int),
        r.1@ == behind_bytes(s@, n as int),
{
    let parts = s.split_at(n);
    proof {
        encode_utf8_decode_utf8(parts.0@);
        encode_utf8_decode_utf8(parts.1@);
    }
    parts
}

/// Whether `a` and `b` are the same text.
pub fn same(a: &str, b: &str) -> (r: bool)
    ensures
        r == (a@ == b@),
{
    let x = a.as_bytes();
    let y = b.as_bytes();
    proof {
        vstd::utf8::encode_utf8_decode_utf8(a@);
        vstd::utf8::encode_utf8_decode_utf8(b@);
    }
    if x.len() != y.len() {
        return false;
    }
    let mut i: usize = 0;
    while i < x.len()
        invariant
            x@ == vstd::utf8::encode_utf8(a@),
            y@ == vstd::utf8::encode_utf8(b@),
            x@.len() == y@.len(),
            i <= x@.len(),
            forall|j: int| 0 <= j < i ==> x@[j] == y@[j],
        decreases x@.len() - i,
    {
        if x[i] != y[i] {
            return false;
        }
        i = i + 1;
    }
    assert(x@ =~= y@);
    true
}

/// Whether `p` stands in `chars` at position `i`.
fn stands_at(chars: &Vec<char>, p: &Vec<char>, i: usize) -> (r: bool)
    requires
        i <= chars@.len(),
    ensures
        r == occurs_at(chars@, p@, i as int),
{
    if chars.len() - i < p.len() {
        return false;
    }
    let size: usize = chars.len();
    let mut j: usize = 0;
    while j < p.len()
        invariant
            size == chars@.len(),
            i + p@.len() <= size,
            j <= p@.len(),
            forall|k: int| 0 <= k < j ==> chars@[i + k] == p@[k],
        decreases p@.len() - j,
    {
        if chars[i + j] != p[j] {
            assert(chars@.subrange(i as int, i + p@.len())[j as int] != p@[j as int]);
            return false;
        }
        j = j + 1;
    }
    assert(chars@.subrange(i as int, i + p@.len()) =~= p@);
    true
}

/// Whether `p` stands somewhere in `s`.
pub fn contains(s: &str, p: &str) -> (r: bool)
    ensures
        r == has(s@, p@),
{
    let chars = chars_of(s);
    let pattern = chars_of(p);
    let mut i: usize = 0;
    while i < chars.len()
        invariant
            chars@ == s@,
            pattern@ == p@,
            i <= chars@.len(),
            forall|k: int| 0 <= k < i ==> !occurs_at(s@, p@, k),
        decreases chars@.len() - i,
    {
        if stands_at(&chars, &pattern, i) {
            return true;
        }
        i = i + 1;
    }
    stands_at(&chars, &pattern, i)
}

/// Whether `s` starts with `p`.
pub fn starts_with(s: &str, p: &str) -> (r: bool)
    ensures
        r == p@.is_prefix_of(s@),
{
    let chars = chars_of(s);
    let pattern = chars_of(p);
    stands_at(&chars, &pattern, 0)
}

/// Whether `s` ends with `p`.
pub fn ends_with(s: &str, p: &str) -> (r: bool)
    ensures
        r == p@.is_suffix_of(s@),
{
    let chars = chars_of(s);
    let pattern = chars_of(p);
    if pattern.len() > chars.len() {
        return false;
    }
    let ghost at = (chars@.len() - pattern@.len()) as int;
    assert(at + pattern@.len() == chars@.len());
    stands_at(&chars, &pattern, chars.len() - pattern.len())
}

/// Where something is found, it stands.
pub proof fn lemma_found(s: Seq<char>, p: Seq<char>, i: int)
    ensures
        match find_from(s, p, i) {
            Some(at) => i <= at && occurs_at(s, p, at),
            None => true,
        },
    decreases s.len() - i,
{
    if 0 <= i && i + p.len() <= s.len() && !occurs_at(s, p, i) && i < s.len() {
        lemma_found(s, p, i + 1);
    }
}

/// The first position at which `p` stands in `s`, counted in characters.
pub fn find(s: &str, p: &str) -> (r: Option<usize>)
    ensures
        match r {
            Some(i) => find_from(s@, p@, 0) == Some(i as int),
            None => find_from(s@, p@, 0) is None,
        },
{
    let chars = chars_of(s);
    let pattern = chars_of(p);
    let mut i: usize = 0;
    while i < chars.len()
        invariant
            chars@ == s@,
            pattern@ == p@,
            i <= chars@.len(),
            find_from(s@, p@, 0) == find_from(s@, p@, i as int),
        decreases chars@.len() - i,
    {
        if stands_at(&chars, &pattern, i) {
            return Some(i);
        }
        i = i + 1;
    }
    if stands_at(&chars, &pattern, i) {
        Some(i)
    } else {
        None
    }
}

/// The text of `s` between the positions `from` and `to`, counted in characters.
pub fn slice(s: &str, from: usize, to: usize) -> (r: String)
    requires
        from <= to <= s@.len(),
    ensures
        r@ == s@.subrange(from as int, to as int),
{
    let chars = chars_of(s);
    text_of(&chars, from, to)
}

/// `s` with every `p` replaced by `r`.
pub fn replace(s: &str, p: &str, r: &str) -> (t: String)
    requires
        p@.len() > 0,
    ensures
        t@ == replaced(s@, p@, r@),
{
    let chars = chars_of(s);
    let pattern = chars_of(p);
    let mut t = String::new();
    let mut i: usize = 0;
    assert(t@ + replaced_from(s@, p@, r@, 0) =~= replaced(s@, p@, r@));
    while i < chars.len()
        invariant
            p@.len() > 0,
            chars@ == s@,
            pattern@ == p@,
            i <= chars@.len(),
            t@ + replaced_from(s@, p@, r@, i as int) == replaced(s@, p@, r@),
        decreases chars@.len() - i,
    {
        if stands_at(&chars, &pattern, i) {
            proof {
                let rest = replaced_from(s@, p@, r@, i + p@.len());
                assert(t@ + (r@ + rest) =~= (t@ + r@) + rest);
            }
            t.append(r);
            i = i + pattern.len();
        } else {
            proof {
                let rest = replaced_from(s@, p@, r@, i + 1);
                assert(t@ + (seq![s@[i as int]] + rest) =~= t@.push(s@[i as int]) + rest);
            }
            t.push(chars[i]);
            i = i + 1;
        }
    }
    assert(t@ + Seq::<char>::empty() =~= t@);
    t
}

/// `s` with every character `c` replaced by `r`.
pub fn replace_char(s: &str, c: char, r: &str) -> (t: String)
    ensures
        t@ == char_replaced(s@, c, r@),
{
    let mut t = String::new();
    for d in it: s.chars()
        invariant
            it.seq() == s@,
            t@ == char_replaced(s@.take(it.index()), c, r@),
    {
        proof {
            let k = it.index();
            assert(s@.take(k + 1).drop_last() =~= s@.take(k));
            assert(s@.take(k + 1).last() == s@[k]);
            assert(t@.push(d) =~= t@ + seq![d]);
        }
        if d == c {
            t.append(r);
        } else {
            t.push(d);
        }
    }
    assert(s@.take(s@.len() as int) =~= s@);
    t
}

/// Whether `c` is one of `set`.
pub fn is_one_of(c: char, set: &[char]) -> (r: bool)
    ensures
        r == set@.contains(c),
{
    let mut i: usize = 0;
    while i < set.len()
        invariant
            i <= set@.len(),
            forall|k: int| 0 <= k < i ==> set@[k] != c,
        decreases set@.len() - i,
    {
        if set[i] == c {
            return true;
        }
        i = i + 1;
    }
    false
}

/// `s` without the characters of `drop`.
pub fn strip(s: &str, drop: &[char]) -> (t: String)
    ensures
        t@ == without(s@, drop@),
{
    let mut t = String::new();
    for d in it: s.chars()
        invariant
            it.seq() == s@,
            t@ == without(s@.take(it.index()), drop@),
    {
        proof {
            let k = it.index();
            assert(s@.take(k + 1).drop_last() =~= s@.take(k));
            assert(s@.take(k + 1).last() == s@[k]);
        }
        if !is_one_of(d, drop) {
            t.push(d);
        }
    }
    assert(s@.take(s@.len() as int) =~= s@);
    t
}

/// The letters and digits of `s`, and those of its characters that stand in `extra`.
pub fn keep_alphanumeric(s: &str, extra: &[char]) -> (t: String)
    ensures
        t@ == alphanumeric_part(s@, extra@),
{
    let mut t = String::new();
    for d in it: s.chars()
        invariant
            it.seq() == s@,
            t@ == alphanumeric_part(s@.take(it.index()), extra@),
    {
        proof {
            let k = it.index();
            assert(s@.take(k + 1).drop_last() =~= s@.take(k));
            assert(s@.take(k + 1).last() == s@[k]);
        }
        if d.is_alphanumeric() || is_one_of(d, extra) {
            t.push(d);
        }
    }
    assert(s@.take(s@.len() as int) =~= s@);
    t
}

/// `s` without the white space at both ends.
pub fn trim(s: &str) -> (t: String)
    ensures
        t@ == trimmed(s@),
{
    let chars = chars_of(s);
    let mut to: usize = chars.len();
    assert(s@.subrange(0, to as int) =~= s@);
    while to > 0 && chars[to - 1].is_whitespace()
        invariant
            chars@ == s@,
            to <= chars@.len(),
            end_trimmed(s@) == end_trimmed(s@.subrange(0, to as int)),
        decreases to,
    {
        proof {
            assert(s@.subrange(0, to as int).drop_last() =~= s@.subrange(0, to - 1));
        }
        to = to - 1;
    }
    let mut from: usize = 0;
    while from < to && chars[from].is_whitespace()
        invariant
            chars@ == s@,
            from <= to <= chars@.len(),
            start_trimmed(s@.subrange(0, to as int)) == start_trimmed(s@.subrange(from as int, to as int)),
        decreases to - from,
    {
        proof {
            assert(s@.subrange(from as int, to as int).drop_first() =~= s@.subrange(from + 1, to as int));
        }
        from = from + 1;
    }
    text_of(&chars, from, to)
}

/// The pieces of `s` between the characters `c`.
pub fn split(s: &str, c: char) -> (parts: Vec<String>)
    ensures
        parts.deep_view() == split_at_char(s@, c),
        parts@.len() > 0,
{
    let mut parts: Vec<String> = Vec::new();
    let mut current = String::new();
    for d in it: s.chars()
        invariant
            it.seq() == s@,
            parts.deep_view().push(current@) =~= split_at_char(s@.take(it.index()), c),
    {
        proof {
            let k = it.index();
            assert(s@.take(k + 1).drop_last() =~= s@.take(k));
            assert(s@.take(k + 1).last() == s@[k]);
            let before = split_at_char(s@.take(k), c);
            assert(before.drop_last() =~= parts.deep_view());
            assert(before.last() == current@);
        }
        if d == c {
            parts.push(current);
            current = String::new();
        } else {
            current.push(d);
        }
    }
    assert(s@.take(s@.len() as int) =~= s@);
    parts.push(current);
    parts
}

/// The texts of `parts` in a row, with `sep` between each two.
pub fn join(parts: &Vec<String>, sep: &str) -> (t: String)
    ensures
        t@ == joined(parts.deep_view(), sep@),
{
    let mut t = String::new();
    let mut i: usize = 0;
    let ghost all = parts.deep_view();
    while i < parts.len()
        invariant
            i <= parts@.len(),
            all == parts.deep_view(),
            t@ == joined(all.take(i as int), sep@),
        decreases parts@.len() - i,
    {
        proof {
            assert(all.take(i + 1).drop_last() =~= all.take(i as int));
            assert(all.take(i + 1).last() == all[i as int]);
            assert(t@ + parts[i as int]@ =~= parts[i as int]@ || i > 0);
        }
        if i > 0 {
            t.append(sep);
        }
        t.append(parts[i].as_str());
        i = i + 1;
    }
    assert(all.take(all.len() as int) =~= all);
    t
}

/// `s` without `p` at its start, however often it stands there.
pub fn strip_prefix_repeatedly(s: &str, p: &str) -> (t: String)
    requires
        p@.len() > 0,
    ensures
        t@ == prefix_stripped(s@, p@),
{
    let chars = chars_of(s);
    let pattern = chars_of(p);
    let size: usize = chars.len();
    let mut from: usize = 0;
    assert(s@.subrange(0, s@.len() as int) =~= s@);
    while stands_at(&chars, &pattern, from)
        invariant
            p@.len() > 0,
            size == chars@.len(),
            chars@ == s@,
            pattern@ == p@,
            from <= chars@.len(),
            prefix_stripped(s@, p@) == prefix_stripped(s@.subrange(from as int, s@.len() as int), p@),
        decreases chars@.len() - from,
    {
        proof {
            let rest = s@.subrange(from as int, s@.len() as int);
            assert(rest.subrange(0, p@.len() as int) =~= s@.subrange(from as int, from + p@.len()));
            assert(rest.skip(p@.len() as int) =~= s@.subrange(from + p@.len(), s@.len() as int));
        }
        from = from + pattern.len();
    }
    proof {
        let rest = s@.subrange(from as int, s@.len() as int);
        if p@.is_prefix_of(rest) {
            assert(rest.subrange(0, p@.len() as int) =~= s@.subrange(from as int, from + p@.len()));
        }
    }
    text_of(&chars, from, chars.len())
}

/// The digit for `d`.
fn digit(d: u64) -> (c: char)
    requires
        d < 10,
    ensures
        c == digit_char(d as nat),
{
    if d == 0 { '0' } else if d == 1 { '1' } else if d == 2 { '2' } else if d == 3 { '3' }
    else if d == 4 { '4' } else if d == 5 { '5' } else if d == 6 { '6' }
    else if d == 7 { '7' } else if d == 8 { '8' } else { '9' }
}

/// `n` in decimal.
pub fn digits(n: u128) -> (t: String)
    ensures
        t@ == decimal(n as nat),
    decreases n,
{
    if n < 10 {
        let mut t = String::new();
        t.push(digit(n as u64));
        assert(t@ =~= seq![digit_char(n as nat)]);
        t
    } else {
        let mut t = digits(n / 10);
        t.push(digit((n % 10) as u64));
        t
    }
}

/// `n` in decimal.
pub fn number(n: u64) -> (t: String)
    ensures
        t@ == decimal(n as nat),
{
    digits(n as u128)
}

/// `n` in decimal.
pub fn count(n: usize) -> (t: String)
    ensures
        t@ == decimal(n as nat),
{
    digits(n as u128)
}

/// `n` in decimal, with a minus sign where it is negative.
pub fn signed(n: i64) -> (t: String)
    ensures
        t@ == signed_decimal(n as int),
{
    if n < 0 {
        let mut t = String::new();
        t.push('-');
        assert(t@ =~= seq!['-']);
        let magnitude: u64 = if n == i64::MIN { 9223372036854775808 } else { (-n) as u64 };
        let digits = number(magnitude);
        t.append(digits.as_str());
        t
    } else {
        number(n as u64)
    }
}

/// `b` written out.
pub fn word(b: bool) -> (t: &'static str)
    ensures
        t@ == bool_word(b),
{
    if b { "true" } else { "false" }
}

/// What `s` says as an unsigned number of at most `max`.
pub fn parse_unsigned(s: &str, max: u64) -> (r: Option<u64>)
    ensures
        match r {
            Some(n) => parsed_unsigned(s@, max as nat) == Some(n as nat),
            None => parsed_unsigned(s@, max as nat) is None,
        },
{
    let chars = chars_of(s);
    let from: usize = if chars.len() > 0 && chars[0] == '+' { 1 } else { 0 };
    let ghost digits = s@.subrange(from as int, s@.len() as int);
    proof {
        if from == 1 {
            assert(digits =~= s@.drop_first());
        } else {
            assert(digits =~= s@);
        }
    }
    if from == chars.len() {
        return None;
    }
    let mut value: u64 = 0;
    let mut i: usize = from;
    while i < chars.len()
        invariant
            chars@ == s@,
            from <= i <= chars@.len(),
            digits == s@.subrange(from as int, s@.len() as int),
            digits == (if s@.len() > 0 && s@[0] == '+' { s@.drop_first() } else { s@ }),
            digits.len() > 0,
            value == digits_value(digits.take(i - from)),
            value <= max,
            all_digits(digits.take(i - from)),
        decreases chars@.len() - i,
    {
        let c = chars[i];
        let ghost k = (i - from) as int;
        proof {
            assert(digits[k] == c);
            assert(digits.take(k + 1).drop_last() =~= digits.take(k));
            assert(digits.take(k + 1).last() == c);
        }
        if !('0' <= c && c <= '9') {
            assert(!all_digits(digits));
            return None;
        }
        let d: u64 = c as u64 - '0' as u64;
        if value > max / 10 || d > max - value * 10 {
            proof {
                lemma_digits_value_grows(digits, k + 1);
                assert(digits.take(k + 1).last() == c);
            }
            return None;
        }
        proof {
            assert forall|j: int| 0 <= j < k + 1 implies is_digit(#[trigger] digits.take(k + 1)[j]) by {
                if j < k {
                    assert(digits.take(k)[j] == digits[j]);
                }
            }
        }
        value = value * 10 + d;
        i = i + 1;
    }
    assert(digits.take(digits.len() as int) =~= digits);
    Some(value)
}

/// A longer row of digits writes a number at least as large.
proof fn lemma_digits_value_grows(s: Seq<char>, k: int)
    requires
        0 <= k <= s.len(),
    ensures
        digits_value(s.take(k)) <= digits_value(s),
    decreases s.len() - k,
{
    if k == s.len() {
        assert(s.take(k) =~= s);
    } else {
        lemma_digits_value_grows(s, k + 1);
        assert(s.take(k + 1).drop_last() =~= s.take(k));
    }
}

/// Whether `s` is one number of an IPv4 address.
fn octet(s: &str) -> (r: bool)
    ensures
        r == is_octet(s@),
{
    let chars = chars_of(s);
    if chars.len() < 1 || chars.len() > 3 {
        return false;
    }
    if chars[0] == '+' {
        assert(!is_digit(s@[0]));
        return false;
    }
    if chars.len() > 1 && chars[0] == '0' {
        return false;
    }
    match parse_unsigned(s, 255) {
        Some(_) => true,
        None => false,
    }
}

/// Whether `s` is an IPv4 address.
pub fn ipv4(s: &str) -> (r: bool)
    ensures
        r == is_ipv4(s@),
{
    let parts = split(s, '.');
    assert(parts.deep_view().len() == parts@.len());
    parts.len() == 4 && octet(parts[0].as_str()) && octet(parts[1].as_str()) && octet(parts[2].as_str())
        && octet(parts[3].as_str())
}

/// Whether every character of `chars[from..]` is a hexadecimal digit.
pub fn hex_from(chars: &Vec<char>, from: usize) -> (r: bool)
    requires
        from <= chars@.len(),
    ensures
        r == all_hex(chars@.subrange(from as int, chars@.len() as int)),
{
    let mut i: usize = from;
    while i < chars.len()
        invariant
            from <= i <= chars@.len(),
            forall|k: int| from <= k < i ==> is_hex_digit(#[trigger] chars@[k]),
        decreases chars@.len() - i,
    {
        let c = chars[i];
        if !(('0' <= c && c <= '9') || ('a' <= c && c <= 'f') || ('A' <= c && c <= 'F')) {
            assert(!is_hex_digit(chars@.subrange(from as int, chars@.len() as int)[i - from]));
            return false;
        }
        i = i + 1;
    }
    true
}

/// `c` with an ASCII capital made small.
fn small(c: char) -> (d: char)
    ensures
        d == ascii_small(c),
{
    if 'A' <= c && c <= 'Z' { ((c as u8) + 32) as char } else { c }
}

/// Whether `a` and `b` are the same but for the case of ASCII letters.
pub fn same_ascii_case_blind(a: &str, b: &str) -> (r: bool)
    ensures
        r == same_ignoring_ascii_case(a@, b@),
{
    let x = chars_of(a);
    let y = chars_of(b);
    if x.len() != y.len() {
        return false;
    }
    let mut i: usize = 0;
    while i < x.len()
        invariant
            x@ == a@,
            y@ == b@,
            x@.len() == y@.len(),
            i <= x@.len(),
            forall|k: int| 0 <= k < i ==> ascii_small(#[trigger] x@[k]) == ascii_small(y@[k]),
        decreases x@.len() - i,
    {
        if small(x[i]) != small(y[i]) {
            assert(ascii_small(a@[i as int]) != ascii_small(b@[i as int]));
            return false;
        }
        i = i + 1;
    }
    true
}

/// Whether `a` stands before `b` in the order of code points, or equals it.
pub fn le(a: &str, b: &str) -> (r: bool)
    ensures
        r == at_most(a@, b@),
{
    let x = chars_of(a);
    let y = chars_of(b);
    let mut i: usize = 0;
    while i < x.len()
        invariant
            x@ == a@,
            y@ == b@,
            i <= x@.len(),
            at_most(a@, b@) == at_most_from(a@, b@, i as int),
        decreases x@.len() - i,
    {
        if i >= y.len() {
            return false;
        }
        if x[i] != y[i] {
            return x[i] < y[i];
        }
        i = i + 1;
    }
    true
}

/// Whether `list` holds `s`.
pub fn listed(list: &[String], s: &str) -> (r: bool)
    ensures
        r == list.deep_view().contains(s@),
{
    let mut i: usize = 0;
    while i < list.len()
        invariant
            i <= list@.len(),
            forall|k: int| 0 <= k < i ==> list.deep_view()[k] != s@,
        decreases list@.len() - i,
    {
        if same(list[i].as_str(), s) {
            assert(list.deep_view()[i as int] == s@);
            return true;
        }
        i = i + 1;
    }
    false
}

// ---------------------------------------------------------------------------------------
// Operations of the standard library
// ---------------------------------------------------------------------------------------

/// The lower case of a text that is not ASCII and has no ASCII capitals, as the Unicode tables of
/// the standard library give it.
pub uninterp spec fn unicode_lowercase(s: Seq<char>) -> Seq<char>;

/// The upper case of a text that is not ASCII, as the Unicode tables of the standard library
/// give it.
pub uninterp spec fn unicode_uppercase(s: Seq<char>) -> Seq<char>;

/// A character that is not ASCII is a letter or a number by the Unicode tables of the standard
/// library.
pub uninterp spec fn unicode_alphanumeric(c: char) -> bool;

/// `str::to_lowercase`: of a text in ASCII the text with its capitals made small. Of any other
/// text the result is that of the text with its ASCII capitals made small: they are lowered
/// beside the other letters, and what becomes of these depends at most on whether letters stand
/// around them (a sigma at the end of a word), not on the case of those. How the other letters
/// change is not said.
pub assume_specification[ str::to_lowercase ](s: &str) -> (r: String)
    ensures
        is_ascii_chars(s@) ==> r@ == ascii_lowercase(s@),
        !is_ascii_chars(s@) ==> r@ == unicode_lowercase(ascii_lowercase(s@)),
;

/// `str::to_uppercase`: of a text in ASCII the text with its small letters made capitals. Of any
/// other text the result depends on its characters alone; how its letters change is not said.
pub assume_specification[ str::to_uppercase ](s: &str) -> (r: String)
    ensures
        is_ascii_chars(s@) ==> r@ == ascii_uppercase(s@),
        !is_ascii_chars(s@) ==> r@ == unicode_uppercase(s@),
;

/// `char::is_whitespace`: whether `c` has the Unicode property `White_Space`.
pub assume_specification[ char::is_whitespace ](c: char) -> (r: bool)
    ensures
        r == whitespace(c),
;

/// `char::is_alphanumeric`: of the ASCII characters the letters and digits. Of any other
/// character the result depends on it alone.
pub assume_specification[ char::is_alphanumeric ](c: char) -> (r: bool)
    ensures
        c <= '\u{7f}' ==> r == is_ascii_letter_or_digit(c),
        c > '\u{7f}' ==> r == unicode_alphanumeric(c),
;

/// `String::push`: appends the character `c`.
pub assume_specification[ String::push ](s: &mut String, c: char)
    ensures
        final(s)@ == old(s)@.push(c),
;

}

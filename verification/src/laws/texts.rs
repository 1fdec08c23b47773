//! Texts: what the operations on them keep and what they take away.

use vstd::prelude::*;

use crate::text;

verus! {

broadcast use vstd::string::group_string_axioms;

proof fn lemma_nothing_replaced(s: Seq<char>, p: Seq<char>, r: Seq<char>, i: int)
    requires
        0 <= i <= s.len(),
        p.len() > 0,
        forall|k: int| i <= k ==> !#[trigger] text::occurs_at(s, p, k),
    ensures
        text::replaced_from(s, p, r, i) == s.skip(i),
    decreases s.len() - i,
{
    if i < s.len() {
        lemma_nothing_replaced(s, p, r, i + 1);
        assert(seq![s[i]] + s.skip(i + 1) =~= s.skip(i));
    } else {
        assert(s.skip(i) =~= Seq::<char>::empty());
    }
}

/// Where a text has a mark at its start and the mark's first letter nowhere behind it, removing the
/// mark leaves what stands behind it.
pub proof fn lemma_mark_removed(mark: Seq<char>, rest: Seq<char>)
    requires
        mark.len() > 0,
        !rest.contains(mark[0]),
    ensures
        text::replaced(mark + rest, mark, ""@) == rest,
{
    let s = mark + rest;
    let n = mark.len() as int;
    reveal_strlit("");
    assert(s.subrange(0, n) =~= mark);
    assert forall|k: int| n <= k implies !#[trigger] text::occurs_at(s, mark, k) by {
        if text::occurs_at(s, mark, k) {
            assert(s.subrange(k, k + n)[0] == mark[0]);
            assert(rest[k - n] == mark[0]);
            assert(rest.contains(mark[0]));
        }
    }
    lemma_nothing_replaced(s, mark, ""@, n);
    assert(s.skip(n) =~= rest);
    assert(""@ + rest =~= rest);
}

pub proof fn lemma_hyphens(s: Seq<char>)
    ensures
        text::char_replaced(s, '-', "."@).len() == s.len(),
        forall|i: int|
            0 <= i < s.len() ==> #[trigger] text::char_replaced(s, '-', "."@)[i] == (if s[i] == '-' { '.' } else { s[i] }),
    decreases s.len(),
{
    reveal_strlit(".");
    if s.len() > 0 {
        lemma_hyphens(s.drop_last());
    }
}

/// What is put between two texts stands in the whole.
pub proof fn lemma_stands_between(a: Seq<char>, p: Seq<char>, b: Seq<char>)
    ensures
        text::has(a + p + b, p),
{
    assert((a + p + b).subrange(a.len() as int, (a.len() + p.len()) as int) =~= p);
    assert(text::occurs_at(a + p + b, p, a.len() as int));
}

/// What stands in a part stands in the whole.
pub proof fn lemma_stands_in_the_whole(a: Seq<char>, s: Seq<char>, b: Seq<char>, p: Seq<char>)
    requires
        text::has(s, p),
    ensures
        text::has(a + s + b, p),
{
    let i = choose|i: int| text::occurs_at(s, p, i);
    let n = a.len() as int;
    assert((a + s + b).subrange(n + i, n + i + p.len()) =~= s.subrange(i, i + p.len()));
    assert(text::occurs_at(a + s + b, p, n + i));
}

/// A number that is written out is read back.
pub proof fn written_numbers_are_read_back(n: nat, max: nat)
    requires
        n <= max,
    ensures
        text::parsed_unsigned(text::decimal(n), max) == Some(n),
        text::decimal(n).len() > 0,
        n > 0 ==> text::decimal(n)[0] != '0',
{
    lemma_decimal(n);
    let s = text::decimal(n);
    assert(text::is_digit(s[0]));
}

proof fn lemma_decimal(n: nat)
    ensures
        text::decimal(n).len() > 0,
        text::all_digits(text::decimal(n)),
        text::digits_value(text::decimal(n)) == n,
        n > 0 ==> text::decimal(n)[0] != '0',
    decreases n,
{
    let s = text::decimal(n);
    if n < 10 {
        assert(s.drop_last() =~= Seq::<char>::empty());
        assert(text::digits_value(s.drop_last()) == 0);
    } else {
        lemma_decimal(n / 10);
        let before = text::decimal(n / 10);
        assert(s.drop_last() =~= before);
        assert forall|i: int| 0 <= i < s.len() implies text::is_digit(#[trigger] s[i]) by {
            if i < before.len() {
                assert(s[i] == before[i]);
            }
        }
        assert(s[0] == before[0]);
    }
}

/// Trimming takes white space at both ends, all of it, and nothing else.
pub proof fn trimming_takes_the_space_around(s: Seq<char>)
    ensures
        ({
            let t = text::trimmed(s);
            &&& t.len() > 0 ==> !text::whitespace(t.first()) && !text::whitespace(t.last())
            &&& exists|before: Seq<char>, after: Seq<char>|
                s == #[trigger] (before + t + after) && text::all_whitespace(before) && text::all_whitespace(after)
        }),
{
    let e = text::end_trimmed(s);
    let t = text::trimmed(s);
    lemma_end_trimmed(s);
    lemma_start_trimmed(e);
    let after = s.skip(e.len() as int);
    let before = e.take(e.len() - t.len());
    assert(s =~= before + t + after);
    assert forall|i: int| 0 <= i < after.len() implies text::whitespace(#[trigger] after[i]) by {
        assert(after[i] == s[e.len() + i]);
    }
    assert forall|i: int| 0 <= i < before.len() implies text::whitespace(#[trigger] before[i]) by {
        assert(before[i] == e[i]);
    }
    if t.len() > 0 {
        assert(t.last() == e.last());
    }
}

proof fn lemma_end_trimmed(s: Seq<char>)
    ensures
        text::end_trimmed(s).len() <= s.len(),
        text::end_trimmed(s) == s.take(text::end_trimmed(s).len() as int),
        forall|i: int| text::end_trimmed(s).len() <= i < s.len() ==> text::whitespace(#[trigger] s[i]),
        text::end_trimmed(s).len() > 0 ==> !text::whitespace(text::end_trimmed(s).last()),
    decreases s.len(),
{
    if s.len() > 0 && text::whitespace(s.last()) {
        let rest = s.drop_last();
        let e = text::end_trimmed(s);
        lemma_end_trimmed(rest);
        assert(s.take(e.len() as int) =~= rest.take(e.len() as int));
        assert forall|i: int| e.len() <= i < s.len() implies text::whitespace(#[trigger] s[i]) by {
            if i < rest.len() {
                assert(rest[i] == s[i]);
            }
        }
    } else {
        assert(s.take(s.len() as int) =~= s);
    }
}

proof fn lemma_start_trimmed(s: Seq<char>)
    ensures
        text::start_trimmed(s).len() <= s.len(),
        text::start_trimmed(s) == s.skip(s.len() - text::start_trimmed(s).len()),
        forall|i: int| 0 <= i < s.len() - text::start_trimmed(s).len() ==> text::whitespace(#[trigger] s[i]),
        text::start_trimmed(s).len() > 0 ==> !text::whitespace(text::start_trimmed(s).first()),
    decreases s.len(),
{
    if s.len() > 0 && text::whitespace(s.first()) {
        let rest = s.drop_first();
        let e = text::start_trimmed(s);
        lemma_start_trimmed(rest);
        assert(s.skip(s.len() - e.len()) =~= rest.skip(rest.len() - e.len()));
        assert forall|i: int| 0 <= i < s.len() - e.len() implies text::whitespace(#[trigger] s[i]) by {
            if i > 0 {
                assert(rest[i - 1] == s[i]);
            }
        }
    } else {
        assert(s.skip(0) =~= s);
    }
}

/// The pieces of a text between the characters `c` make up the text again, and none of them has
/// that character.
pub proof fn pieces_make_up_the_text(s: Seq<char>, c: char)
    ensures
        text::split_at_char(s, c).len() > 0,
        text::joined(text::split_at_char(s, c), seq![c]) == s,
        forall|i: int| 0 <= i < text::split_at_char(s, c).len() ==> !(#[trigger] text::split_at_char(s, c)[i]).contains(c),
    decreases s.len(),
{
    let parts = text::split_at_char(s, c);
    if s.len() == 0 {
        assert(parts[0] =~= s);
    } else {
        let rest = s.drop_last();
        let before = text::split_at_char(rest, c);
        pieces_make_up_the_text(rest, c);
        if s.last() == c {
            assert(parts.drop_last() =~= before);
            assert(text::joined(parts, seq![c]) =~= rest + seq![c] + Seq::<char>::empty());
            assert(rest + seq![c] + Seq::<char>::empty() =~= s);
        } else {
            let last = before.last();
            let longer = last.push(s.last());
            assert(!last.contains(c)) by {
                assert(!before[before.len() - 1].contains(c));
            }
            assert(!longer.contains(c)) by {
                if longer.contains(c) {
                    let i = longer.index_of(c);
                    if i < last.len() {
                        assert(last[i] == c);
                    }
                }
            }
            assert forall|i: int| 0 <= i < parts.len() implies !(#[trigger] parts[i]).contains(c) by {
                if i < parts.len() - 1 {
                    assert(parts[i] == before[i]);
                }
            }
            if before.len() == 1 {
                assert(parts[0] =~= s);
            } else {
                assert(parts.drop_last() =~= before.drop_last());
                let head = text::joined(before.drop_last(), seq![c]);
                assert(head + seq![c] + longer =~= (head + seq![c] + last).push(s.last()));
                assert(rest.push(s.last()) =~= s);
            }
        }
    }
}

/// Striking characters leaves none of them and keeps all others, in order.
pub proof fn struck_characters_are_gone(s: Seq<char>, drop: Seq<char>, c: char)
    ensures
        text::without(s.push(c), drop) == if drop.contains(c) {
            text::without(s, drop)
        } else {
            text::without(s, drop).push(c)
        },
        text::without(Seq::empty(), drop).len() == 0,
{
    assert(s.push(c).drop_last() =~= s);
}

/// Keeping letters and digits keeps exactly these, in order.
pub proof fn letters_and_digits_are_kept(s: Seq<char>, c: char)
    ensures
        'a' <= c <= 'z' || 'A' <= c <= 'Z' || '0' <= c <= '9' ==> text::alphanumeric_part(s.push(c), Seq::empty())
            == text::alphanumeric_part(s, Seq::empty()).push(c),
        c == ' ' || c == '-' || c == '_' || c == '.' || c == ':' || c == '/' ==> text::alphanumeric_part(s.push(c), Seq::empty())
            == text::alphanumeric_part(s, Seq::empty()),
        text::alphanumeric_part(Seq::empty(), Seq::empty()).len() == 0,
{
    assert(s.push(c).drop_last() =~= s);
    assert(!Seq::<char>::empty().contains(c));
}

/// What stands in a text stands in it with more behind it.
pub proof fn lemma_stands_with_more(s: Seq<char>, more: Seq<char>, p: Seq<char>)
    requires
        text::has(s, p),
    ensures
        text::has(s + more, p),
{
    let i = choose|i: int| text::occurs_at(s, p, i);
    assert((s + more).subrange(i, i + p.len()) =~= s.subrange(i, i + p.len()));
    assert(text::occurs_at(s + more, p, i));
}

/// Removing a mark whose first letter stands nowhere else leaves what stands around it.
pub proof fn lemma_mark_removed_within(a: Seq<char>, mark: Seq<char>, b: Seq<char>)
    requires
        mark.len() > 0,
        !a.contains(mark[0]),
        !b.contains(mark[0]),
    ensures
        text::replaced(a + mark + b, mark, ""@) == a + b,
{
    let s = a + mark + b;
    lemma_removed_behind(a, mark, b, 0);
    assert(a.skip(0) =~= a);
}

proof fn lemma_removed_behind(a: Seq<char>, mark: Seq<char>, b: Seq<char>, i: int)
    requires
        mark.len() > 0,
        !a.contains(mark[0]),
        !b.contains(mark[0]),
        0 <= i <= a.len(),
    ensures
        text::replaced_from(a + mark + b, mark, ""@, i) == a.skip(i) + b,
    decreases a.len() - i,
{
    let s = a + mark + b;
    let n = mark.len() as int;
    let m = a.len() as int;
    reveal_strlit("");
    if i < m {
        assert(!text::occurs_at(s, mark, i)) by {
            if text::occurs_at(s, mark, i) {
                assert(s.subrange(i, i + n)[0] == mark[0]);
                assert(a.contains(a[i]));
            }
        }
        lemma_removed_behind(a, mark, b, i + 1);
        assert(seq![s[i]] + (a.skip(i + 1) + b) =~= a.skip(i) + b);
    } else {
        assert(s.subrange(m, m + n) =~= mark);
        assert forall|k: int| m + n <= k implies !#[trigger] text::occurs_at(s, mark, k) by {
            if text::occurs_at(s, mark, k) {
                assert(s.subrange(k, k + n)[0] == mark[0]);
                assert(b[k - m - n] == mark[0]);
                assert(b.contains(mark[0]));
            }
        }
        lemma_nothing_replaced(s, mark, ""@, m + n);
        assert(""@ + s.skip(m + n) =~= a.skip(i) + b);
    }
}

/// Where the first letter of a mark does not stand, nothing is removed.
pub proof fn lemma_no_mark(s: Seq<char>, mark: Seq<char>)
    requires
        mark.len() > 0,
        !s.contains(mark[0]),
    ensures
        text::replaced(s, mark, ""@) == s,
        !text::has(s, mark),
{
    assert forall|k: int| !#[trigger] text::occurs_at(s, mark, k) by {
        if text::occurs_at(s, mark, k) {
            assert(s.subrange(k, k + mark.len())[0] == mark[0]);
            assert(s.contains(s[k]));
        }
    }
    lemma_nothing_replaced(s, mark, ""@, 0);
    assert(s.skip(0) =~= s);
}

/// Where a mark does not stand, nothing is removed.
pub proof fn lemma_absent_mark(s: Seq<char>, mark: Seq<char>)
    requires
        mark.len() > 0,
        !text::has(s, mark),
    ensures
        text::replaced(s, mark, ""@) == s,
{
    assert forall|k: int| !#[trigger] text::occurs_at(s, mark, k) by {}
    lemma_nothing_replaced(s, mark, ""@, 0);
    assert(s.skip(0) =~= s);
}

/// A number of at most 255, written out, is a part of an address.
pub proof fn numbers_are_octets(n: nat)
    requires
        n <= 255,
    ensures
        text::is_octet(text::decimal(n)),
        text::all_digits(text::decimal(n)),
        !text::decimal(n).contains('.'),
        !text::decimal(n).contains('-'),
{
    lemma_decimal(n);
    let s = text::decimal(n);
    reveal_with_fuel(text::decimal, 4);
    assert(s.len() <= 3);
    if s.len() > 1 {
        assert(n >= 10);
    }
    assert forall|c: char| s.contains(c) implies text::is_digit(c) by {
        let i = s.index_of(c);
        assert(text::is_digit(s[i]));
    }
}

/// A part of an address is a number of at most 255, written out.
pub proof fn octets_are_numbers(s: Seq<char>)
    requires
        text::is_octet(s),
    ensures
        s == text::decimal(text::digits_value(s)),
        text::digits_value(s) <= 255,
{
    lemma_digits_are_decimal(s);
}

proof fn lemma_digits_are_decimal(s: Seq<char>)
    requires
        s.len() > 0,
        text::all_digits(s),
        s.len() > 1 ==> s[0] != '0',
    ensures
        s == text::decimal(text::digits_value(s)),
        s.len() > 1 ==> text::digits_value(s) >= 10,
        s[0] != '0' ==> text::digits_value(s) > 0,
    decreases s.len(),
{
    let rest = s.drop_last();
    let last = s.last();
    assert(text::is_digit(s[s.len() - 1]));
    let d = (last as nat - '0' as nat) as nat;
    assert(text::digit_char(d) == last);
    if s.len() == 1 {
        assert(rest =~= Seq::<char>::empty());
        assert(text::digits_value(rest) == 0);
        assert(s =~= seq![last]);
    } else {
        assert forall|i: int| 0 <= i < rest.len() implies text::is_digit(#[trigger] rest[i]) by {
            assert(text::is_digit(s[i]));
        }
        assert(rest[0] == s[0]);
        lemma_digits_are_decimal(rest);
        let v = text::digits_value(s);
        assert(v == text::digits_value(rest) * 10 + d);
        assert(v / 10 == text::digits_value(rest) && v % 10 == d);
        assert(rest.push(last) =~= s);
    }
}

/// A text without the character is one piece.
pub proof fn lemma_split_piece(s: Seq<char>, c: char)
    requires
        !s.contains(c),
    ensures
        text::split_at_char(s, c) == seq![s],
    decreases s.len(),
{
    if s.len() > 0 {
        assert(s.contains(s[s.len() - 1]));
        assert(!s.drop_last().contains(c)) by {
            if s.drop_last().contains(c) {
                assert(s[s.drop_last().index_of(c)] == c);
            }
        }
        lemma_split_piece(s.drop_last(), c);
        let before = text::split_at_char(s.drop_last(), c);
        assert(before.last() == s.drop_last());
        assert(s.drop_last().push(s.last()) =~= s);
        assert(text::split_at_char(s, c) =~= seq![s]);
    } else {
        assert(s =~= Seq::<char>::empty());
        assert(text::split_at_char(s, c) =~= seq![s]);
    }
}

/// A further piece behind a further character is a piece more.
pub proof fn lemma_split_more(a: Seq<char>, b: Seq<char>, c: char)
    requires
        !b.contains(c),
    ensures
        text::split_at_char(a + seq![c] + b, c) == text::split_at_char(a, c).push(b),
    decreases b.len(),
{
    let s = a + seq![c] + b;
    if b.len() == 0 {
        assert(s.drop_last() =~= a);
        assert(s.last() == c);
        assert(b =~= Seq::<char>::empty());
    } else {
        let rest = b.drop_last();
        assert(b.contains(b[b.len() - 1]));
        assert(!rest.contains(c)) by {
            if rest.contains(c) {
                assert(b[rest.index_of(c)] == c);
            }
        }
        lemma_split_more(a, rest, c);
        assert(s.drop_last() =~= a + seq![c] + rest);
        assert(s.last() == b.last());
        let before = text::split_at_char(s.drop_last(), c);
        assert(before.last() == rest);
        assert(rest.push(b.last()) =~= b);
        assert(before.drop_last() =~= text::split_at_char(a, c));
    }
}

/// A character that is replaced by one other leaves all the rest in its place.
pub proof fn lemma_one_replaced(s: Seq<char>, c: char, r: Seq<char>)
    requires
        r.len() == 1,
    ensures
        text::char_replaced(s, c, r).len() == s.len(),
        forall|i: int|
            0 <= i < s.len() ==> #[trigger] text::char_replaced(s, c, r)[i] == (if s[i] == c { r[0] } else { s[i] }),
    decreases s.len(),
{
    if s.len() > 0 {
        lemma_one_replaced(s.drop_last(), c, r);
    }
}

/// The pieces of two texts with the character between them are the pieces of both.
pub proof fn lemma_split_both(a: Seq<char>, b: Seq<char>, c: char)
    ensures
        text::split_at_char(a + seq![c] + b, c) == text::split_at_char(a, c) + text::split_at_char(b, c),
        text::split_at_char(b, c).len() > 0,
    decreases b.len(),
{
    let s = a + seq![c] + b;
    if b.len() == 0 {
        assert(s.drop_last() =~= a);
        assert(s.last() == c);
        assert(b =~= Seq::<char>::empty());
        assert(text::split_at_char(s, c) =~= text::split_at_char(a, c) + text::split_at_char(b, c));
    } else {
        let rest = b.drop_last();
        lemma_split_both(a, rest, c);
        assert(s.drop_last() =~= a + seq![c] + rest);
        assert(s.last() == b.last());
        let before = text::split_at_char(s.drop_last(), c);
        let own = text::split_at_char(rest, c);
        assert(before.last() == own.last());
        assert(text::split_at_char(s, c) =~= text::split_at_char(a, c) + text::split_at_char(b, c));
    }
}

/// The first bytes of an ASCII text are its first characters.
pub proof fn lemma_ascii_head(s: Seq<char>, n: int)
    requires
        vstd::utf8::is_ascii_chars(s),
        0 <= n <= s.len(),
    ensures
        text::first_bytes(s, n) == s.take(n),
{
    vstd::utf8::is_ascii_chars_encode_utf8(s);
    vstd::utf8::is_ascii_chars_encode_utf8(s.take(n));
    assert(vstd::utf8::encode_utf8(s).subrange(0, n) =~= vstd::utf8::encode_utf8(s.take(n)));
    vstd::utf8::encode_utf8_decode_utf8(s.take(n));
}

/// What stands in a text stands in it with four more texts behind it.
pub proof fn lemma_stands_with_four(s: Seq<char>, a: Seq<char>, b: Seq<char>, c: Seq<char>, d: Seq<char>, p: Seq<char>)
    requires
        text::has(s, p),
    ensures
        text::has(s + a + b + c + d, p),
{
    lemma_stands_with_more(s, a, p);
    lemma_stands_with_more(s + a, b, p);
    lemma_stands_with_more(s + a + b, c, p);
    lemma_stands_with_more(s + a + b + c, d, p);
}

/// What stands at the end of a text stands in it.
pub proof fn lemma_stands_at_the_end(a: Seq<char>, p: Seq<char>)
    ensures
        text::has(a + p, p),
{
    lemma_stands_between(a, p, Seq::empty());
    assert(a + p + Seq::<char>::empty() =~= a + p);
}

/// It does not matter in which order texts are put together.
proof fn lemma_together(a: Seq<char>, b: Seq<char>, c: Seq<char>)
    ensures
        a + (b + c) == a + b + c,
{
    assert(a + (b + c) =~= a + b + c);
}

/// What two texts make stands where they are put one behind the other.
pub proof fn lemma_two_in_a_row(
    s: Seq<char>,
    a: Seq<char>,
    b: Seq<char>,
)
    ensures
        text::has(s + a + b, a + b),
{
    lemma_stands_at_the_end(s, a + b);
    lemma_together(s, a, b);
}

/// What three texts make stands where they are put one behind the other.
pub proof fn lemma_three_in_a_row(
    s: Seq<char>,
    a: Seq<char>,
    b: Seq<char>,
    c: Seq<char>,
)
    ensures
        text::has(s + a + b + c, a + b + c),
{
    lemma_stands_at_the_end(s, a + b + c);
    lemma_together(s, a, b);
    lemma_together(s, a + b, c);
}

/// What four texts make stands where they are put one behind the other.
pub proof fn lemma_four_in_a_row(
    s: Seq<char>,
    a: Seq<char>,
    b: Seq<char>,
    c: Seq<char>,
    d: Seq<char>,
)
    ensures
        text::has(s + a + b + c + d, a + b + c + d),
{
    lemma_stands_at_the_end(s, a + b + c + d);
    lemma_together(s, a, b);
    lemma_together(s, a + b, c);
    lemma_together(s, a + b + c, d);
}

/// What seven texts make stands where they are put one behind the other.
pub proof fn lemma_seven_in_a_row(
    s: Seq<char>,
    a: Seq<char>,
    b: Seq<char>,
    c: Seq<char>,
    d: Seq<char>,
    e: Seq<char>,
    f: Seq<char>,
    g: Seq<char>,
)
    ensures
        text::has(s + a + b + c + d + e + f + g, a + b + c + d + e + f + g),
{
    lemma_stands_at_the_end(s, a + b + c + d + e + f + g);
    lemma_together(s, a, b);
    lemma_together(s, a + b, c);
    lemma_together(s, a + b + c, d);
    lemma_together(s, a + b + c + d, e);
    lemma_together(s, a + b + c + d + e, f);
    lemma_together(s, a + b + c + d + e + f, g);
}

/// The first place at which a text stands is found.
pub proof fn lemma_first_place(s: Seq<char>, p: Seq<char>, from: int, at: int)
    requires
        0 <= from <= at,
        text::occurs_at(s, p, at),
        forall|i: int| from <= i < at ==> !#[trigger] text::occurs_at(s, p, i),
    ensures
        text::find_from(s, p, from) == Some(at),
    decreases at - from,
{
    if from < at {
        lemma_first_place(s, p, from + 1, at);
    }
}

/// Small and large letters of ASCII texts are made letter by letter, and nothing else changes.
pub proof fn letters_are_made_small_and_large(s: Seq<char>, i: int)
    requires
        vstd::utf8::is_ascii_chars(s),
        0 <= i < s.len(),
    ensures
        text::lowercase(s).len() == s.len(),
        text::uppercase(s).len() == s.len(),
        'A' <= s[i] <= 'Z' ==> text::lowercase(s)[i] as int == s[i] as int + 32 && text::uppercase(s)[i] == s[i],
        'a' <= s[i] <= 'z' ==> text::uppercase(s)[i] as int == s[i] as int - 32 && text::lowercase(s)[i] == s[i],
        !('A' <= s[i] <= 'Z' || 'a' <= s[i] <= 'z') ==> text::lowercase(s)[i] == s[i] && text::uppercase(s)[i] == s[i],
{
}

/// A text stands in another exactly where that one is the text with something before and something behind it.
pub proof fn texts_stand_where_they_stand(s: Seq<char>, p: Seq<char>)
    ensures
        text::has(s, p) <==> exists|a: Seq<char>, b: Seq<char>| s == #[trigger] (a + p + b),
{
    if text::has(s, p) {
        let i = choose|i: int| text::occurs_at(s, p, i);
        let a = s.take(i);
        let b = s.skip(i + p.len());
        assert(s =~= a + s.subrange(i, i + p.len()) + b);
        assert(s == a + p + b);
    }
    if exists|a: Seq<char>, b: Seq<char>| s == #[trigger] (a + p + b) {
        let (a, b) = choose|a: Seq<char>, b: Seq<char>| s == #[trigger] (a + p + b);
        lemma_stands_between(a, p, b);
    }
}

/// Texts are ordered by the first character in which they differ, and a text comes before its continuations.
pub proof fn texts_are_ordered_by_their_first_difference(a: Seq<char>, b: Seq<char>, k: int)
    requires
        0 <= k <= a.len(),
        k <= b.len(),
        forall|i: int| 0 <= i < k ==> #[trigger] a[i] == b[i],
    ensures
        k < a.len() && k < b.len() && a[k] < b[k] ==> text::at_most(a, b) && !text::at_most(b, a),
        k == a.len() ==> text::at_most(a, b),
        k == a.len() && a.len() < b.len() ==> !text::at_most(b, a),
{
    lemma_ordered(a, b, 0, k);
    lemma_ordered(b, a, 0, k);
}

proof fn lemma_ordered(a: Seq<char>, b: Seq<char>, from: int, k: int)
    requires
        0 <= from <= k <= a.len(),
        k <= b.len(),
        forall|i: int| 0 <= i < k ==> #[trigger] a[i] == b[i],
    ensures
        text::at_most_from(a, b, from) == text::at_most_from(a, b, k),
    decreases k - from,
{
    if from < k {
        lemma_ordered(a, b, from + 1, k);
    }
}

/// A negative number is written with its sign.
pub proof fn signs_are_written(n: int)
    ensures
        n >= 0 ==> text::signed_decimal(n) == text::decimal(n as nat),
        n < 0 ==> text::signed_decimal(n) == seq!['-'] + text::decimal((-n) as nat),
{
}

}

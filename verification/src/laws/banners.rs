//! What is read from the answer of a web server.

use vstd::prelude::*;
use vstd::utf8::is_ascii_chars;

use crate::analyzer;
use crate::laws::texts;
use crate::text;

verus! {

broadcast use vstd::string::group_string_axioms;

proof fn lemma_server_line(lines: Seq<Seq<char>>, j: int)
    requires
        0 <= j < lines.len(),
        "server:"@.is_prefix_of(text::lowercase(lines[j])),
        forall|i: int| 0 <= i < j ==> !"server:"@.is_prefix_of(text::lowercase(#[trigger] lines[i])),
    ensures
        analyzer::server_line(lines) == Some(lines[j]),
    decreases lines.len(),
{
    let rest = lines.drop_last();
    if j < lines.len() - 1 {
        assert(rest[j] == lines[j]);
        assert forall|i: int| 0 <= i < j implies !"server:"@.is_prefix_of(text::lowercase(#[trigger] rest[i])) by {
            assert(rest[i] == lines[i]);
        }
        lemma_server_line(rest, j);
    } else {
        assert forall|i: int| 0 <= i < rest.len() implies !"server:"@.is_prefix_of(text::lowercase(#[trigger] rest[i])) by {
            assert(rest[i] == lines[i]);
        }
        lemma_no_server_line(rest);
    }
}

proof fn lemma_no_server_line(lines: Seq<Seq<char>>)
    requires
        forall|i: int| 0 <= i < lines.len() ==> !"server:"@.is_prefix_of(text::lowercase(#[trigger] lines[i])),
    ensures
        analyzer::server_line(lines) is None,
    decreases lines.len(),
{
    if lines.len() > 0 {
        let rest = lines.drop_last();
        assert(lines[lines.len() - 1] == lines.last());
        assert forall|i: int| 0 <= i < rest.len() implies !"server:"@.is_prefix_of(text::lowercase(#[trigger] rest[i])) by {
            assert(rest[i] == lines[i]);
        }
        lemma_no_server_line(rest);
    }
}

/// A line that begins with another letter names no server.
proof fn lemma_other_line(line: Seq<char>)
    requires
        is_ascii_chars(line),
        line.len() > 0 ==> line[0] != 's' && line[0] != 'S',
    ensures
        !"server:"@.is_prefix_of(text::lowercase(line)),
{
    reveal_strlit("server:");
    if "server:"@.is_prefix_of(text::lowercase(line)) {
        assert(text::lowercase(line)[0] == "server:"@[0]);
        assert(text::lowercase(line)[0] == text::ascii_small(line[0]));
    }
}

/// The server is what stands behind the key in the line for it, without the space around it and whatever
/// the case of the key.
pub proof fn the_server_is_read_from_its_line(first: Seq<char>, key: Seq<char>, server: Seq<char>, more: Seq<char>)
    requires
        !first.contains('\n'),
        is_ascii_chars(first),
        first.len() > 0 ==> first[0] != 's' && first[0] != 'S',
        is_ascii_chars(key),
        text::lowercase(key) == "server:"@,
        is_ascii_chars(server),
        !server.contains('\n'),
    ensures
        analyzer::banner_server(first + seq!['\n'] + key + server + seq!['\r', '\n'] + more) == Some(
            text::trimmed(server),
        ),
{
    reveal_strlit("server:");
    let line = key + server;
    let held = line + seq!['\r'];
    let answer = first + seq!['\n'] + key + server + seq!['\r', '\n'] + more;
    assert(key.len() == 7);
    assert(!key.contains('\n')) by {
        if key.contains('\n') {
            let i = key.index_of('\n');
            assert(text::lowercase(key)[i] == text::ascii_small(key[i]));
            assert("server:"@[i] == '\n');
        }
    }
    assert(!held.contains('\n')) by {
        if held.contains('\n') {
            let i = held.index_of('\n');
            assert(held[i] == '\n');
            if i < 7 {
                assert(key[i] == '\n');
            } else if i < 7 + server.len() {
                assert(server[i - 7] == '\n');
            }
        }
    }
    let front = first + seq!['\n'] + held;
    assert(answer =~= front + seq!['\n'] + more);
    texts::lemma_split_piece(first, '\n');
    texts::lemma_split_more(first, held, '\n');
    texts::lemma_split_both(front, more, '\n');
    let parts = text::split_at_char(answer, '\n');
    assert(parts[0] == first);
    assert(parts[1] == held);
    let lines = analyzer::lines(parts);
    assert(held.drop_last() =~= line);
    assert(lines[1] == line);
    assert(lines[0] == analyzer::without_return(first));
    assert(is_ascii_chars(lines[0]));
    lemma_other_line(lines[0]);
    assert(is_ascii_chars(line));
    assert(text::lowercase(line).subrange(0, 7) =~= text::lowercase(key));
    assert("server:"@.is_prefix_of(text::lowercase(line)));
    lemma_server_line(lines, 1);
    text::lemma_ascii_tail(line, 7);
    assert(line.skip(7) =~= server);
}

/// An answer without a line for the server tells none.
pub proof fn answers_without_the_line_tell_no_server(answer: Seq<char>)
    requires
        is_ascii_chars(answer),
        answer.len() > 0 ==> answer[0] != 's' && answer[0] != 'S',
        forall|i: int| 0 <= i < answer.len() - 1 && #[trigger] answer[i] == '\n' ==> answer[i + 1] != 's' && answer[i + 1] != 'S',
    ensures
        analyzer::banner_server(answer) is None,
{
    let parts = text::split_at_char(answer, '\n');
    lemma_pieces(answer);
    let lines = analyzer::lines(parts);
    assert forall|i: int| 0 <= i < lines.len() implies !"server:"@.is_prefix_of(text::lowercase(#[trigger] lines[i])) by {
        let p = parts[i];
        assert(is_ascii_chars(lines[i]));
        lemma_other_line(lines[i]);
    }
    lemma_no_server_line(lines);
}

proof fn lemma_pieces(s: Seq<char>)
    requires
        is_ascii_chars(s),
        s.len() > 0 ==> s[0] != 's' && s[0] != 'S',
        forall|i: int| 0 <= i < s.len() - 1 && #[trigger] s[i] == '\n' ==> s[i + 1] != 's' && s[i + 1] != 'S',
    ensures
        ({
            let parts = text::split_at_char(s, '\n');
            &&& parts.len() > 0
            &&& s.len() > 0 && parts.last().len() == 0 ==> s.last() == '\n'
            &&& forall|k: int|
                0 <= k < parts.len() ==> is_ascii_chars(#[trigger] parts[k]) && (parts[k].len() > 0 ==> parts[k][0] != 's'
                    && parts[k][0] != 'S')
        }),
    decreases s.len(),
{
    let parts = text::split_at_char(s, '\n');
    if s.len() > 0 {
        let rest = s.drop_last();
        assert forall|i: int| 0 <= i < rest.len() - 1 && #[trigger] rest[i] == '\n' implies rest[i + 1] != 's' && rest[i + 1]
            != 'S' by {
            assert(s[i] == '\n');
        }
        lemma_pieces(rest);
        let before = text::split_at_char(rest, '\n');
        if s.last() != '\n' {
            let l = before.last().push(s.last());
            assert(parts.last() == l);
            assert(before[before.len() - 1] == before.last());
            if before.last().len() == 0 {
                if rest.len() > 0 {
                    assert(rest.last() == '\n');
                    assert(s[s.len() - 2] == '\n');
                }
                assert(l[0] == s.last());
            } else {
                assert(l[0] == before.last()[0]);
            }
            assert(is_ascii_chars(l));
            assert forall|k: int| 0 <= k < parts.len() implies is_ascii_chars(#[trigger] parts[k]) && (parts[k].len() > 0
                ==> parts[k][0] != 's' && parts[k][0] != 'S') by {
                if k < parts.len() - 1 {
                    assert(parts[k] == before[k]);
                }
            }
        } else {
            assert forall|k: int| 0 <= k < parts.len() implies is_ascii_chars(#[trigger] parts[k]) && (parts[k].len() > 0
                ==> parts[k][0] != 's' && parts[k][0] != 'S') by {
                if k < parts.len() - 1 {
                    assert(parts[k] == before[k]);
                }
            }
        }
    }
}

/// The title is what stands between the first opening mark and the next closing one, without the space around
/// it.
pub proof fn the_title_is_read_from_its_marks(before: Seq<char>, title: Seq<char>, after: Seq<char>)
    requires
        is_ascii_chars(before),
        is_ascii_chars(title),
        is_ascii_chars(after),
        !before.contains('<'),
        !title.contains('<'),
    ensures
        analyzer::banner_title(before + "<title>"@ + title + "</title>"@ + after) == Some(text::trimmed(title)),
{
    reveal_strlit("<title>");
    reveal_strlit("</title>");
    let open = "<title>"@;
    let close = "</title>"@;
    let answer = before + open + title + close + after;
    assert(is_ascii_chars(open));
    assert(is_ascii_chars(close));
    assert(is_ascii_chars(answer));
    let small = text::lowercase(answer);
    let n = before.len() as int;
    assert(small.subrange(n, n + 7) =~= open);
    assert forall|i: int| 0 <= i < n implies !#[trigger] text::occurs_at(small, open, i) by {
        if text::occurs_at(small, open, i) {
            assert(small.subrange(i, i + 7)[0] == open[0]);
            assert(small[i] == text::ascii_small(before[i]));
            assert(before.contains(before[i]));
        }
    }
    texts::lemma_first_place(small, open, 0, n);
    assert(is_ascii_chars(small.take(n)));
    text::lemma_ascii_tail(small.take(n), 0);
    text::lemma_ascii_tail(answer, n + 7);
    let rest = title + close + after;
    assert(answer.skip(n + 7) =~= rest);
    assert(analyzer::behind_title_mark(answer) == Some(rest));
    let small_rest = text::lowercase(rest);
    let m = title.len() as int;
    assert(is_ascii_chars(rest));
    assert(small_rest.subrange(m, m + 8) =~= close);
    assert forall|i: int| 0 <= i < m implies !#[trigger] text::occurs_at(small_rest, close, i) by {
        if text::occurs_at(small_rest, close, i) {
            assert(small_rest.subrange(i, i + 8)[0] == close[0]);
            assert(small_rest[i] == text::ascii_small(title[i]));
            assert(title.contains(title[i]));
        }
    }
    texts::lemma_first_place(small_rest, close, 0, m);
    assert(is_ascii_chars(small_rest.take(m)));
    text::lemma_ascii_tail(small_rest.take(m), 0);
    texts::lemma_ascii_head(rest, m);
    assert(rest.take(m) =~= title);
}

/// An answer without the opening mark tells no title.
pub proof fn answers_without_marks_tell_no_title(answer: Seq<char>)
    requires
        is_ascii_chars(answer),
        !answer.contains('<'),
    ensures
        analyzer::banner_title(answer) is None,
{
    reveal_strlit("<title>");
    let small = text::lowercase(answer);
    text::lemma_found(small, "<title>"@, 0);
    if text::find_from(small, "<title>"@, 0) is Some {
        let i = text::find_from(small, "<title>"@, 0)->0;
        assert(small.subrange(i, i + 7)[0] == '<');
        assert(small[i] == text::ascii_small(answer[i]));
        assert(answer.contains(answer[i]));
    }
}

}

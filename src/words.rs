//! Splitting a message into whitespace-separated words, and the helpers that
//! the command layer builds on it.
use vstd::prelude::*;

use crate::text::chars_of;

verus! {

/// Whether `c` has the Unicode `White_Space` property, as `char::is_whitespace`
/// tests it.
pub open spec fn is_space(c: char) -> bool {
    ('\u{9}' <= c && c <= '\u{d}') || c == ' ' || c == '\u{85}' || c == '\u{a0}' || c
        == '\u{1680}' || ('\u{2000}' <= c && c <= '\u{200a}') || c == '\u{2028}' || c == '\u{2029}'
        || c == '\u{202f}' || c == '\u{205f}' || c == '\u{3000}'
}

/// Whether `c` is white space.
pub fn space_char(c: char) -> (r: bool)
    ensures
        r == is_space(c),
{
    ('\u{9}' <= c && c <= '\u{d}') || c == ' ' || c == '\u{85}' || c == '\u{a0}' || c
        == '\u{1680}' || ('\u{2000}' <= c && c <= '\u{200a}') || c == '\u{2028}' || c == '\u{2029}'
        || c == '\u{202f}' || c == '\u{205f}' || c == '\u{3000}'
}

/// Where the words of `s` stand: for each maximal run of characters that are
/// not white space, its start and its end (exclusive), in order.
pub open spec fn spans(s: Seq<char>) -> Seq<(int, int)>
    decreases s.len(),
{
    if s.len() == 0 {
        Seq::empty()
    } else {
        let prev = spans(s.drop_last());
        let n = s.len() - 1;
        if is_space(s[n]) {
            prev
        } else if n > 0 && !is_space(s[n - 1]) {
            prev.update(prev.len() - 1, (prev.last().0, n + 1))
        } else {
            prev.push((n, n + 1))
        }
    }
}

/// The words of `s`.
pub open spec fn words(s: Seq<char>) -> Seq<Seq<char>> {
    spans(s).map_values(|p: (int, int)| s.subrange(p.0, p.1))
}

/// Spans that lie within `0..n`, are not empty, and come in order.
pub open spec fn spans_ordered(sp: Seq<(int, int)>, n: int) -> bool {
    &&& forall|k: int| 0 <= k < sp.len() ==> 0 <= (#[trigger] sp[k]).0 < sp[k].1 <= n
    &&& forall|a: int, b: int| 0 <= a < b < sp.len() ==> (#[trigger] sp[a]).1 <= (#[trigger] sp[b]).0
}

pub open spec fn span_view(v: Seq<(usize, usize)>) -> Seq<(int, int)> {
    v.map_values(|p: (usize, usize)| (p.0 as int, p.1 as int))
}

/// The word spans of a run of characters.
pub fn word_spans(cs: &Vec<char>) -> (r: Vec<(usize, usize)>)
    ensures
        span_view(r@) == spans(cs@),
        spans_ordered(spans(cs@), cs@.len() as int),
{
    let mut out: Vec<(usize, usize)> = Vec::new();
    let mut i: usize = 0;
    assert(cs@.take(0) =~= Seq::<char>::empty());
    assert(span_view(out@) =~= Seq::<(int, int)>::empty());
    while i < cs.len()
        invariant
            i <= cs.len(),
            span_view(out@) == spans(cs@.take(i as int)),
            spans_ordered(span_view(out@), i as int),
            i > 0 && !is_space(cs@[i - 1]) ==> out@.len() > 0 && out@.last().1 == i,
        decreases cs.len() - i,
    {
        let c = cs[i];
        let ghost pre = cs@.take(i as int);
        let ghost now = cs@.take(i + 1);
        assert(now.drop_last() =~= pre);
        assert(now[i as int] == c);
        if space_char(c) {
        } else if i > 0 && !space_char(cs[i - 1]) {
            assert(now[i - 1] == cs@[i - 1]);
            let last = out.len() - 1;
            let start = out[last].0;
            out.set(last, (start, i + 1));
            assert(span_view(out@) =~= spans(pre).update(spans(pre).len() - 1, (spans(pre).last().0, i + 1)));
        } else {
            if i > 0 {
                assert(now[i - 1] == cs@[i - 1]);
            }
            out.push((i, i + 1));
            assert(span_view(out@) =~= spans(pre).push((i as int, i + 1)));
        }
        i = i + 1;
    }
    assert(cs@.take(i as int) =~= cs@);
    out
}

/// The words of a message, in order.
pub fn get_split_string(message_string: &str) -> (r: Vec<&str>)
    ensures
        r@.len() == words(message_string@).len(),
        forall|k: int| 0 <= k < r@.len() ==> (#[trigger] r@[k])@ == words(message_string@)[k],
{
    let cs = chars_of(message_string);
    let sp = word_spans(&cs);
    let mut out: Vec<&str> = Vec::new();
    let mut k: usize = 0;
    while k < sp.len()
        invariant
            cs@ == message_string@,
            span_view(sp@) == spans(cs@),
            spans_ordered(spans(cs@), cs@.len() as int),
            k <= sp.len(),
            out@.len() == k,
            forall|j: int| 0 <= j < k ==> (#[trigger] out@[j])@ == words(message_string@)[j],
        decreases sp.len() - k,
    {
        let (from, to) = sp[k];
        assert(spans(cs@)[k as int] == (from as int, to as int));
        let w = message_string.substring_char(from, to);
        out.push(w);
        k = k + 1;
    }
    out
}

/// The word at `index` of a message.
pub fn get_message_word(message_string: &str, index: usize) -> (r: &str)
    requires
        index < words(message_string@).len(),
    ensures
        r@ == words(message_string@)[index as int],
{
    let ws = get_split_string(message_string);
    ws[index]
}

/// The number of words in a message.
pub fn get_command_length(message_string: &str) -> (r: usize)
    ensures
        r == words(message_string@).len(),
{
    get_split_string(message_string).len()
}

/// The number of bytes that `c` takes in UTF-8.
pub open spec fn utf8_width(c: char) -> nat {
    if (c as u32) < 0x80 {
        1
    } else if (c as u32) < 0x800 {
        2
    } else if (c as u32) < 0x10000 {
        3
    } else {
        4
    }
}

/// The number of bytes that `s` takes in UTF-8.
pub open spec fn utf8_len(s: Seq<char>) -> nat
    decreases s.len(),
{
    if s.len() == 0 {
        0
    } else {
        utf8_len(s.drop_last()) + utf8_width(s.last())
    }
}

/// The first word of a message without its first `prefix_length` bytes (the
/// prefix that called the command): the command's name. `prefix_length` must
/// fall between two characters of that word.
pub fn get_command(message_string: &str, prefix_length: usize) -> (r: &str)
    requires
        words(message_string@).len() > 0,
        exists|k: int|
            0 <= k <= words(message_string@)[0].len() && utf8_len(
                #[trigger] words(message_string@)[0].take(k),
            ) == prefix_length,
    ensures
        forall|k: int|
            0 <= k <= words(message_string@)[0].len() && utf8_len(
                #[trigger] words(message_string@)[0].take(k),
            ) == prefix_length ==> r@ == words(message_string@)[0].subrange(
                k,
                words(message_string@)[0].len() as int,
            ),
{
    let ghost w = words(message_string@)[0];
    let command = get_message_word(message_string, 0);
    let cs = chars_of(command);
    let ghost k0 = choose|k: int| 0 <= k <= w.len() && utf8_len(#[trigger] w.take(k)) == prefix_length;
    let mut i: usize = 0;
    let mut bytes: usize = 0;
    assert(w.take(0) =~= Seq::<char>::empty());
    while bytes < prefix_length
        invariant
            cs@ == w,
            0 <= k0 <= w.len(),
            utf8_len(w.take(k0)) == prefix_length,
            i <= k0,
            bytes == utf8_len(w.take(i as int)),
            bytes <= prefix_length,
            bytes < prefix_length ==> i < k0,
        decreases k0 - i,
    {
        proof {
            lemma_utf8_len_grows(w, i as int, k0);
        }
        let c = cs[i];
        let width: usize = if (c as u32) < 0x80 {
            1
        } else if (c as u32) < 0x800 {
            2
        } else if (c as u32) < 0x10000 {
            3
        } else {
            4
        };
        assert(w.take(i + 1).drop_last() =~= w.take(i as int));
        assert(w.take(i + 1).last() == c);
        proof {
            if i + 1 < k0 {
                lemma_utf8_len_grows(w, i + 1, k0);
            }
        }
        assert(i < cs.len());
        bytes = bytes + width;
        i = i + 1;
        proof {
            if i < k0 {
                lemma_utf8_len_grows(w, i as int, k0);
            }
        }
    }
    proof {
        if i < k0 {
            lemma_utf8_len_grows(w, i as int, k0);
        }
        assert forall|k: int|
            0 <= k <= w.len() && utf8_len(#[trigger] w.take(k)) == prefix_length implies k == i by {
            if k < i {
                lemma_utf8_len_grows(w, k, i as int);
            } else if k > i {
                lemma_utf8_len_grows(w, i as int, k);
            }
        }
    }
    command.substring_char(i, cs.len())
}

/// Bytes strictly grow with each further character.
proof fn lemma_utf8_len_grows(w: Seq<char>, a: int, b: int)
    requires
        0 <= a < b <= w.len(),
    ensures
        utf8_len(w.take(a)) < utf8_len(w.take(b)),
    decreases b - a,
{
    assert(w.take(b).drop_last() =~= w.take(b - 1));
    if a < b - 1 {
        lemma_utf8_len_grows(w, a, b - 1);
    }
}

/// Words joined with single spaces.
pub open spec fn join_spaced(ws: Seq<Seq<char>>) -> Seq<char>
    decreases ws.len(),
{
    if ws.len() == 0 {
        Seq::empty()
    } else if ws.len() == 1 {
        ws[0]
    } else {
        join_spaced(ws.drop_last()) + " "@ + ws.last()
    }
}

/// The words of a message after its first one and the `end_index` that follow
/// it, joined with single spaces: the arguments of a command from a position on.
pub fn join_string(message_string: &str, end_index: usize) -> (r: String)
    requires
        end_index < words(message_string@).len(),
    ensures
        r@ == join_spaced(
            words(message_string@).subrange(end_index + 1, words(message_string@).len() as int),
        ),
{
    let ghost all = words(message_string@);
    let ws = get_split_string(message_string);
    assert(end_index < ws.len());
    let first = end_index + 1;
    let mut r = String::new();
    let mut k = first;
    assert(all.subrange(first as int, first as int) =~= Seq::<Seq<char>>::empty());
    while k < ws.len()
        invariant
            ws@.len() == all.len(),
            forall|j: int| 0 <= j < ws@.len() ==> (#[trigger] ws@[j])@ == all[j],
            first <= k <= ws@.len(),
            r@ == join_spaced(all.subrange(first as int, k as int)),
        decreases ws.len() - k,
    {
        let ghost next = all.subrange(first as int, k + 1);
        assert(next.drop_last() =~= all.subrange(first as int, k as int));
        assert(next.last() == ws@[k as int]@);
        if k > first {
            r.append(" ");
        } else {
            assert(all.subrange(first as int, k as int).len() == 0);
        }
        r.append(ws[k]);
        k = k + 1;
    }
    r
}

} // verus!

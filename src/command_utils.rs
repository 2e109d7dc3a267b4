//! Helpers of the command layer: shortening a text to its first words, and
//! the commands that stay available when the bot is reached by mention.
use vstd::prelude::*;

use crate::text::chars_of;
use crate::words::{get_message_word, spans, word_spans, words};

verus! {

/// `s` with the white space around it removed, cut after its `n`-th word with
/// `...` appended where more words follow.
pub open spec fn truncated(s: Seq<char>, n: nat) -> Seq<char> {
    let sp = spans(s);
    if s.len() == 0 || n == 0 || sp.len() == 0 {
        Seq::empty()
    } else if sp.len() <= n {
        s.subrange(sp[0].0, sp.last().1)
    } else {
        s.subrange(sp[0].0, sp[n - 1].1) + "..."@
    }
}

/// Shortens `s` to its first `words` words, marking the cut with `...`.
pub fn truncate(s: &str, words: usize) -> (r: String)
    ensures
        r@ == truncated(s@, words as nat),
{
    let cs = chars_of(s);
    if cs.len() == 0 || words == 0 {
        return String::new();
    }
    let sp = word_spans(&cs);
    let n = sp.len();
    if n == 0 {
        return String::new();
    }
    assert(spans(s@)[0] == (sp[0].0 as int, sp[0].1 as int));
    assert(spans(s@)[n - 1] == (sp[n - 1].0 as int, sp[n - 1].1 as int));
    let start = sp[0].0;
    if n <= words {
        let end = sp[n - 1].1;
        if n > 1 {
            assert(spans(s@)[0].1 <= spans(s@)[n - 1].0);
        }
        return String::from_str(s.substring_char(start, end));
    }
    let end = sp[words - 1].1;
    assert(spans(s@)[words - 1] == (sp[words - 1].0 as int, sp[words - 1].1 as int));
    if words > 1 {
        assert(spans(s@)[0].1 <= spans(s@)[words - 1].0);
    }
    let mut r = String::from_str(s.substring_char(start, end));
    r.append("...");
    r
}

/// The commands that still answer when the bot is called by mention.
pub open spec fn allowed_commands() -> Seq<Seq<char>> {
    seq!["prefix"@, "help"@, "restore"@, "resetprefix"@]
}

/// The commands that still answer when the bot is called by mention.
pub fn get_allowed_commands() -> (r: Vec<String>)
    ensures
        r@.len() == allowed_commands().len(),
        forall|i: int| 0 <= i < r@.len() ==> (#[trigger] r@[i])@ == allowed_commands()[i],
{
    let r = vec![
        String::from_str("prefix"),
        String::from_str("help"),
        String::from_str("restore"),
        String::from_str("resetprefix"),
    ];
    r
}

/// Whether the pattern `<@!?\d+>` (a user mention) matches somewhere in a word,
/// as the `regex` crate decides it.
pub uninterp spec fn mention_match(word: Seq<char>) -> bool;

/// Relies on `regex::Regex::is_match` with the user-mention pattern
/// `<@!?\d+>`, which compiles: whether the pattern matches somewhere in `word`.
#[verifier::external_body]
fn holds_mention(word: &str) -> (r: bool)
    ensures
        r == mention_match(word@),
{
    regex::Regex::new(r"<@!?\d+>").unwrap().is_match(word)
}

/// Whether the first word of a message holds a user mention: the message
/// called the bot by mention rather than by prefix.
pub fn check_mention_prefix(content: &str) -> (r: bool)
    requires
        words(content@).len() > 0,
    ensures
        r == mention_match(words(content@)[0]),
{
    holds_mention(get_message_word(content, 0))
}

} // verus!

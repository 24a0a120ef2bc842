//! The word supplier: random dictionary words, delivered as a queue.

use crate::text::is_white_space;
use std::collections::VecDeque;
use vstd::prelude::*;

verus! {

/// A word: at least one character, none of them a space or other white
/// space.
pub open spec fn is_word(w: Seq<char>) -> bool {
    w.len() > 0 && forall|i: int|
        0 <= i < w.len() ==> #[trigger] w[i] != ' ' && !is_white_space(w[i])
}

/// `count` words, as the supplier delivers them.
pub open spec fn supplied(words: Seq<Seq<char>>, count: nat) -> bool {
    words.len() == count && forall|i: int| 0 <= i < words.len() ==> is_word(#[trigger] words[i])
}

/// The words written one after the other with a single space between
/// neighbours.
pub open spec fn joined(words: Seq<Seq<char>>) -> Seq<char>
    decreases words.len(),
{
    if words.len() == 0 {
        Seq::empty()
    } else if words.len() == 1 {
        words[0]
    } else {
        joined(words.drop_last()) + seq![' '] + words.last()
    }
}

/// The pieces into which the spaces cut a text. A text without a space is one
/// piece; two spaces in a row enclose an empty piece.
pub open spec fn split_spaces(text: Seq<char>) -> Seq<Seq<char>>
    decreases text.len(),
{
    if text.len() == 0 {
        seq![Seq::empty()]
    } else {
        let before = split_spaces(text.drop_last());
        if text.last() == ' ' {
            before.push(Seq::empty())
        } else {
            before.drop_last().push(before.last().push(text.last()))
        }
    }
}

/// Every text has at least one piece.
pub proof fn lemma_split_nonempty(text: Seq<char>)
    ensures
        split_spaces(text).len() >= 1,
    decreases text.len(),
{
    if text.len() > 0 {
        lemma_split_nonempty(text.drop_last());
    }
}

/// A tail without a space lengthens the last piece and adds none.
pub proof fn lemma_split_append(text: Seq<char>, tail: Seq<char>)
    requires
        forall|i: int| 0 <= i < tail.len() ==> tail[i] != ' ',
    ensures
        split_spaces(text + tail) == split_spaces(text).drop_last().push(
            split_spaces(text).last() + tail,
        ),
    decreases tail.len(),
{
    lemma_split_nonempty(text);
    let pieces = split_spaces(text);
    if tail.len() == 0 {
        assert(text + tail =~= text);
        assert(pieces.last() + tail =~= pieces.last());
        assert(pieces.drop_last().push(pieces.last()) =~= pieces);
    } else {
        let shorter = tail.drop_last();
        lemma_split_append(text, shorter);
        assert((text + tail).drop_last() =~= text + shorter);
        assert((text + tail).last() == tail.last());
        let before = split_spaces(text + shorter);
        assert(before.drop_last() =~= pieces.drop_last());
        assert(before.last().push(tail.last()) =~= pieces.last() + tail);
    }
}

/// Cutting a joined text at its spaces gives the words back.
pub proof fn lemma_split_joined(words: Seq<Seq<char>>)
    requires
        words.len() >= 1,
        forall|i: int| 0 <= i < words.len() ==> is_word(#[trigger] words[i]),
    ensures
        split_spaces(joined(words)) == words,
    decreases words.len(),
{
    let empty = Seq::<char>::empty();
    if words.len() == 1 {
        assert(is_word(words[0]));
        lemma_split_append(empty, words[0]);
        assert(empty + words[0] =~= words[0]);
        assert(split_spaces(empty) =~= seq![empty]);
        assert(seq![empty].drop_last().push(empty + words[0]) =~= words);
    } else {
        let front = words.drop_last();
        assert forall|i: int| 0 <= i < front.len() implies is_word(#[trigger] front[i]) by {
            assert(front[i] == words[i]);
        }
        lemma_split_joined(front);
        let head = joined(front) + seq![' '];
        assert(head.drop_last() =~= joined(front));
        assert(split_spaces(head) == front.push(empty));
        assert(is_word(words[words.len() - 1]));
        lemma_split_append(head, words.last());
        assert(front.push(empty).drop_last() =~= front);
        assert(empty + words.last() =~= words.last());
        assert(front.push(words.last()) =~= words);
    }
}

/// `text` is some `count` words joined by single spaces.
pub open spec fn is_drawn(text: Seq<char>, count: nat) -> bool {
    exists|words: Seq<Seq<char>>| #[trigger] supplied(words, count) && text == joined(words)
}

/// Trusted: `rand_word::new` draws `count` words from its dictionary, each of
/// at least one character and free of spaces and other white space, and
/// returns them joined by single spaces. Which words they are is left open.
#[verifier::external_body]
fn random_text(count: usize) -> (text: String)
    ensures
        is_drawn(text@, count as nat),
{
    rand_word::new(count)
}

/// The pieces of `text` between its spaces, in order.
pub fn split_words(text: &str) -> (words: VecDeque<String>)
    ensures
        words.deep_view() == split_spaces(text@),
{
    let mut done: VecDeque<String> = VecDeque::new();
    let mut current = String::new();
    let ghost mut seen: int = 0;
    assert(text@.subrange(0, 0) =~= Seq::<char>::empty());
    assert(done.deep_view().push(current@) =~= seq![Seq::<char>::empty()]);
    for c in it: text.chars()
        invariant
            it.seq() == text@,
            seen == it.index(),
            0 <= seen <= text@.len(),
            split_spaces(text@.subrange(0, seen)) == done.deep_view().push(current@),
    {
        let ghost so_far = text@.subrange(0, seen);
        let ghost next = text@.subrange(0, seen + 1);
        let ghost pieces = done.deep_view();
        let ghost piece = current@;
        assert(next.drop_last() =~= so_far);
        assert(next.last() == c);
        if c == ' ' {
            done.push_back(current);
            current = String::new();
            assert(done.deep_view() =~= pieces.push(piece));
        } else {
            current.push(c);
            assert(pieces.push(piece).drop_last() =~= pieces);
        }
        proof {
            seen = seen + 1;
        }
    }
    assert(text@.subrange(0, text@.len() as int) =~= text@);
    let ghost pieces = done.deep_view();
    let ghost piece = current@;
    done.push_back(current);
    assert(done.deep_view() =~= pieces.push(piece));
    done
}

/// `count` fresh words from the dictionary.
pub fn next_words(count: usize) -> (words: VecDeque<String>)
    ensures
        supplied(words.deep_view(), count as nat),
{
    if count == 0 {
        let words: VecDeque<String> = VecDeque::new();
        assert(words.deep_view() =~= Seq::<Seq<char>>::empty());
        return words;
    }
    let text = random_text(count);
    proof {
        let drawn = choose|drawn: Seq<Seq<char>>| #[trigger]
            supplied(drawn, count as nat) && text@ == joined(drawn);
        assert(is_drawn(text@, count as nat));
        lemma_split_joined(drawn);
    }
    split_words(text.as_str())
}

} // verus!

//! The words of a name, and the name of the constant told by its words.

use crate::naming::{constant_name_of, counts_as_uppercase, scanned, snake_cased};
use vstd::prelude::*;

verus! {

/// A word starts with an uppercase character and goes on with characters
/// that are not uppercase.
pub open spec fn is_word(word: Seq<char>) -> bool {
    &&& word.len() > 0
    &&& counts_as_uppercase(word[0])
    &&& forall|i: int| 1 <= i < word.len() ==> !counts_as_uppercase(#[trigger] word[i])
}

/// A text in uppercase: an uppercase character stays, any other gives way to
/// its uppercase mapping.
pub open spec fn uppercased(text: Seq<char>) -> Seq<char> {
    text.map_values(|c: char| scanned(true, c)).flatten()
}

/// The segment that a word becomes: a separator, then the word in uppercase.
pub open spec fn segment(word: Seq<char>) -> Seq<char> {
    seq!['_'] + uppercased(word)
}

/// The segments of the words, one behind the other.
pub open spec fn segments(words: Seq<Seq<char>>) -> Seq<char> {
    words.map_values(|word: Seq<char>| segment(word)).flatten()
}

/// The words of a text: a new word starts at every uppercase character.
/// What stands in front of the first uppercase character is taken as a word
/// too.
pub open spec fn words_of(text: Seq<char>) -> Seq<Seq<char>>
    decreases text.len(),
{
    if text.len() == 0 {
        Seq::empty()
    } else {
        let before = words_of(text.drop_last());
        if before.len() == 0 || counts_as_uppercase(text.last()) {
            before.push(seq![text.last()])
        } else {
            before.drop_last().push(before.last().push(text.last()))
        }
    }
}

/// Scanning a text is scanning its first part, then the rest.
pub proof fn lemma_scan_in_two_parts(buffer: Seq<char>, first: Seq<char>, second: Seq<char>)
    ensures
        snake_cased(buffer, first + second) == snake_cased(snake_cased(buffer, first), second),
    decreases second.len(),
{
    if second.len() == 0 {
        assert(first + second == first);
    } else {
        assert((first + second).drop_last() == first + second.drop_last());
        lemma_scan_in_two_parts(buffer, first, second.drop_last());
    }
}

/// The uppercase form of a text grows with the text, character by character.
pub proof fn lemma_uppercased_push(text: Seq<char>, c: char)
    ensures
        uppercased(text.push(c)) == uppercased(text) + scanned(true, c),
{
    let upper = |c: char| scanned(true, c);
    assert(text.push(c).map_values(upper) == text.map_values(upper).push(upper(c)));
    text.map_values(upper).lemma_flatten_push(upper(c));
}

/// The segments grow with the words, word by word.
pub proof fn lemma_segments_push(words: Seq<Seq<char>>, word: Seq<char>)
    ensures
        segments(words.push(word)) == segments(words) + segment(word),
{
    let to_segment = |word: Seq<char>| segment(word);
    assert(words.push(word).map_values(to_segment) == words.map_values(to_segment).push(
        to_segment(word),
    ));
    words.map_values(to_segment).lemma_flatten_push(to_segment(word));
}

/// Scanned into a buffer that holds something, a word arrives as its
/// segment.
pub proof fn lemma_word_is_scanned_to_its_segment(buffer: Seq<char>, word: Seq<char>)
    requires
        buffer.len() > 0,
        is_word(word),
    ensures
        snake_cased(buffer, word) == buffer + segment(word),
    decreases word.len(),
{
    let head = word.drop_last();
    assert(word == head.push(word.last()));
    lemma_uppercased_push(head, word.last());
    if head.len() == 0 {
        assert(uppercased(head) == Seq::<char>::empty());
        assert(snake_cased(buffer, head) == buffer);
    } else {
        assert(is_word(head));
        lemma_word_is_scanned_to_its_segment(buffer, head);
        assert(word.last() == word[word.len() - 1]);
    }
}

/// Scanned into a buffer that holds something, a text made of words arrives
/// as the segments of its words.
pub proof fn lemma_words_are_scanned_to_their_segments(
    buffer: Seq<char>,
    words: Seq<Seq<char>>,
)
    requires
        buffer.len() > 0,
        forall|i: int| 0 <= i < words.len() ==> is_word(#[trigger] words[i]),
    ensures
        snake_cased(buffer, words.flatten()) == buffer + segments(words),
    decreases words.len(),
{
    if words.len() == 0 {
        assert(segments(words) == Seq::<char>::empty());
        assert(words.flatten() == Seq::<char>::empty());
    } else {
        let head = words.drop_last();
        let word = words.last();
        assert(words == head.push(word));
        head.lemma_flatten_push(word);
        lemma_segments_push(head, word);
        lemma_words_are_scanned_to_their_segments(buffer, head);
        lemma_scan_in_two_parts(buffer, head.flatten(), word);
        lemma_word_is_scanned_to_its_segment(buffer + segments(head), word);
    }
}

/// The name of the constant of a type whose name is made of words: the
/// prefix `SIZE_OF`, then for each word a separator and the word in
/// uppercase. Each uppercase character starts a word, also where it follows
/// another one directly.
pub proof fn lemma_constant_name_of_words(words: Seq<Seq<char>>)
    requires
        forall|i: int| 0 <= i < words.len() ==> is_word(#[trigger] words[i]),
    ensures
        constant_name_of(words.flatten()) == "SIZE_OF"@ + segments(words),
{
    reveal_strlit("SIZE_OF");
    lemma_words_are_scanned_to_their_segments("SIZE_OF"@, words);
}

/// A text is its words, one behind the other; and where the text starts with
/// an uppercase character, each of them is a word.
pub proof fn lemma_words_of(text: Seq<char>)
    ensures
        words_of(text).flatten() == text,
        text.len() > 0 ==> words_of(text).len() > 0,
        text.len() > 0 && counts_as_uppercase(text[0]) ==> forall|i: int|
            0 <= i < words_of(text).len() ==> is_word(#[trigger] words_of(text)[i]),
    decreases text.len(),
{
    if text.len() == 0 {
        assert(words_of(text).flatten() == Seq::<char>::empty());
    } else {
        let head = text.drop_last();
        let c = text.last();
        let before = words_of(head);
        lemma_words_of(head);
        assert(text == head.push(c));
        if before.len() == 0 || counts_as_uppercase(c) {
            before.lemma_flatten_push(seq![c]);
        } else {
            let open_word = before.last();
            assert(before == before.drop_last().push(open_word));
            before.drop_last().lemma_flatten_push(open_word);
            before.drop_last().lemma_flatten_push(open_word.push(c));
            assert(before.drop_last().flatten() + open_word.push(c) == (before.drop_last().flatten()
                + open_word).push(c));
        }
        if counts_as_uppercase(text[0]) {
            if head.len() > 0 {
                assert(head[0] == text[0]);
            }
            assert forall|i: int| 0 <= i < words_of(text).len() implies is_word(
                #[trigger] words_of(text)[i],
            ) by {
                if before.len() == 0 || counts_as_uppercase(c) {
                    if i < before.len() {
                        assert(words_of(text)[i] == before[i]);
                    }
                } else {
                    if i < before.len() - 1 {
                        assert(words_of(text)[i] == before[i]);
                    } else {
                        assert(is_word(before[before.len() - 1]));
                    }
                }
            }
        }
    }
}

/// The name of the constant of a type whose name starts with an uppercase
/// character: the prefix `SIZE_OF`, then the segments of the name's words.
pub proof fn lemma_constant_name_of_capitalized(identifier: Seq<char>)
    requires
        identifier.len() > 0,
        counts_as_uppercase(identifier[0]),
    ensures
        constant_name_of(identifier) == "SIZE_OF"@ + segments(words_of(identifier)),
{
    lemma_words_of(identifier);
    lemma_constant_name_of_words(words_of(identifier));
}

} // verus!

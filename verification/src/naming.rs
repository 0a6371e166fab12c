//! From a type's name to the name of its size constant.

use vstd::prelude::*;
use vstd::string::StringExecFns;

verus! {

/// Whether Unicode counts a character as uppercase, as `char::is_uppercase`
/// reports it.
pub uninterp spec fn counts_as_uppercase(c: char) -> bool;

/// The characters that `char::to_uppercase` yields for a character.
pub uninterp spec fn uppercase_mapping(c: char) -> Seq<char>;

/// `char::is_uppercase`: the answer depends on the character alone.
pub assume_specification[ char::is_uppercase ](c: char) -> (b: bool)
    ensures
        b == counts_as_uppercase(c),
;

/// `String::push`: appends one character to the end of the string.
pub assume_specification[ String::push ](s: &mut String, ch: char)
    ensures
        final(s)@ == old(s)@.push(ch),
;

/// `char::to_uppercase`, its characters collected into a string. What it
/// yields depends on the character alone.
#[verifier::external_body]
fn to_uppercase(c: char) -> (upper: String)
    ensures
        upper@ == uppercase_mapping(c),
{
    c.to_uppercase().to_string()
}

/// What scanning one character adds to the buffer. An uppercase character is
/// kept and gets a separator in front of it, unless the buffer is still
/// empty; any other character is replaced by its uppercase mapping.
pub open spec fn scanned(at_start: bool, c: char) -> Seq<char> {
    if counts_as_uppercase(c) {
        if at_start {
            seq![c]
        } else {
            seq!['_', c]
        }
    } else {
        uppercase_mapping(c)
    }
}

/// The buffer after `camel_case` has been scanned into it from left to right.
pub open spec fn snake_cased(buffer: Seq<char>, camel_case: Seq<char>) -> Seq<char>
    decreases camel_case.len(),
{
    if camel_case.len() == 0 {
        buffer
    } else {
        let before = snake_cased(buffer, camel_case.drop_last());
        before + scanned(before.len() == 0, camel_case.last())
    }
}

/// Scans `camel_case` into `buffer`: `FooBar` arrives as `_FOO_BAR` in a
/// buffer that already holds something, and as `FOO_BAR` in an empty one.
pub fn push_snake_case(buffer: &mut String, camel_case: &str)
    ensures
        final(buffer)@ == snake_cased(old(buffer)@, camel_case@),
{
    let ghost start = buffer@;
    for c in it: camel_case.chars()
        invariant
            it.seq() == camel_case@,
            buffer@ == snake_cased(start, camel_case@.take(it.index())),
    {
        proof {
            let scanned_so_far = camel_case@.take(it.index() + 1);
            assert(scanned_so_far.drop_last() == camel_case@.take(it.index()));
            assert(scanned_so_far.last() == c);
        }
        if c.is_uppercase() {
            if !buffer.as_str().is_empty() {
                buffer.push('_');
            }
            buffer.push(c);
        } else {
            let upper = to_uppercase(c);
            buffer.append(upper.as_str());
        }
    }
    assert(camel_case@.take(camel_case@.len() as int) == camel_case@);
}

/// What a text adds to a buffer that already holds something: every
/// uppercase character with a separator in front of it, every other
/// character as its uppercase mapping.
pub open spec fn scanned_text(text: Seq<char>) -> Seq<char> {
    text.map_values(|c: char| scanned(false, c)).flatten()
}

/// A buffer that holds something is kept as it is, and the text is added
/// behind it character by character.
pub proof fn lemma_scan_into_filled_buffer(buffer: Seq<char>, text: Seq<char>)
    requires
        buffer.len() > 0,
    ensures
        snake_cased(buffer, text) == buffer + scanned_text(text),
    decreases text.len(),
{
    let piece = |c: char| scanned(false, c);
    if text.len() == 0 {
        assert(text.map_values(piece) == Seq::<Seq<char>>::empty());
        assert(scanned_text(text) == Seq::<char>::empty());
    } else {
        let head = text.drop_last();
        lemma_scan_into_filled_buffer(buffer, head);
        assert(text.map_values(piece) == head.map_values(piece).push(piece(text.last())));
        head.map_values(piece).lemma_flatten_push(piece(text.last()));
    }
}

/// Into an empty buffer, a text that starts with an uppercase character
/// arrives as into any other, but for the separator in front of it.
pub proof fn lemma_scan_into_empty_buffer(text: Seq<char>)
    requires
        text.len() > 0,
        counts_as_uppercase(text[0]),
    ensures
        snake_cased(Seq::empty(), text) == scanned_text(text).drop_first(),
        scanned_text(text).first() == '_',
    decreases text.len(),
{
    let piece = |c: char| scanned(false, c);
    let head = text.drop_last();
    assert(text.map_values(piece) == head.map_values(piece).push(piece(text.last())));
    head.map_values(piece).lemma_flatten_push(piece(text.last()));
    if head.len() == 0 {
        assert(head.map_values(piece) == Seq::<Seq<char>>::empty());
        assert(scanned_text(head) == Seq::<char>::empty());
        assert(snake_cased(Seq::empty(), head) == Seq::<char>::empty());
        assert(text.last() == text[0]);
        assert(scanned_text(text) == seq!['_', text[0]]);
        assert(seq!['_', text[0]].drop_first() == seq![text[0]]);
    } else {
        assert(head[0] == text[0]);
        lemma_scan_into_empty_buffer(head);
        assert(scanned_text(head).len() > 0);
        assert((scanned_text(head) + piece(text.last())).drop_first() == scanned_text(
            head,
        ).drop_first() + piece(text.last()));
        lemma_first_character_stays(head);
    }
}

/// Into an empty buffer, a text that starts with an uppercase character
/// brings that character first.
proof fn lemma_first_character_stays(text: Seq<char>)
    requires
        text.len() > 0,
        counts_as_uppercase(text[0]),
    ensures
        snake_cased(Seq::empty(), text).len() > 0,
    decreases text.len(),
{
    let head = text.drop_last();
    if head.len() == 0 {
        assert(snake_cased(Seq::empty(), head) == Seq::<char>::empty());
        assert(text.last() == text[0]);
    } else {
        assert(head[0] == text[0]);
        lemma_first_character_stays(head);
    }
}

/// The name of the size constant of a type: `SIZE_OF`, then the type's name
/// scanned into snake case behind it.
pub open spec fn constant_name_of(identifier: Seq<char>) -> Seq<char> {
    snake_cased("SIZE_OF"@, identifier)
}

/// The name of the size constant is the prefix, and behind it what the
/// type's name adds character by character.
pub proof fn lemma_constant_name_by_characters(identifier: Seq<char>)
    ensures
        constant_name_of(identifier) == "SIZE_OF"@ + scanned_text(identifier),
{
    reveal_strlit("SIZE_OF");
    lemma_scan_into_filled_buffer("SIZE_OF"@, identifier);
}

/// Derives the name of the size constant from the type's name: `FooBar`
/// gives `SIZE_OF_FOO_BAR`. Every uppercase character starts a segment of its
/// own, so `AB` gives `SIZE_OF_A_B`; characters in front of the first
/// uppercase one follow the prefix directly, so `fooBar` gives
/// `SIZE_OFFOO_BAR`. An empty name gives the bare prefix `SIZE_OF`.
pub fn derive_constant_name(identifier: &str) -> (name: String)
    ensures
        name@ == constant_name_of(identifier@),
        name@ == "SIZE_OF"@ + scanned_text(identifier@),
        identifier@.len() == 0 ==> name@ == "SIZE_OF"@,
{
    let mut name = String::from_str("SIZE_OF");
    push_snake_case(&mut name, identifier);
    proof {
        lemma_constant_name_by_characters(identifier@);
    }
    name
}

} // verus!

//! Handling of what the player types.

use vstd::prelude::*;

verus! {

/// Whether a character is white space: one of the characters that Unicode marks as
/// `White_Space`.
pub open spec fn is_whitespace(c: char) -> bool {
    let code = c as u32;
    ||| 0x09 <= code <= 0x0d
    ||| code == 0x20
    ||| code == 0x85
    ||| code == 0xa0
    ||| code == 0x1680
    ||| 0x2000 <= code <= 0x200a
    ||| code == 0x2028
    ||| code == 0x2029
    ||| code == 0x202f
    ||| code == 0x205f
    ||| code == 0x3000
}

/// A text without the white space that it starts with.
pub open spec fn trimmed_at_start(text: Seq<char>) -> Seq<char>
    decreases text.len(),
{
    if text.len() > 0 && is_whitespace(text.first()) {
        trimmed_at_start(text.drop_first())
    } else {
        text
    }
}

/// A text without the white space that it ends with.
pub open spec fn trimmed_at_end(text: Seq<char>) -> Seq<char>
    decreases text.len(),
{
    if text.len() > 0 && is_whitespace(text.last()) {
        trimmed_at_end(text.drop_last())
    } else {
        text
    }
}

/// A text without the white space at either end. White space inside it stays.
pub open spec fn trimmed(text: Seq<char>) -> Seq<char> {
    trimmed_at_end(trimmed_at_start(text))
}

/// `str::trim` of the standard library. Its documentation says that it returns the slice
/// with leading and trailing white space removed, white space being what Unicode marks as
/// `White_Space`. The contract says the same of the characters of the slice. Nothing
/// proves it: it is taken on trust.
pub assume_specification[ str::trim ](text: &str) -> (slice: &str)
    ensures
        slice@ == trimmed(text@),
;

/// The input as the player meant it: without the white space at either end.
pub fn sanitize_input(input: &String) -> (clean: String)
    ensures
        clean@ == trimmed(input@),
        clean@.len() > 0 ==> !is_whitespace(clean@.first()) && !is_whitespace(clean@.last()),
{
    proof {
        lemma_trimmed_is_clean(input@);
    }
    input.trim().to_owned()
}

/// A trimmed text neither starts nor ends with white space, and trimming it again changes
/// nothing.
pub proof fn lemma_trimmed_is_clean(text: Seq<char>)
    ensures
        trimmed(text).len() > 0 ==> !is_whitespace(trimmed(text).first()) && !is_whitespace(
            trimmed(text).last(),
        ),
        trimmed(trimmed(text)) == trimmed(text),
        trimmed(text).len() <= text.len(),
{
    lemma_trimmed_at_start(text);
    let rest = trimmed_at_start(text);
    lemma_trimmed_at_end(rest);
    let clean = trimmed_at_end(rest);
    if clean.len() > 0 {
        assert(clean.first() == rest.first());
        assert(trimmed_at_start(clean) == clean);
        assert(trimmed_at_end(clean) == clean);
    } else {
        assert(trimmed_at_start(clean) == clean);
        assert(trimmed_at_end(clean) == clean);
    }
}

proof fn lemma_trimmed_at_start(text: Seq<char>)
    ensures
        trimmed_at_start(text).len() <= text.len(),
        trimmed_at_start(text).len() > 0 ==> !is_whitespace(trimmed_at_start(text).first()),
        trimmed_at_start(text) == text.subrange(
            text.len() - trimmed_at_start(text).len(),
            text.len() as int,
        ),
    decreases text.len(),
{
    if text.len() > 0 && is_whitespace(text.first()) {
        lemma_trimmed_at_start(text.drop_first());
        let inner = trimmed_at_start(text.drop_first());
        assert(text.drop_first().subrange(
            text.drop_first().len() - inner.len(),
            text.drop_first().len() as int,
        ) == text.subrange(text.len() - inner.len(), text.len() as int));
    } else {
        assert(text.subrange(0, text.len() as int) == text);
    }
}

proof fn lemma_trimmed_at_end(text: Seq<char>)
    ensures
        trimmed_at_end(text).len() <= text.len(),
        trimmed_at_end(text).len() > 0 ==> !is_whitespace(trimmed_at_end(text).last()),
        trimmed_at_end(text) == text.subrange(0, trimmed_at_end(text).len() as int),
    decreases text.len(),
{
    if text.len() > 0 && is_whitespace(text.last()) {
        lemma_trimmed_at_end(text.drop_last());
        let inner = trimmed_at_end(text.drop_last());
        assert(text.drop_last().subrange(0, inner.len() as int) == text.subrange(
            0,
            inner.len() as int,
        ));
    } else {
        assert(text.subrange(0, text.len() as int) == text);
    }
}

} // verus!

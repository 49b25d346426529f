//! The user of a run: a new random name every time.

use vstd::prelude::*;

verus! {

/// A lower-case letter of the Latin alphabet.
pub open spec fn lower_case(c: char) -> bool {
    97 <= c as u32 <= 122
}

/// A word: one or more lower-case letters.
pub open spec fn word(w: Seq<char>) -> bool {
    w.len() > 0 && forall|i: int| 0 <= i < w.len() ==> lower_case(#[trigger] w[i])
}

/// Every one of the parts is a word.
pub open spec fn all_words(parts: Seq<Seq<char>>) -> bool {
    forall|i: int| 0 <= i < parts.len() ==> word(#[trigger] parts[i])
}

/// The parts in their order, with the separator between each two of them.
pub open spec fn joined(parts: Seq<Seq<char>>, separator: Seq<char>) -> Seq<char>
    decreases parts.len(),
{
    if parts.len() == 0 {
        Seq::empty()
    } else if parts.len() == 1 {
        parts[0]
    } else {
        joined(parts.drop_last(), separator) + separator + parts.last()
    }
}

/// The name is `words` words that the separator joins.
pub open spec fn made_of(name: Seq<char>, words: int, separator: Seq<char>) -> bool {
    exists|parts: Seq<Seq<char>>|
        parts.len() == words && all_words(parts) && #[trigger] joined(parts, separator) == name
}

/// A name that is not empty and holds lower-case letters and underscores
/// only.
pub open spec fn readable_name(name: Seq<char>) -> bool {
    &&& name.len() > 0
    &&& forall|i: int| 0 <= i < name.len() ==> lower_case(#[trigger] name[i]) || name[i] == '_'
}

/// Words that underscores join give a readable name.
proof fn joined_words_are_readable(parts: Seq<Seq<char>>)
    requires
        parts.len() > 0,
        all_words(parts),
    ensures
        readable_name(joined(parts, "_"@)),
    decreases parts.len(),
{
    reveal_strlit("_");
    if parts.len() > 1 {
        let front = parts.drop_last();
        assert forall|i: int| 0 <= i < front.len() implies word(#[trigger] front[i]) by {
            assert(front[i] == parts[i]);
        }
        joined_words_are_readable(front);
        assert(word(parts.last()));
    } else {
        assert(word(parts[0]));
    }
}

/// A name of one or more words that underscores join is not empty and holds
/// nothing but lower-case letters and underscores.
pub proof fn words_make_a_readable_name(name: Seq<char>, words: int)
    requires
        words > 0,
        made_of(name, words, "_"@),
    ensures
        readable_name(name),
{
    let parts = choose|parts: Seq<Seq<char>>|
        parts.len() == words && all_words(parts) && #[trigger] joined(parts, "_"@) == name;
    joined_words_are_readable(parts);
}

/// Calls `petname::petname`, which picks `words` times a word at random from
/// its built-in small word lists (the last pick from the names, the one
/// before it from the adjectives, every earlier one from the adverbs) and
/// puts the separator between each two picks. Which words come is left open.
/// None of the three lists is empty, so every pick gives a word, and every
/// entry of the lists (the files under `words/small` in the crate) is one or
/// more lower-case Latin letters.
#[verifier::external_body]
fn random_name(words: u8, separator: &str) -> (name: String)
    ensures
        made_of(name@, words as int, separator@),
{
    petname::petname(words, separator)
}

/// A new random name: five words that underscores join. Two calls give two
/// different names, but for a chance in many millions of millions.
pub fn new_username() -> (name: String)
    ensures
        made_of(name@, 5, "_"@),
        readable_name(name@),
{
    let name = random_name(5, "_");
    proof {
        words_make_a_readable_name(name@, 5);
    }
    name
}

} // verus!

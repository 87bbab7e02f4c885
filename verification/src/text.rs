//! Searching and cutting text by characters.

use vstd::prelude::*;

verus! {

/// The position of the first `needle` in `text`, or the length of `text`
/// where it holds none.
pub open spec fn first_position<T>(text: Seq<T>, needle: T) -> int
    decreases text.len(),
{
    if text.len() == 0 {
        0
    } else if text[0] == needle {
        0
    } else {
        1 + first_position(text.drop_first(), needle)
    }
}

/// The views of a list of string slices, in order.
pub open spec fn str_views(items: Seq<&str>) -> Seq<Seq<char>> {
    items.map_values(|item: &str| item@)
}

/// `first_position` lies within the text, no `needle` stands before it, and
/// where it is not the end of the text a `needle` stands at it.
pub proof fn lemma_first_position<T>(text: Seq<T>, needle: T)
    ensures
        0 <= first_position(text, needle) <= text.len(),
        forall|i: int| 0 <= i < first_position(text, needle) ==> text[i] != needle,
        first_position(text, needle) < text.len() ==> text[first_position(text, needle)]
            == needle,
        first_position(text, needle) == text.len() <==> !text.contains(needle),
    decreases text.len(),
{
    if text.len() != 0 && text[0] != needle {
        let rest = text.drop_first();
        lemma_first_position(rest, needle);
        let at = first_position(text, needle);
        assert forall|i: int| 0 <= i < at implies text[i] != needle by {
            if i > 0 {
                assert(text[i] == rest[i - 1]);
            }
        }
        if at < text.len() {
            assert(text[at] == rest[at - 1]);
        }
    }
    let at = first_position(text, needle);
    if at == text.len() {
        assert(!text.contains(needle));
    } else {
        assert(text[at] == needle);
    }
}

/// A position before which no `needle` stands, and which is the end of the
/// text or holds a `needle`, is the first position of `needle`.
pub proof fn lemma_first_position_unique<T>(text: Seq<T>, needle: T, at: int)
    requires
        0 <= at <= text.len(),
        forall|i: int| 0 <= i < at ==> text[i] != needle,
        at < text.len() ==> text[at] == needle,
    ensures
        first_position(text, needle) == at,
{
    lemma_first_position(text, needle);
}

/// Finds the first `needle` in `text`, counting characters.
pub fn find_char(text: &str, needle: char) -> (at: usize)
    ensures
        at == first_position(text@, needle),
        at <= text@.len(),
{
    let length = text.unicode_len();
    let mut at: usize = 0;
    for letter in letters: text.chars()
        invariant
            at == letters.index(),
            letters.seq() == text@,
            length == text@.len(),
            forall|i: int| 0 <= i < at ==> text@[i] != needle,
    {
        if letter == needle {
            proof {
                lemma_first_position_unique(text@, needle, at as int);
            }
            return at;
        }
        at += 1;
    }
    proof {
        lemma_first_position_unique(text@, needle, at as int);
    }
    at
}

/// `String::push` of std: the string afterwards is the string before with
/// the one character added at its end.
#[verifier::external_body]
pub(crate) fn push_char(text: &mut String, letter: char)
    ensures
        final(text)@ == old(text)@.push(letter),
{
    text.push(letter);
}

/// An owned copy of the characters of `text` from `from` up to `to`.
pub fn copy_range(text: &str, from: usize, to: usize) -> (piece: String)
    requires
        from <= to <= text@.len(),
    ensures
        piece@ == text@.subrange(from as int, to as int),
{
    text.substring_char(from, to).to_owned()
}

/// Owned copies of the given string slices, in order.
pub fn copy_all(items: &[&str]) -> (copies: Vec<String>)
    ensures
        copies.deep_view() == str_views(items@),
{
    let mut copies: Vec<String> = Vec::new();
    let mut at: usize = 0;
    while at < items.len()
        invariant
            at <= items.len(),
            copies.len() == at,
            forall|i: int| 0 <= i < at ==> copies[i]@ == items[i]@,
        decreases items.len() - at,
    {
        copies.push(items[at].to_owned());
        at += 1;
    }
    assert(copies.deep_view() =~= str_views(items@));
    copies
}

} // verus!

//! Small operations on texts and on lists of texts.

use vstd::prelude::*;

verus! {

/// The texts that a list of strings holds, in order.
pub open spec fn string_views(strings: Seq<String>) -> Seq<Seq<char>> {
    Seq::new(strings.len(), |i: int| strings[i]@)
}

/// The parts in order, with `separator` between each two neighbours: the
/// empty text for no part, and the part itself where there is only one.
pub open spec fn joined(parts: Seq<Seq<char>>, separator: Seq<char>) -> Seq<char>
    decreases parts.len(),
{
    if parts.len() == 0 {
        Seq::empty()
    } else if parts.len() == 1 {
        parts[0]
    } else {
        joined(parts.drop_last(), separator) + separator + parts.last()
    }
}

/// Joins `parts` into one string, with `separator` between them.
pub fn join(parts: &Vec<String>, separator: &str) -> (text: String)
    ensures
        text@ == joined(string_views(parts@), separator@),
{
    let mut text = String::new();
    let mut i: usize = 0;
    while i < parts.len()
        invariant
            i <= parts.len(),
            text@ == joined(string_views(parts@).take(i as int), separator@),
        decreases parts.len() - i,
    {
        proof {
            let before = string_views(parts@).take(i as int);
            let after = string_views(parts@).take(i + 1);
            assert(after.drop_last() =~= before);
            assert(after.last() == parts[i as int]@);
            if i == 0 {
                assert(Seq::<char>::empty() + parts[i as int]@ =~= parts[i as int]@);
            }
        }
        if i > 0 {
            text.append(separator);
        }
        text.append(parts[i].as_str());
        i = i + 1;
    }
    proof {
        assert(string_views(parts@).take(i as int) =~= string_views(parts@));
    }
    text
}

/// Whether two strings hold the same text.
pub(crate) fn same_text(left: &str, right: &str) -> (same: bool)
    ensures
        same == (left@ == right@),
{
    let a = String::from_str(left);
    let b = String::from_str(right);
    a == b
}

/// The characters of a string, one by one.
pub(crate) fn chars_of(text: &str) -> (chars: Vec<char>)
    ensures
        chars@ == text@,
{
    let mut chars: Vec<char> = Vec::new();
    for c in it: text.chars()
        invariant
            it.seq() == text@,
            chars@ == text@.take(it.index() as int),
    {
        proof {
            assert(text@.take(it.index() + 1) =~= text@.take(it.index() as int).push(c));
        }
        chars.push(c);
    }
    proof {
        assert(text@.take(text@.len() as int) =~= text@);
    }
    chars
}

/// Joining nothing gives the empty text, joining one part gives that part,
/// and joining two gives the first, the separator and the second.
pub proof fn lemma_joined_few(first: Seq<char>, second: Seq<char>, separator: Seq<char>)
    ensures
        joined(Seq::empty(), separator) == Seq::<char>::empty(),
        joined(seq![first], separator) == first,
        joined(seq![first, second], separator) == first + separator + second,
{
    let two = seq![first, second];
    assert(two.drop_last() =~= seq![first]);
    assert(joined(two, separator) == joined(two.drop_last(), separator) + separator + two.last());
}

} // verus!

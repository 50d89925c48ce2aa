//! Finding placeholders in a template: a placeholder is a `%`, a name of
//! one character or more without a `%` in it, and a closing `%`.

use vstd::prelude::*;

verus! {

/// The first place at or after `from` where `text` holds a `%`, or the
/// length of `text` if there is none.
pub open spec fn next_percent(text: Seq<char>, from: int) -> int
    decreases text.len() - from,
{
    if from >= text.len() {
        text.len() as int
    } else if text[from] == '%' {
        from
    } else {
        next_percent(text, from + 1)
    }
}

/// Whether a placeholder stands in `text` from `open` to `close`: a `%` at
/// both places, and between them at least one character and no `%`.
pub open spec fn is_placeholder(text: Seq<char>, open: int, close: int) -> bool {
    &&& 0 <= open
    &&& open + 1 < close < text.len()
    &&& text[open] == '%'
    &&& text[close] == '%'
    &&& forall|k: int| open < k < close ==> text[k] != '%'
}

/// The first placeholder that opens at or after `from`, as the places of
/// its two `%`.
///
/// A `%` that is followed at once by another one opens nothing, and the
/// second of the two is tried in its turn. A `%` with no other one behind
/// it opens nothing either, and ends the search.
pub open spec fn find_placeholder(text: Seq<char>, from: int) -> Option<(int, int)>
    decreases text.len() - from,
{
    let open = next_percent(text, from);
    if open >= text.len() {
        None
    } else {
        let close = next_percent(text, open + 1);
        if close >= text.len() {
            None
        } else if close == open + 1 {
            proof {
                lemma_next_percent_advances(text, from);
            }
            find_placeholder(text, close)
        } else {
            Some((open, close))
        }
    }
}

/// Finds the first `%` at or after `from`.
pub(crate) fn scan_percent(text: &Vec<char>, from: usize) -> (at: usize)
    requires
        from <= text.len(),
    ensures
        at == next_percent(text@, from as int),
        from <= at <= text.len(),
{
    let mut at: usize = from;
    while at < text.len() && text[at] != '%'
        invariant
            from <= at <= text.len(),
            next_percent(text@, from as int) == next_percent(text@, at as int),
        decreases text.len() - at,
    {
        at = at + 1;
    }
    at
}

/// Finds the first placeholder that opens at or after `from`.
pub(crate) fn scan_placeholder(text: &Vec<char>, from: usize) -> (found: Option<(usize, usize)>)
    requires
        from <= text.len(),
    ensures
        match found {
            Some((open, close)) => find_placeholder(text@, from as int) == Some(
                (open as int, close as int),
            ) && from <= open && open + 1 < close < text.len(),
            None => find_placeholder(text@, from as int) is None,
        },
{
    let mut start: usize = from;
    loop
        invariant
            from <= start <= text.len(),
            find_placeholder(text@, from as int) == find_placeholder(text@, start as int),
        decreases text.len() - start,
    {
        let open = scan_percent(text, start);
        if open >= text.len() {
            return None;
        }
        let close = scan_percent(text, open + 1);
        if close >= text.len() {
            return None;
        }
        if close > open + 1 {
            return Some((open, close));
        }
        start = close;
    }
}

/// The search for a `%` never goes backwards.
pub proof fn lemma_next_percent_advances(text: Seq<char>, from: int)
    ensures
        from <= next_percent(text, from) || next_percent(text, from) == text.len(),
    decreases text.len() - from,
{
    if from < text.len() && text[from] != '%' {
        lemma_next_percent_advances(text, from + 1);
    }
}

/// `next_percent` finds the first `%` from `from` on: nothing before the
/// place it gives is a `%`, and the place itself is one unless it is the
/// end of the text.
pub proof fn lemma_next_percent(text: Seq<char>, from: int)
    requires
        0 <= from <= text.len(),
    ensures
        from <= next_percent(text, from) <= text.len(),
        next_percent(text, from) < text.len() ==> text[next_percent(text, from)] == '%',
        forall|k: int| from <= k < next_percent(text, from) ==> text[k] != '%',
    decreases text.len() - from,
{
    if from < text.len() && text[from] != '%' {
        lemma_next_percent(text, from + 1);
    }
}

/// If a placeholder is found from `from` on, it lies behind `from` and
/// within the text.
pub proof fn lemma_find_placeholder_bounds(text: Seq<char>, from: int)
    requires
        0 <= from <= text.len(),
    ensures
        match find_placeholder(text, from) {
            Some((open, close)) => from <= open && open + 1 < close < text.len(),
            None => true,
        },
    decreases text.len() - from,
{
    lemma_next_percent(text, from);
    let open = next_percent(text, from);
    if open < text.len() {
        lemma_next_percent(text, open + 1);
        let close = next_percent(text, open + 1);
        if close < text.len() && close == open + 1 {
            lemma_find_placeholder_bounds(text, close);
        }
    }
}

/// Where the text holds no `%` from `from` up to `at`, and `at` is a `%` or
/// the end of the text, the search from `from` stops at `at`.
pub proof fn lemma_next_percent_is(text: Seq<char>, from: int, at: int)
    requires
        0 <= from <= at <= text.len(),
        forall|k: int| from <= k < at ==> text[k] != '%',
        at < text.len() ==> text[at] == '%',
    ensures
        next_percent(text, from) == at,
    decreases at - from,
{
    if from < at {
        lemma_next_percent_is(text, from + 1, at);
    }
}

/// The placeholder that is found is one, and it is the leftmost: no
/// placeholder opens between `from` and the place where it opens. Where
/// none is found, none opens at or after `from`.
pub proof fn lemma_find_placeholder_leftmost(text: Seq<char>, from: int)
    requires
        0 <= from <= text.len(),
    ensures
        match find_placeholder(text, from) {
            Some((open, close)) => {
                &&& from <= open
                &&& is_placeholder(text, open, close)
                &&& forall|o: int, c: int| from <= o < open ==> !is_placeholder(text, o, c)
            },
            None => forall|o: int, c: int| from <= o ==> !is_placeholder(text, o, c),
        },
    decreases text.len() - from,
{
    lemma_next_percent(text, from);
    let open = next_percent(text, from);
    if open < text.len() {
        lemma_next_percent(text, open + 1);
        let close = next_percent(text, open + 1);
        if close >= text.len() {
            assert forall|o: int, c: int| from <= o implies !is_placeholder(text, o, c) by {
                if is_placeholder(text, o, c) {
                    if o < open {
                        assert(text[o] != '%');
                    } else {
                        assert(text[c] != '%');
                    }
                }
            }
        } else if close == open + 1 {
            lemma_find_placeholder_leftmost(text, close);
            match find_placeholder(text, close) {
                Some((found_open, found_close)) => {
                    assert forall|o: int, c: int| from <= o < found_open implies !is_placeholder(
                        text,
                        o,
                        c,
                    ) by {
                        if is_placeholder(text, o, c) {
                            if o < open {
                                assert(text[o] != '%');
                            } else if o == open {
                                assert(text[close] == '%');
                            }
                        }
                    }
                },
                None => {
                    assert forall|o: int, c: int| from <= o implies !is_placeholder(text, o, c) by {
                        if is_placeholder(text, o, c) {
                            if o < open {
                                assert(text[o] != '%');
                            } else if o == open {
                                assert(text[close] == '%');
                            }
                        }
                    }
                },
            }
        } else {
            assert forall|o: int, c: int| from <= o < open implies !is_placeholder(text, o, c) by {
                if is_placeholder(text, o, c) {
                    assert(text[o] != '%');
                }
            }
        }
    } else {
        assert forall|o: int, c: int| from <= o implies !is_placeholder(text, o, c) by {
            if is_placeholder(text, o, c) {
                assert(text[o] != '%');
            }
        }
    }
}

/// A placeholder is closed by the first `%` behind the one that opens it,
/// so that no two placeholders open at the same place.
pub proof fn lemma_placeholder_close_is_unique(text: Seq<char>, open: int, first: int, second: int)
    requires
        is_placeholder(text, open, first),
        is_placeholder(text, open, second),
    ensures
        first == second,
{
    if first < second {
        assert(text[first] != '%');
    } else if second < first {
        assert(text[second] != '%');
    }
}

/// Searching behind a prefix is searching in what follows the prefix.
pub proof fn lemma_next_percent_shift(prefix: Seq<char>, rest: Seq<char>, from: int)
    requires
        0 <= from <= rest.len(),
    ensures
        next_percent(prefix + rest, prefix.len() + from) == prefix.len() + next_percent(rest, from),
    decreases rest.len() - from,
{
    if from < rest.len() {
        assert((prefix + rest)[prefix.len() + from] == rest[from]);
        if rest[from] != '%' {
            lemma_next_percent_shift(prefix, rest, from + 1);
        }
    }
}

/// The placeholders behind a prefix are those of what follows the prefix,
/// moved by its length.
pub proof fn lemma_find_placeholder_shift(prefix: Seq<char>, rest: Seq<char>, from: int)
    requires
        0 <= from <= rest.len(),
    ensures
        find_placeholder(prefix + rest, prefix.len() + from) == match find_placeholder(rest, from) {
            Some((open, close)) => Some((prefix.len() + open, prefix.len() + close)),
            None => None,
        },
    decreases rest.len() - from,
{
    lemma_next_percent(rest, from);
    lemma_next_percent_shift(prefix, rest, from);
    let open = next_percent(rest, from);
    if open < rest.len() {
        lemma_next_percent(rest, open + 1);
        lemma_next_percent_shift(prefix, rest, open + 1);
        let close = next_percent(rest, open + 1);
        if close < rest.len() && close == open + 1 {
            lemma_find_placeholder_shift(prefix, rest, close);
        }
    }
}

} // verus!

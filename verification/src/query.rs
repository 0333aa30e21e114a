//! The query of a URL, read as it is written: no character is decoded.

use vstd::prelude::*;

use crate::text::{chars_of, find, first, spells, text_of};

verus! {

/// The query of a URL: what stands behind the first `?`, as far as the URL
/// goes before its fragment. A URL without a `?` has an empty query.
pub open spec fn query_of(url: Seq<char>) -> Seq<char> {
    let whole = url.take(first(url, '#'));
    let mark = first(whole, '?');
    if mark < whole.len() {
        whole.skip(mark + 1)
    } else {
        Seq::empty()
    }
}

/// The value that a query gives to a key: the query is a run of pairs with
/// `&` between them, a pair is a key, `=` and a value, and the first pair of
/// the key counts. A part without `=` is no pair.
pub open spec fn param(query: Seq<char>, key: Seq<char>) -> Option<Seq<char>>
    decreases query.len(),
{
    let end = first(query, '&');
    let pair = query.take(end);
    let eq = first(pair, '=');
    if eq < pair.len() && pair.take(eq) == key {
        Some(pair.skip(eq + 1))
    } else if 0 <= end < query.len() {
        param(query.skip(end + 1), key)
    } else {
        None
    }
}

/// The value that a URL gives to a key of its query.
pub open spec fn query_param(url: Seq<char>, key: Seq<char>) -> Option<Seq<char>> {
    param(query_of(url), key)
}

/// Where the value of `key` stands in the query that runs from `from` up to
/// `to`.
fn param_in(chars: &Vec<char>, from: usize, to: usize, key: &Vec<char>) -> (found: Option<
    (usize, usize),
>)
    requires
        from <= to <= chars.len(),
    ensures
        match found {
            Some((start, end)) => from <= start <= end <= to && param(
                chars@.subrange(from as int, to as int),
                key@,
            ) == Some(chars@.subrange(start as int, end as int)),
            None => param(chars@.subrange(from as int, to as int), key@) is None,
        },
{
    let mut start: usize = from;
    loop
        invariant
            from <= start <= to <= chars.len(),
            param(chars@.subrange(from as int, to as int), key@) == param(
                chars@.subrange(start as int, to as int),
                key@,
            ),
        decreases to - start,
    {
        let end = find(chars, '&', start, to);
        let eq = find(chars, '=', start, end);
        proof {
            let query = chars@.subrange(start as int, to as int);
            assert(query.take(end - start) == chars@.subrange(start as int, end as int));
            let pair = query.take(end - start);
            assert(pair.take(eq - start) == chars@.subrange(start as int, eq as int));
            if end < to {
                assert(query.skip(end - start + 1) == chars@.subrange(end + 1, to as int));
            }
        }
        if eq < end && spells(chars, start, eq, key) {
            return Some((eq + 1, end));
        }
        if end < to {
            start = end + 1;
        } else {
            return None;
        }
    }
}

/// The value that a URL gives to a key of its query, if it gives one.
pub fn query_value(url: &str, key: &str) -> (value: Option<String>)
    ensures
        match value {
            Some(v) => query_param(url@, key@) == Some(v@),
            None => query_param(url@, key@) is None,
        },
{
    let chars = chars_of(url);
    let key = chars_of(key);
    let end = find(&chars, '#', 0, chars.len());
    let mark = find(&chars, '?', 0, end);
    proof {
        assert(chars@.subrange(0, chars.len() as int) == chars@);
    }
    if mark < end {
        proof {
            assert(chars@.take(end as int).skip(mark + 1) == chars@.subrange(mark + 1, end as int));
        }
        match param_in(&chars, mark + 1, end, &key) {
            Some((from, to)) => Some(text_of(&chars, from, to)),
            None => None,
        }
    } else {
        None
    }
}

} // verus!

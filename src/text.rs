use vstd::prelude::*;

verus! {

/// `s` with every occurrence of `from` replaced by `to`, scanning left to right
/// without overlaps.
pub open spec fn replaced(s: Seq<char>, from: Seq<char>, to: Seq<char>) -> Seq<char>
    decreases s.len(),
{
    if from.len() == 0 || s.len() < from.len() {
        s
    } else if s.subrange(0, from.len() as int) == from {
        to + replaced(s.skip(from.len() as int), from, to)
    } else {
        seq![s[0]] + replaced(s.skip(1), from, to)
    }
}

/// The part of `s` before the first `c`, or all of `s` when it holds no `c`.
pub open spec fn before_char(s: Seq<char>, c: char) -> Seq<char>
    decreases s.len(),
{
    if s.len() == 0 {
        s
    } else if s[0] == c {
        Seq::empty()
    } else {
        seq![s[0]] + before_char(s.skip(1), c)
    }
}

/// The items of `items` in order, with `sep` between each two neighbours.
pub open spec fn joined(items: Seq<Seq<char>>, sep: Seq<char>) -> Seq<char>
    decreases items.len(),
{
    if items.len() == 0 {
        Seq::empty()
    } else if items.len() == 1 {
        items[0]
    } else {
        joined(items.drop_last(), sep) + sep + items.last()
    }
}

/// Replacing passes over a prefix in which no position starts the pattern's
/// first two characters.
pub proof fn replaced_passes_prefix(p: Seq<char>, rest: Seq<char>, from: Seq<char>, to: Seq<char>)
    requires
        from.len() > 1,
        forall|i: int|
            0 <= i < p.len() ==> #[trigger] p[i] != from[0] || (i + 1 < p.len() && p[i + 1]
                != from[1]),
    ensures
        replaced(p + rest, from, to) == p + replaced(rest, from, to),
    decreases p.len(),
{
    if p.len() == 0 {
        assert(p + rest =~= rest);
    } else {
        let s = p + rest;
        if s.len() >= from.len() {
            assert(s.subrange(0, from.len() as int)[0] == p[0]);
            assert(p.len() > 1 ==> s.subrange(0, from.len() as int)[1] == p[1]);
        }
        assert forall|i: int| 0 <= i < p.skip(1).len() implies #[trigger] p.skip(1)[i] != from[0] || (i + 1
            < p.skip(1).len() && p.skip(1)[i + 1] != from[1]) by {
            assert(p.skip(1)[i] == p[i + 1]);
        }
        replaced_passes_prefix(p.skip(1), rest, from, to);
        assert(s.skip(1) =~= p.skip(1) + rest);
        assert(seq![p[0]] + (p.skip(1) + replaced(rest, from, to)) =~= p + replaced(rest, from, to));
    }
}

/// The views of a list of strings.
pub open spec fn views(v: Seq<String>) -> Seq<Seq<char>> {
    v.map_values(|s: String| s@)
}

/// Relies on str::replace: a new string in which each non-overlapping match of
/// a non-empty pattern, found from the left, is replaced by `to`.
#[verifier::external_body]
pub(crate) fn replace_all(s: &str, from: &str, to: &str) -> (r: String)
    requires
        from@.len() > 0,
    ensures
        r@ == replaced(s@, from@, to@),
{
    s.replace(from, to)
}

/// Relies on str::split: its first piece is the text before the first `c`, or
/// the whole string when `c` does not occur.
#[verifier::external_body]
pub(crate) fn text_before(s: &str, c: char) -> (r: String)
    ensures
        r@ == before_char(s@, c),
{
    s.split(c).next().unwrap_or("").to_string()
}

/// Joins `items` with `sep` between each two neighbours.
pub fn join(items: &Vec<String>, sep: &str) -> (r: String)
    ensures
        r@ == joined(views(items@), sep@),
{
    let mut r = String::new();
    let mut i: usize = 0;
    while i < items.len()
        invariant
            i <= items.len(),
            r@ == joined(views(items@.subrange(0, i as int)), sep@),
        decreases items.len() - i,
    {
        let ghost prev = items@.subrange(0, i as int);
        let ghost next = items@.subrange(0, i as int + 1);
        assert(views(next).drop_last() == views(prev));
        if i > 0 {
            r.append(sep);
        }
        r.append(items[i].as_str());
        i = i + 1;
    }
    assert(items@.subrange(0, items.len() as int) == items@);
    r
}

} // verus!

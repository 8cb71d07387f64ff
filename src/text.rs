//! Character-level helpers on strings: comparison and splitting.
use vstd::prelude::*;

verus! {

/// The pieces of `s` between occurrences of `sep`, in order.
/// An empty `s` has one empty piece; every separator starts a new piece.
pub open spec fn split_spec(s: Seq<char>, sep: char) -> Seq<Seq<char>>
    decreases s.len(),
{
    if s.len() == 0 {
        seq![Seq::<char>::empty()]
    } else {
        let prev = split_spec(s.drop_last(), sep);
        if s.last() == sep {
            prev.push(Seq::<char>::empty())
        } else {
            prev.update(prev.len() - 1, prev.last().push(s.last()))
        }
    }
}

/// The character sequences of a vector of strings.
pub open spec fn views_of(v: Seq<String>) -> Seq<Seq<char>> {
    v.map_values(|t: String| t@)
}

/// Whether `a` and `b` hold the same characters.
pub fn same_text(a: &str, b: &str) -> (r: bool)
    ensures
        r == (a@ == b@),
{
    let n = a.unicode_len();
    if n != b.unicode_len() {
        return false;
    }
    let mut i: usize = 0;
    while i < n
        invariant
            n == a@.len(),
            n == b@.len(),
            i <= n,
            a@.take(i as int) == b@.take(i as int),
        decreases n - i,
    {
        if a.get_char(i) != b.get_char(i) {
            return false;
        }
        assert(a@.take(i + 1) == a@.take(i as int).push(a@[i as int]));
        assert(b@.take(i + 1) == b@.take(i as int).push(b@[i as int]));
        i = i + 1;
    }
    assert(a@ == a@.take(n as int));
    assert(b@ == b@.take(n as int));
    true
}

/// Splits `line` at every occurrence of `sep`.
pub fn split_fields(line: &str, sep: char) -> (r: Vec<String>)
    ensures
        views_of(r@) == split_spec(line@, sep),
{
    let n = line.unicode_len();
    let mut pieces: Vec<String> = Vec::new();
    let mut start: usize = 0;
    let mut i: usize = 0;
    assert(line@.take(0) == Seq::<char>::empty());
    assert(line@.subrange(0, 0) == Seq::<char>::empty());
    while i < n
        invariant
            n == line@.len(),
            start <= i <= n,
            split_spec(line@.take(i as int), sep) == views_of(pieces@).push(
                line@.subrange(start as int, i as int),
            ),
        decreases n - i,
    {
        let c = line.get_char(i);
        let ghost before = line@.take(i as int);
        assert(line@.take(i + 1).drop_last() == before);
        assert(line@.take(i + 1).last() == c);
        if c == sep {
            let piece = String::from_str(line.substring_char(start, i));
            let ghost done = pieces@;
            pieces.push(piece);
            assert(views_of(pieces@) =~= views_of(done).push(piece@));
            start = i + 1;
            assert(line@.subrange(start as int, i + 1) == Seq::<char>::empty());
        } else {
            assert(line@.subrange(start as int, i + 1) == line@.subrange(
                start as int,
                i as int,
            ).push(c));
        }
        i = i + 1;
        assert(views_of(pieces@).push(line@.subrange(start as int, i as int)) =~= split_spec(
            line@.take(i as int),
            sep,
        ));
    }
    pieces.push(String::from_str(line.substring_char(start, n)));
    assert(line@.take(n as int) == line@);
    assert(views_of(pieces@) =~= split_spec(line@, sep));
    pieces
}


/// Splitting always yields at least one piece.
pub proof fn lemma_split_nonempty(s: Seq<char>, sep: char)
    ensures
        split_spec(s, sep).len() >= 1,
    decreases s.len(),
{
    if s.len() > 0 {
        lemma_split_nonempty(s.drop_last(), sep);
    }
}

} // verus!

//! Splitting and joining text on a single separator character.

use vstd::prelude::*;

verus! {

/// The pieces of `s` between occurrences of `sep`, read from left to right:
/// a separator closes the current piece and opens a new, empty one; any
/// other character extends the current piece. The empty text has one piece,
/// itself.
pub open spec fn split(s: Seq<char>, sep: char) -> Seq<Seq<char>>
    decreases s.len(),
{
    if s.len() == 0 {
        seq![Seq::empty()]
    } else {
        let before = split(s.drop_last(), sep);
        if s.last() == sep {
            before.push(Seq::empty())
        } else {
            before.drop_last().push(before.last().push(s.last()))
        }
    }
}

/// The pieces put back together, with one `sep` between neighbours.
pub open spec fn join(pieces: Seq<Seq<char>>, sep: char) -> Seq<char>
    decreases pieces.len(),
{
    if pieces.len() == 0 {
        Seq::empty()
    } else if pieces.len() == 1 {
        pieces[0]
    } else {
        join(pieces.drop_last(), sep) + seq![sep] + pieces.last()
    }
}

/// No piece holds the separator.
pub open spec fn clean(pieces: Seq<Seq<char>>, sep: char) -> bool {
    forall|i: int, j: int|
        0 <= i < pieces.len() && 0 <= j < pieces[i].len() ==> pieces[i][j] != sep
}

/// Splitting yields one piece more than the text has separators.
pub proof fn lemma_split_count(s: Seq<char>, sep: char)
    ensures
        split(s, sep).len() == s.to_multiset().count(sep) + 1,
    decreases s.len(),
{
    broadcast use vstd::seq_lib::group_to_multiset_ensures;

    if s.len() > 0 {
        lemma_split_count(s.drop_last(), sep);
        assert(s =~= s.drop_last().push(s.last()));
    }
}

/// Splitting leaves the separator in no piece.
pub proof fn lemma_split_clean(s: Seq<char>, sep: char)
    ensures
        clean(split(s, sep), sep),
    decreases s.len(),
{
    if s.len() > 0 {
        lemma_split_count(s.drop_last(), sep);
        lemma_split_clean(s.drop_last(), sep);
    }
}

/// Joining the pieces of a text gives the text back: splitting loses
/// nothing and keeps the order.
pub proof fn lemma_join_split(s: Seq<char>, sep: char)
    ensures
        join(split(s, sep), sep) == s,
    decreases s.len(),
{
    if s.len() > 0 {
        let before = split(s.drop_last(), sep);
        lemma_split_count(s.drop_last(), sep);
        lemma_join_split(s.drop_last(), sep);
        if s.last() == sep {
            assert(before.push(Seq::empty()).drop_last() =~= before);
        } else {
            let grown = before.drop_last().push(before.last().push(s.last()));
            assert(grown.drop_last() =~= before.drop_last());
            if before.len() > 1 {
                let front = join(before.drop_last(), sep) + seq![sep];
                assert(front + before.last().push(s.last()) =~= (front + before.last()).push(
                    s.last(),
                ));
            }
        }
    }
}

/// Joining can be read from the left: the first piece, a separator, and
/// the rest joined.
pub proof fn lemma_join_first(pieces: Seq<Seq<char>>, sep: char)
    requires
        pieces.len() >= 2,
    ensures
        join(pieces, sep) == pieces[0].push(sep) + join(pieces.skip(1), sep),
    decreases pieces.len(),
{
    if pieces.len() == 2 {
        assert(join(pieces.drop_last(), sep) == pieces[0]);
    } else {
        lemma_join_first(pieces.drop_last(), sep);
        assert(pieces.drop_last().skip(1) =~= pieces.skip(1).drop_last());
    }
}

/// Splitting undoes joining: pieces that are free of the separator come
/// back as they were, in number and in order.
pub proof fn lemma_split_join(pieces: Seq<Seq<char>>, sep: char)
    requires
        pieces.len() >= 1,
        clean(pieces, sep),
    ensures
        split(join(pieces, sep), sep) == pieces,
    decreases pieces.len(), pieces.last().len(),
{
    let whole = join(pieces, sep);
    let end = pieces.last();
    if end.len() == 0 {
        if pieces.len() == 1 {
            assert(whole =~= Seq::empty());
        } else {
            let front = pieces.drop_last();
            lemma_split_join(front, sep);
            assert(whole.drop_last() =~= join(front, sep));
            assert(end =~= Seq::<char>::empty());
        }
    } else {
        let shorter = pieces.drop_last().push(end.drop_last());
        assert(shorter.drop_last() =~= pieces.drop_last());
        assert forall|i: int, j: int|
            0 <= i < shorter.len() && 0 <= j < shorter[i].len() implies shorter[i][j] != sep by {
            assert(shorter[i][j] == pieces[i][j]);
        }
        lemma_split_join(shorter, sep);
        assert(join(shorter, sep) =~= whole.drop_last());
        assert(end.drop_last().push(end.last()) =~= end);
    }
}

/// The pieces of `line` between occurrences of `sep`, in order.
pub fn split_on(line: &str, sep: char) -> (pieces: Vec<String>)
    ensures
        pieces.deep_view() == split(line@, sep),
{
    let len = line.unicode_len();
    let mut pieces: Vec<String> = Vec::new();
    let mut start: usize = 0;
    let mut at: usize = 0;
    proof {
        assert(line@.subrange(0, 0) =~= Seq::<char>::empty());
    }
    for c in it: line.chars()
        invariant
            it.seq() == line@,
            len == line@.len(),
            at == it.index(),
            start <= at <= len,
            pieces.deep_view().push(line@.subrange(start as int, at as int)) == split(
                line@.subrange(0, at as int),
                sep,
            ),
    {
        let ghost piece = line@.subrange(start as int, at as int);
        proof {
            assert(line@.subrange(0, at as int + 1).drop_last() =~= line@.subrange(0, at as int));
        }
        if c == sep {
            pieces.push(String::from_str(line.substring_char(start, at)));
            start = at + 1;
            proof {
                assert(line@.subrange(start as int, at as int + 1) =~= Seq::<char>::empty());
            }
        } else {
            proof {
                assert(line@.subrange(start as int, at as int + 1) =~= piece.push(c));
            }
        }
        at = at + 1;
    }
    pieces.push(String::from_str(line.substring_char(start, at)));
    proof {
        assert(line@.subrange(0, at as int) =~= line@);
    }
    pieces
}

} // verus!

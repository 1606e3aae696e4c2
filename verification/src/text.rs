//! Text helpers: comparison and separator-delimited lists.

use vstd::prelude::*;
use vstd::std_specs::iter::IteratorSpec;

verus! {

/// The pieces of `text` between occurrences of `sep`, in order.
///
/// A text without the separator is one piece, and the empty text is one empty piece.
pub open spec fn split(text: Seq<char>, sep: char) -> Seq<Seq<char>>
    decreases text.len(),
{
    if text.len() == 0 {
        seq![Seq::<char>::empty()]
    } else {
        let pieces = split(text.drop_last(), sep);
        if text.last() == sep {
            pieces.push(Seq::<char>::empty())
        } else {
            pieces.drop_last().push(pieces.last().push(text.last()))
        }
    }
}

/// The text made of `pieces` with `sep` between neighbours.
pub open spec fn join(pieces: Seq<Seq<char>>, sep: char) -> Seq<char>
    decreases pieces.len(),
{
    if pieces.len() == 0 {
        Seq::<char>::empty()
    } else if pieces.len() == 1 {
        pieces[0]
    } else {
        join(pieces.drop_last(), sep).push(sep) + pieces.last()
    }
}

/// Tells whether two texts hold the same characters.
pub fn same_text(a: &str, b: &str) -> (same: bool)
    ensures
        same == (a@ == b@),
{
    let mut rest_a = a.chars();
    let mut rest_b = b.chars();
    let ghost mut done: int = 0;
    loop
        invariant
            0 <= done <= a@.len(),
            done <= b@.len(),
            rest_a.obeys_prophetic_iter_laws(),
            rest_b.obeys_prophetic_iter_laws(),
            rest_a.remaining() == a@.skip(done),
            rest_b.remaining() == b@.skip(done),
            a@.take(done) == b@.take(done),
        decreases a@.len() - done,
    {
        let next_a = rest_a.next();
        let next_b = rest_b.next();
        match (next_a, next_b) {
            (Some(x), Some(y)) => {
                if x != y {
                    return false;
                }
            },
            (None, None) => {
                assert(a@.take(done) =~= a@);
                assert(b@.take(done) =~= b@);
                return true;
            },
            _ => {
                return false;
            },
        }
        proof {
            done = done + 1;
        }
    }
}

/// Cuts `text` at every occurrence of `sep`.
pub fn split_text<'a>(text: &'a str, sep: char) -> (pieces: Vec<&'a str>)
    ensures
        pieces@.len() == split(text@, sep).len(),
        forall|i: int| 0 <= i < pieces@.len() ==> (#[trigger] pieces@[i])@ == split(text@, sep)[i],
{
    let total: usize = text.unicode_len();
    let mut pieces: Vec<&'a str> = Vec::new();
    let mut start: usize = 0;
    let mut at: usize = 0;
    let mut rest = text.chars();
    while at < total
        invariant
            start <= at <= total,
            total == text@.len(),
            rest.obeys_prophetic_iter_laws(),
            rest.remaining() == text@.skip(at as int),
            pieces@.len() + 1 == split(text@.take(at as int), sep).len(),
            forall|i: int|
                0 <= i < pieces@.len() ==> (#[trigger] pieces@[i])@ == split(
                    text@.take(at as int),
                    sep,
                )[i],
            split(text@.take(at as int), sep).last() == text@.subrange(start as int, at as int),
        decreases total - at,
    {
        let ghost before = text@.take(at as int);
        if let Some(c) = rest.next() {
            proof {
                assert(text@.take(at + 1).drop_last() =~= before);
            }
            if c == sep {
                pieces.push(text.substring_char(start, at));
                start = at + 1;
            }
        }
        at = at + 1;
    }
    pieces.push(text.substring_char(start, total));
    proof {
        assert(text@.take(total as int) =~= text@);
    }
    pieces
}

/// A text has at least one piece.
proof fn lemma_split_is_nonempty(text: Seq<char>, sep: char)
    ensures
        split(text, sep).len() >= 1,
    decreases text.len(),
{
    if text.len() > 0 {
        lemma_split_is_nonempty(text.drop_last(), sep);
    }
}

/// No piece holds the separator.
pub proof fn law_pieces_hold_no_separator(text: Seq<char>, sep: char)
    ensures
        forall|i: int|
            0 <= i < split(text, sep).len() ==> !(#[trigger] split(text, sep)[i]).contains(sep),
    decreases text.len(),
{
    if text.len() > 0 {
        law_pieces_hold_no_separator(text.drop_last(), sep);
        lemma_split_is_nonempty(text.drop_last(), sep);
        let head = split(text.drop_last(), sep);
        assert(!head[head.len() - 1].contains(sep));
        assert forall|i: int| 0 <= i < split(text, sep).len() implies !(#[trigger] split(
            text,
            sep,
        )[i]).contains(sep) by {
            if text.last() != sep {
                if i == head.len() - 1 {
                    let piece = head.last().push(text.last());
                    if piece.contains(sep) {
                        let k = piece.index_of(sep);
                        assert(head.last()[k] == sep);
                    }
                } else {
                    assert(split(text, sep)[i] == head[i]);
                }
            } else if i < head.len() {
                assert(split(text, sep)[i] == head[i]);
            }
        }
    }
}

/// Joining the pieces of a text gives the text back.
pub proof fn law_join_undoes_split(text: Seq<char>, sep: char)
    ensures
        join(split(text, sep), sep) == text,
    decreases text.len(),
{
    if text.len() > 0 {
        law_join_undoes_split(text.drop_last(), sep);
        lemma_split_is_nonempty(text.drop_last(), sep);
        let head = split(text.drop_last(), sep);
        let pieces = split(text, sep);
        if text.last() == sep {
            assert(pieces.drop_last() =~= head);
            assert(join(pieces, sep) =~= text);
        } else {
            assert(pieces.drop_last() =~= head.drop_last());
            assert(join(pieces, sep) =~= join(head, sep).push(text.last()));
            assert(join(pieces, sep) =~= text);
        }
    }
}

/// A separator followed by a piece without one adds just that piece.
proof fn lemma_split_of_appended_piece(text: Seq<char>, sep: char, piece: Seq<char>)
    requires
        !piece.contains(sep),
    ensures
        split(text.push(sep) + piece, sep) == split(text, sep).push(piece),
    decreases piece.len(),
{
    let whole = text.push(sep) + piece;
    if piece.len() == 0 {
        assert(whole =~= text.push(sep));
        assert(whole.drop_last() =~= text);
        assert(piece =~= Seq::<char>::empty());
    } else {
        let shorter = piece.drop_last();
        assert(!shorter.contains(sep)) by {
            if shorter.contains(sep) {
                assert(piece[shorter.index_of(sep)] == sep);
            }
        }
        lemma_split_of_appended_piece(text, sep, shorter);
        assert(whole.drop_last() =~= text.push(sep) + shorter);
        assert(whole.last() == piece.last());
        assert(piece[piece.len() - 1] != sep);
        assert(split(text, sep).push(shorter).drop_last() =~= split(text, sep));
        assert(shorter.push(piece.last()) =~= piece);
    }
}

/// A text without the separator is its own only piece.
proof fn lemma_split_of_single_piece(piece: Seq<char>, sep: char)
    requires
        !piece.contains(sep),
    ensures
        split(piece, sep) == seq![piece],
    decreases piece.len(),
{
    if piece.len() == 0 {
        assert(piece =~= Seq::<char>::empty());
    } else {
        let shorter = piece.drop_last();
        assert(!shorter.contains(sep)) by {
            if shorter.contains(sep) {
                assert(piece[shorter.index_of(sep)] == sep);
            }
        }
        lemma_split_of_single_piece(shorter, sep);
        assert(piece[piece.len() - 1] != sep);
        assert(shorter.push(piece.last()) =~= piece);
        assert(split(piece, sep) =~= seq![piece]);
    }
}

/// Splitting joined pieces gives the pieces back, whatever they are, as long as there is
/// one and none holds the separator.
pub proof fn law_split_undoes_join(pieces: Seq<Seq<char>>, sep: char)
    requires
        pieces.len() >= 1,
        forall|i: int| 0 <= i < pieces.len() ==> !(#[trigger] pieces[i]).contains(sep),
    ensures
        split(join(pieces, sep), sep) == pieces,
    decreases pieces.len(),
{
    if pieces.len() == 1 {
        lemma_split_of_single_piece(pieces[0], sep);
        assert(pieces =~= seq![pieces[0]]);
    } else {
        let head = pieces.drop_last();
        assert forall|i: int| 0 <= i < head.len() implies !(#[trigger] head[i]).contains(sep) by {
            assert(head[i] == pieces[i]);
        }
        law_split_undoes_join(head, sep);
        assert(!pieces[pieces.len() - 1].contains(sep));
        lemma_split_of_appended_piece(join(head, sep), sep, pieces.last());
        assert(head.push(pieces.last()) =~= pieces);
    }
}

/// A text has one piece more than it has separators.
pub proof fn law_every_separator_adds_a_piece(text: Seq<char>, sep: char)
    ensures
        split(text, sep).len() == 1 + text.filter(|c: char| c == sep).len(),
    decreases text.len(),
{
    reveal(Seq::filter);
    if text.len() > 0 {
        law_every_separator_adds_a_piece(text.drop_last(), sep);
    }
}

/// Joined pieces follow one another with one separator between neighbours, and nothing else.
pub proof fn law_join_puts_one_separator_between(
    pieces: Seq<Seq<char>>,
    piece: Seq<char>,
    sep: char,
)
    ensures
        join(Seq::<Seq<char>>::empty(), sep) == Seq::<char>::empty(),
        join(seq![piece], sep) == piece,
        pieces.len() > 0 ==> join(pieces.push(piece), sep) == join(pieces, sep) + seq![sep] + piece,
{
    if pieces.len() > 0 {
        assert(pieces.push(piece).drop_last() =~= pieces);
        assert(join(pieces, sep).push(sep) =~= join(pieces, sep) + seq![sep]);
    }
}

} // verus!

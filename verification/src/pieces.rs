//! A template seen as the pieces of text between its tokens, and what the
//! expansion does to them: the pieces stay, the tokens between them become the
//! previous command.

use crate::expand::{contains_token, expand_spec, lemma_expand_without_token, starts_with_token, token_at, BANG};
use vstd::prelude::*;

verus! {

/// The token `!!` as text.
pub open spec fn token() -> Seq<char> {
    seq![BANG, BANG]
}

/// The pieces written one after another with `separator` between neighbours.
pub open spec fn join(pieces: Seq<Seq<char>>, separator: Seq<char>) -> Seq<char>
    decreases pieces.len(),
{
    if pieces.len() == 0 {
        Seq::empty()
    } else if pieces.len() == 1 {
        pieces[0]
    } else {
        pieces[0] + (separator + join(pieces.skip(1), separator))
    }
}

/// Whether a token written after `piece` is the first token of the whole: the
/// piece holds none and does not end in a `!` that would pair with the
/// token's first character.
pub open spec fn ends_before_token(piece: Seq<char>) -> bool {
    !contains_token(piece) && (piece.len() == 0 || piece.last() != BANG)
}

/// Whether `pieces` are what a scan from the left leaves between the tokens
/// of `join(pieces, token())`: there is at least one piece, no piece holds a
/// token, and no piece that a token follows ends in `!`.
pub open spec fn split_at_tokens(pieces: Seq<Seq<char>>) -> bool {
    &&& pieces.len() >= 1
    &&& !contains_token(pieces.last())
    &&& forall|i: int| 0 <= i < pieces.len() - 1 ==> ends_before_token(#[trigger] pieces[i])
}

/// The pieces between the tokens of `template`, found by the same scan from
/// the left as the expansion makes.
pub open spec fn pieces_of(template: Seq<char>) -> Seq<Seq<char>>
    decreases template.len(),
{
    if template.len() == 0 {
        seq![Seq::empty()]
    } else if starts_with_token(template) {
        seq![Seq::empty()] + pieces_of(template.skip(2))
    } else {
        let rest = pieces_of(template.skip(1));
        rest.update(0, seq![template[0]] + rest[0])
    }
}

/// The expansion passes over a piece that ends before a token and leaves it
/// as it is, whatever text follows.
pub proof fn lemma_expand_past_piece(piece: Seq<char>, rest: Seq<char>, previous: Seq<char>)
    requires
        ends_before_token(piece),
    ensures
        expand_spec(piece + rest, previous) == piece + expand_spec(rest, previous),
    decreases piece.len(),
{
    let whole = piece + rest;
    if piece.len() == 0 {
        assert(whole == rest);
    } else {
        let shorter = piece.skip(1);
        assert(!starts_with_token(whole)) by {
            if starts_with_token(whole) && piece.len() >= 2 {
                assert(token_at(piece, 0));
            }
        }
        assert(ends_before_token(shorter)) by {
            if contains_token(shorter) {
                let at = choose|at: int| token_at(shorter, at);
                assert(token_at(piece, at + 1));
            }
        }
        assert(whole.skip(1) == shorter + rest);
        lemma_expand_past_piece(shorter, rest, previous);
    }
}

/// Every token of the template becomes the previous command and nothing else
/// changes: where pieces are joined by tokens, the expansion is the same
/// pieces joined by the previous command. The text put in is not scanned
/// again, so this holds also where the previous command holds a token.
pub proof fn lemma_expand_joined(pieces: Seq<Seq<char>>, previous: Seq<char>)
    requires
        split_at_tokens(pieces),
    ensures
        expand_spec(join(pieces, token()), previous) == join(pieces, previous),
    decreases pieces.len(),
{
    if pieces.len() == 1 {
        lemma_expand_without_token(pieces[0], previous);
    } else {
        let others = pieces.skip(1);
        let tail = join(others, token());
        assert(split_at_tokens(others)) by {
            assert(others.last() == pieces.last());
            assert forall|i: int| 0 <= i < others.len() - 1 implies ends_before_token(
                #[trigger] others[i],
            ) by {
                assert(others[i] == pieces[i + 1]);
            }
        }
        lemma_expand_joined(others, previous);
        lemma_expand_past_piece(pieces[0], token() + tail, previous);
        assert((token() + tail).skip(2) == tail);
    }
}

/// Text joined from pieces that are split at the tokens holds a token exactly
/// where there is more than one piece.
pub proof fn lemma_token_between_pieces(pieces: Seq<Seq<char>>)
    requires
        split_at_tokens(pieces),
    ensures
        contains_token(join(pieces, token())) <==> pieces.len() >= 2,
{
    if pieces.len() >= 2 {
        assert(token_at(join(pieces, token()), pieces[0].len() as int));
    }
}

/// Putting text in front of the first piece puts it in front of the whole.
proof fn lemma_join_extend_first(
    pieces: Seq<Seq<char>>,
    front: Seq<char>,
    separator: Seq<char>,
)
    requires
        pieces.len() >= 1,
    ensures
        join(pieces.update(0, front + pieces[0]), separator) == front + join(pieces, separator),
{
    if pieces.len() > 1 {
        assert(pieces.update(0, front + pieces[0]).skip(1) == pieces.skip(1));
    }
}

/// Every template is its pieces joined by tokens, and the pieces are split at
/// the tokens.
pub proof fn lemma_pieces_of(template: Seq<char>)
    ensures
        split_at_tokens(pieces_of(template)),
        join(pieces_of(template), token()) == template,
    decreases template.len(),
{
    let pieces = pieces_of(template);
    if template.len() == 0 {
    } else if starts_with_token(template) {
        let others = pieces_of(template.skip(2));
        lemma_pieces_of(template.skip(2));
        assert(pieces.skip(1) == others);
        assert forall|i: int| 0 <= i < pieces.len() - 1 implies ends_before_token(
            #[trigger] pieces[i],
        ) by {
            if i > 0 {
                assert(pieces[i] == others[i - 1]);
            }
        }
    } else {
        let rest = template.skip(1);
        let others = pieces_of(rest);
        let head = seq![template[0]];
        let first = head + others[0];
        lemma_pieces_of(rest);
        lemma_join_extend_first(others, head, token());
        // The first piece of the rest is how the rest begins, and where more
        // pieces follow, a token comes right after it.
        assert(others[0].is_prefix_of(rest));
        assert(!contains_token(first)) by {
            if contains_token(first) {
                let at = choose|at: int| token_at(first, at);
                if at == 0 {
                    assert(token_at(template, 0));
                } else {
                    assert(token_at(others[0], at - 1));
                }
            }
        }
        if pieces.len() >= 2 {
            assert(first.last() != BANG) by {
                if others[0].len() == 0 {
                    assert(rest[0] == BANG);
                } else {
                    assert(first.last() == others[0].last());
                }
            }
        }
        assert forall|i: int| 0 <= i < pieces.len() - 1 implies ends_before_token(
            #[trigger] pieces[i],
        ) by {
            if i > 0 {
                assert(pieces[i] == others[i]);
            }
        }
    }
}

/// The expansion of any template is its pieces joined by the previous command
/// in place of the tokens.
pub proof fn lemma_expand_replaces_tokens(template: Seq<char>, previous: Seq<char>)
    ensures
        expand_spec(template, previous) == join(pieces_of(template), previous),
{
    lemma_pieces_of(template);
    lemma_expand_joined(pieces_of(template), previous);
}

} // verus!

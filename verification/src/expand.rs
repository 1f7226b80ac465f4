//! Expansion of the `!!` token.

use vstd::prelude::*;

verus! {

/// The character that, doubled, forms the token.
pub const BANG: char = '!';

/// Whether `text` starts with the token `!!`.
pub open spec fn starts_with_token(text: Seq<char>) -> bool {
    text.len() >= 2 && text[0] == BANG && text[1] == BANG
}

/// `template` with every token replaced by `previous`, scanning from the left:
/// a token is consumed whole, so `!!!` is one token followed by a single `!`,
/// and the text put in its place is not scanned again.
pub open spec fn expand_spec(template: Seq<char>, previous: Seq<char>) -> Seq<char>
    decreases template.len(),
{
    if template.len() == 0 {
        template
    } else if starts_with_token(template) {
        previous + expand_spec(template.skip(2), previous)
    } else {
        seq![template[0]] + expand_spec(template.skip(1), previous)
    }
}

/// The template with every `!!` replaced by the previous command.
pub fn expand(template: &str, previous: &str) -> (expanded: String)
    ensures
        expanded@ == expand_spec(template@, previous@),
{
    let mut out = String::new();
    // A single `!` has been read and not yet written: it may open a token.
    let mut pending = false;
    proof {
        assert(template@.skip(0) == template@);
    }
    for c in it: template.chars()
        invariant
            it.seq() == template@,
            pending ==> it.index() >= 1 && template@[it.index() - 1] == BANG,
            expand_spec(template@, previous@) == out@ + expand_spec(
                template@.skip(it.index() - if pending { 1int } else { 0int }),
                previous@,
            ),
    {
        let ghost next = it.index() + 1;
        if c == BANG {
            if pending {
                proof {
                    assert(template@.skip(next - 2).skip(2) == template@.skip(next));
                }
                out.append(previous);
                pending = false;
            } else {
                pending = true;
            }
        } else {
            proof {
                let rest = template@.skip(next - 1);
                assert(rest.skip(1) == template@.skip(next));
                assert(expand_spec(rest, previous@) == seq![c] + expand_spec(
                    template@.skip(next),
                    previous@,
                ));
            }
            if pending {
                proof {
                    assert(template@.skip(next - 2).skip(1) == template@.skip(next - 1));
                }
                out.push(BANG);
                pending = false;
            }
            out.push(c);
        }
    }
    if pending {
        proof {
            let last = template@.skip(template@.len() - 1);
            assert(expand_spec(last.skip(1), previous@) == Seq::<char>::empty());
        }
        out.push(BANG);
    }
    out
}

/// Whether the token stands in `text` at position `at`.
pub open spec fn token_at(text: Seq<char>, at: int) -> bool {
    0 <= at && at + 1 < text.len() && text[at] == BANG && text[at + 1] == BANG
}

/// Whether the token occurs anywhere in `text`.
pub open spec fn contains_token(text: Seq<char>) -> bool {
    exists|at: int| token_at(text, at)
}

/// A template without a token expands to itself, whatever the previous
/// command is.
pub proof fn lemma_expand_without_token(template: Seq<char>, previous: Seq<char>)
    requires
        !contains_token(template),
    ensures
        expand_spec(template, previous) == template,
    decreases template.len(),
{
    if template.len() > 0 {
        let rest = template.skip(1);
        assert(!starts_with_token(template)) by {
            if starts_with_token(template) {
                assert(token_at(template, 0));
            }
        }
        assert(!contains_token(rest)) by {
            if contains_token(rest) {
                let at = choose|at: int| token_at(rest, at);
                assert(token_at(template, at + 1));
            }
        }
        lemma_expand_without_token(rest, previous);
    }
}

/// The expansion holds no character that neither the template nor the
/// previous command holds.
pub proof fn lemma_expand_adds_no_character(template: Seq<char>, previous: Seq<char>, c: char)
    requires
        !template.contains(c),
        !previous.contains(c),
    ensures
        !expand_spec(template, previous).contains(c),
    decreases template.len(),
{
    if template.len() > 0 {
        let rest = if starts_with_token(template) {
            template.skip(2)
        } else {
            template.skip(1)
        };
        assert(!rest.contains(c)) by {
            if rest.contains(c) {
                let i = choose|i: int| 0 <= i < rest.len() && rest[i] == c;
                assert(template[i + template.len() - rest.len()] == c);
            }
        }
        lemma_expand_adds_no_character(rest, previous, c);
        assert(template[0] != c);
    }
}

} // verus!

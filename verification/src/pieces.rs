//! Templates whose braces stand in placeholders only, and what rendering
//! does to them.

use vstd::prelude::*;
use crate::template::{occurs_at, placeholder, rendered, replaced};
use crate::template_laws::{
    brace_free,
    keys_brace_free,
    lemma_placeholder_chars,
    lemma_replaced_around_placeholder,
    lemma_replaced_concat,
    lemma_replaced_without_occurrence,
    values_brace_free,
};
use crate::vars::lookup;

verus! {

/// A piece of a template: literal text, or the placeholder of a name.
pub enum Piece {
    Text(Seq<char>),
    Slot(Seq<char>),
}

/// The text of a piece as it stands in a template.
pub open spec fn piece_text(piece: Piece) -> Seq<char> {
    match piece {
        Piece::Text(text) => text,
        Piece::Slot(name) => placeholder(name),
    }
}

/// The template made of `pieces`, one behind the other.
pub open spec fn assembled(pieces: Seq<Piece>) -> Seq<char>
    decreases pieces.len(),
{
    if pieces.len() == 0 {
        Seq::empty()
    } else {
        piece_text(pieces[0]) + assembled(pieces.drop_first())
    }
}

/// Whether neither the texts nor the names of `pieces` hold a brace, so that
/// the braces of the assembled template are those of its placeholders.
pub open spec fn well_formed(pieces: Seq<Piece>) -> bool {
    forall|i: int|
        0 <= i < pieces.len() ==> match #[trigger] pieces[i] {
            Piece::Text(text) => brace_free(text),
            Piece::Slot(name) => brace_free(name),
        }
}

/// A piece with the variables filled in: a text stays, a placeholder gives
/// way to the value of its name, and stays where its name has none.
pub open spec fn piece_filled(piece: Piece, vars: Seq<(Seq<char>, Seq<char>)>) -> Seq<char> {
    match piece {
        Piece::Text(text) => text,
        Piece::Slot(name) => match lookup(vars, name) {
            Some(value) => value,
            None => placeholder(name),
        },
    }
}

/// The pieces with the variables filled in, one behind the other.
pub open spec fn filled(pieces: Seq<Piece>, vars: Seq<(Seq<char>, Seq<char>)>) -> Seq<char>
    decreases pieces.len(),
{
    if pieces.len() == 0 {
        Seq::empty()
    } else {
        piece_filled(pieces[0], vars) + filled(pieces.drop_first(), vars)
    }
}

/// A piece after the pass for `key`: its placeholder has become the value.
pub open spec fn piece_after(piece: Piece, key: Seq<char>, value: Seq<char>) -> Piece {
    if piece == Piece::Slot(key) {
        Piece::Text(value)
    } else {
        piece
    }
}

/// The pieces after the pass for `key`.
pub open spec fn pieces_after(pieces: Seq<Piece>, key: Seq<char>, value: Seq<char>) -> Seq<Piece> {
    Seq::new(pieces.len(), |i: int| piece_after(pieces[i], key, value))
}

/// One pass over a well-formed template turns the placeholders of its key
/// into the value and leaves every other piece as it is.
pub proof fn lemma_replaced_pieces(pieces: Seq<Piece>, key: Seq<char>, value: Seq<char>)
    requires
        well_formed(pieces),
        brace_free(key),
    ensures
        replaced(assembled(pieces), placeholder(key), value) == assembled(
            pieces_after(pieces, key, value),
        ),
    decreases pieces.len(),
{
    if pieces.len() > 0 {
        let pattern = placeholder(key);
        let rest = pieces.drop_first();
        let tail = assembled(rest);
        assert(pieces_after(pieces, key, value).drop_first() =~= pieces_after(rest, key, value));
        assert forall|i: int| 0 <= i < rest.len() implies match #[trigger] rest[i] {
            Piece::Text(text) => brace_free(text),
            Piece::Slot(name) => brace_free(name),
        } by {
            assert(rest[i] == pieces[i + 1]);
        }
        lemma_replaced_pieces(rest, key, value);
        lemma_placeholder_chars(key);
        match pieces[0] {
            Piece::Text(text) => {
                assert forall|i: int| occurs_at(text + tail, pattern, i) implies text.len()
                    <= i by {
                    if i < text.len() {
                        assert((text + tail).subrange(i, i + pattern.len())[0] == pattern[0]);
                        assert((text + tail)[i] == text[i]);
                    }
                }
                lemma_replaced_concat(text, tail, pattern, value);
                assert forall|i: int| 0 <= i < text.len() implies !occurs_at(text, pattern, i) by {
                    if occurs_at(text, pattern, i) {
                        assert(text.subrange(i, i + pattern.len())[0] == pattern[0]);
                    }
                }
                lemma_replaced_without_occurrence(text, pattern, value);
            },
            Piece::Slot(name) => {
                let none = Seq::<char>::empty();
                lemma_replaced_around_placeholder(none, name, tail, key, value);
                assert(none + placeholder(name) + tail =~= placeholder(name) + tail);
                assert(replaced(none, pattern, value) =~= none);
                if key == name {
                    assert(none + value + assembled(pieces_after(rest, key, value)) =~= value
                        + assembled(pieces_after(rest, key, value)));
                } else {
                    assert(none + placeholder(name) + assembled(pieces_after(rest, key, value))
                        =~= placeholder(name) + assembled(pieces_after(rest, key, value)));
                }
            },
        }
    }
}

/// Filling in a variable and then the others is filling in all of them, the
/// first variable winning where a later one has its key.
pub proof fn lemma_filled_step(pieces: Seq<Piece>, vars: Seq<(Seq<char>, Seq<char>)>)
    requires
        vars.len() > 0,
    ensures
        filled(pieces_after(pieces, vars[0].0, vars[0].1), vars.drop_first()) == filled(
            pieces,
            vars,
        ),
    decreases pieces.len(),
{
    if pieces.len() > 0 {
        let key = vars[0].0;
        let value = vars[0].1;
        let rest = pieces.drop_first();
        assert(pieces_after(pieces, key, value).drop_first() =~= pieces_after(rest, key, value));
        lemma_filled_step(rest, vars);
    }
}

/// With no variables, filling in gives the template back.
pub proof fn lemma_filled_without_variables(pieces: Seq<Piece>)
    ensures
        filled(pieces, Seq::empty()) == assembled(pieces),
    decreases pieces.len(),
{
    if pieces.len() > 0 {
        lemma_filled_without_variables(pieces.drop_first());
    }
}

/// Rendering a well-formed template fills in its placeholders, and does no
/// more.
///
/// Let the braces of a template stand in its placeholders only, and let
/// neither a key nor a value hold a brace. Then the rendered text is the
/// template with every placeholder of a key replaced by that key's value,
/// every other placeholder and all text between them unchanged.
pub proof fn lemma_render_fills_slots(pieces: Seq<Piece>, vars: Seq<(Seq<char>, Seq<char>)>)
    requires
        well_formed(pieces),
        keys_brace_free(vars),
        values_brace_free(vars),
    ensures
        rendered(assembled(pieces), vars) == filled(pieces, vars),
    decreases vars.len(),
{
    if vars.len() == 0 {
        lemma_filled_without_variables(pieces);
        assert(vars =~= Seq::empty());
    } else {
        let key = vars[0].0;
        let value = vars[0].1;
        let rest = vars.drop_first();
        let next = pieces_after(pieces, key, value);
        assert(brace_free(vars[0].0));
        assert(brace_free(vars[0].1));
        lemma_replaced_pieces(pieces, key, value);
        assert forall|i: int| 0 <= i < next.len() implies match #[trigger] next[i] {
            Piece::Text(text) => brace_free(text),
            Piece::Slot(name) => brace_free(name),
        } by {
            assert(next[i] == piece_after(pieces[i], key, value));
        }
        assert forall|i: int| 0 <= i < rest.len() implies brace_free((#[trigger] rest[i]).0)
            && brace_free(rest[i].1) by {
            assert(rest[i] == vars[i + 1]);
        }
        lemma_render_fills_slots(next, rest);
        lemma_filled_step(pieces, vars);
    }
}

/// For a well-formed template the order of the variables does not matter:
/// two sequences that give every name the same value render it alike.
pub proof fn lemma_render_order_irrelevant(
    pieces: Seq<Piece>,
    first: Seq<(Seq<char>, Seq<char>)>,
    second: Seq<(Seq<char>, Seq<char>)>,
)
    requires
        well_formed(pieces),
        keys_brace_free(first),
        values_brace_free(first),
        keys_brace_free(second),
        values_brace_free(second),
        forall|name: Seq<char>| lookup(first, name) == lookup(second, name),
    ensures
        rendered(assembled(pieces), first) == rendered(assembled(pieces), second),
{
    lemma_render_fills_slots(pieces, first);
    lemma_render_fills_slots(pieces, second);
    lemma_filled_alike(pieces, first, second);
}

/// Filling in depends on the value that each name has, and on nothing else.
pub proof fn lemma_filled_alike(
    pieces: Seq<Piece>,
    first: Seq<(Seq<char>, Seq<char>)>,
    second: Seq<(Seq<char>, Seq<char>)>,
)
    requires
        forall|name: Seq<char>| lookup(first, name) == lookup(second, name),
    ensures
        filled(pieces, first) == filled(pieces, second),
    decreases pieces.len(),
{
    if pieces.len() > 0 {
        lemma_filled_alike(pieces.drop_first(), first, second);
    }
}

} // verus!

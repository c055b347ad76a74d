//! Paths as text. Components are separated by `/`; a path that begins with
//! `/` is absolute.

use crate::text::{same_text, split, split_on, to_chars};
use vstd::prelude::*;

verus! {

/// A path is absolute when it begins at the root.
pub open spec fn is_absolute(p: Seq<char>) -> bool {
    p.len() > 0 && p[0] == '/'
}

/// `leaf` adjoined to `base`: an absolute `leaf` replaces `base`; otherwise
/// it follows `base`, with one separator between the two unless `base` is
/// empty or ends in one.
pub open spec fn join(base: Seq<char>, leaf: Seq<char>) -> Seq<char> {
    if is_absolute(leaf) {
        leaf
    } else if base.len() == 0 || base.last() == '/' {
        base + leaf
    } else {
        base + seq!['/'] + leaf
    }
}

/// Whether a piece between two separators names something: it is neither
/// empty nor the single dot that stands for "here".
pub open spec fn names_something(piece: Seq<char>) -> bool {
    piece.len() > 0 && piece != seq!['.']
}

/// How many of `pieces` name something.
pub open spec fn named(pieces: Seq<Seq<char>>) -> nat
    decreases pieces.len(),
{
    if pieces.len() == 0 {
        0
    } else {
        named(pieces.drop_last()) + if names_something(pieces.last()) {
            1nat
        } else {
            0nat
        }
    }
}

/// The number of components of `p`: the root of an absolute path is one, a
/// dot at the very start of a relative path is one, and so is each piece
/// that names something. Repeated separators, a separator at the end and
/// dots further in add nothing.
pub open spec fn component_count(p: Seq<char>) -> nat {
    let pieces = split(p, '/');
    let first = if is_absolute(p) || pieces[0] == seq!['.'] {
        1nat
    } else {
        0nat
    };
    first + named(pieces)
}

/// Whether `p` is absolute.
pub fn is_absolute_path(p: &str) -> (r: bool)
    ensures
        r == is_absolute(p@),
{
    let v = to_chars(p);
    v.len() > 0 && v[0] == '/'
}

/// `leaf` adjoined to `base`.
pub fn join_path(base: &str, leaf: &str) -> (r: String)
    ensures
        r@ == join(base@, leaf@),
{
    if is_absolute_path(leaf) {
        return leaf.to_owned();
    }
    let b = to_chars(base);
    let mut r = base.to_owned();
    if b.len() > 0 && b[b.len() - 1] != '/' {
        r.append("/");
        proof {
            reveal_strlit("/");
        }
    }
    r.append(leaf);
    r
}

proof fn lemma_first_piece(p: Seq<char>)
    ensures
        split(p, '/').len() >= 1,
        is_absolute(p) ==> split(p, '/').len() >= 2 && split(p, '/')[0].len() == 0,
    decreases p.len(),
{
    if p.len() > 0 {
        lemma_first_piece(p.drop_last());
        if p.len() > 1 {
            assert(p.drop_last()[0] == p[0]);
        }
    }
}

/// The number of components of `p`.
pub fn count_components(p: &str) -> (n: usize)
    ensures
        n == component_count(p@),
{
    let pieces = split_on(p, '/');
    proof {
        lemma_first_piece(p@);
    }
    let mut n: usize = 0;
    let mut i: usize = 0;
    while i < pieces.len()
        invariant
            i <= pieces.len(),
            pieces.len() >= 1,
            n == named(pieces.deep_view().take(i as int)),
            n <= i,
            i >= 1 && !names_something(pieces@[0]@) ==> n < i,
        decreases pieces.len() - i,
    {
        let ghost now = pieces.deep_view().take(i + 1);
        proof {
            assert(now.drop_last() =~= pieces.deep_view().take(i as int));
            reveal_strlit(".");
            assert("."@ =~= seq!['.']);
        }
        let piece = pieces[i].as_str();
        if piece.unicode_len() > 0 && !same_text(piece, ".") {
            n += 1;
        }
        i += 1;
    }
    proof {
        assert(pieces.deep_view().take(pieces.len() as int) =~= pieces.deep_view());
        reveal_strlit(".");
        assert("."@ =~= seq!['.']);
    }
    if is_absolute_path(p) || same_text(pieces[0].as_str(), ".") {
        n += 1;
    }
    n
}

} // verus!

//! What the operations on paths are for.
use crate::paths::{
    drive_leaf, drive_parent, extended, has_root_separator, is_separator, last_piece,
    lemma_last_backslash, lemma_last_piece, names_among, path_join, prefix_kind, separates,
    without_last_piece, without_trailing,
};
use vstd::prelude::*;

verus! {

/// A drive path is its parent, a backslash and its leaf, and the leaf is one name.
pub proof fn a_drive_path_is_its_parent_and_its_leaf(p: Seq<char>)
    requires
        p.len() > 3,
        p[2] == '\\',
    ensures
        drive_parent(p) is Some,
        drive_leaf(p) is Some,
        !drive_leaf(p)->0.contains('\\'),
        p == drive_parent(p)->0 + drive_leaf(p)->0 || p == drive_parent(p)->0 + seq!['\\']
            + drive_leaf(p)->0,
        p.take(3) == drive_parent(p)->0.take(3),
        drive_parent(p)->0.len() < p.len(),
{
    lemma_last_backslash(p);
    let parent = drive_parent(p)->0;
    let leaf = drive_leaf(p)->0;
    assert(parent.take(3) =~= p.take(3));
    assert(p =~= parent + leaf || p =~= parent + seq!['\\'] + leaf);
}

/// The last piece of a path begins behind its last separator.
pub proof fn the_last_piece_begins_behind_a_separator(p: Seq<char>, base: int, verbatim: bool)
    requires
        0 <= base <= p.len(),
    ensures
        ({
            let k = last_piece(p, base, verbatim);
            &&& base <= k <= p.len()
            &&& forall|i: int| k <= i < p.len() ==> !separates(#[trigger] p[i], verbatim)
            &&& k > base ==> separates(p[k - 1], verbatim)
        }),
    decreases p.len(),
{
    if p.len() > base && !separates(p.last(), verbatim) {
        let front = p.drop_last();
        the_last_piece_begins_behind_a_separator(front, base, verbatim);
        let k = last_piece(p, base, verbatim);
        assert forall|i: int| k <= i < p.len() implies !separates(#[trigger] p[i], verbatim) by {
            if i < front.len() {
                assert(front[i] == p[i]);
            }
        }
    }
}

/// A path without what trails behind its last component begins as the path does and ends in a
/// component, unless nothing but its root is left.
pub proof fn what_trails_is_no_component(p: Seq<char>, base: int, verbatim: bool)
    requires
        0 <= base <= p.len(),
    ensures
        ({
            let r = without_trailing(p, base, verbatim);
            &&& base <= r.len() <= p.len()
            &&& r == p.take(r.len() as int)
            &&& r.len() > base ==> r.skip(last_piece(r, base, verbatim)).len() > 0 && (verbatim
                || r.skip(last_piece(r, base, verbatim)) != "."@)
        }),
    decreases p.len(),
{
    let piece = p.skip(last_piece(p, base, verbatim));
    if p.len() <= base || (piece.len() > 0 && (verbatim || piece != "."@)) {
        assert(p.take(p.len() as int) =~= p);
    } else {
        lemma_last_piece(p, base, verbatim);
        the_last_piece_begins_behind_a_separator(p, base, verbatim);
        let shorter = without_last_piece(p, base, verbatim);
        what_trails_is_no_component(shorter, base, verbatim);
        let r = without_trailing(p, base, verbatim);
        assert(shorter.take(r.len() as int) =~= p.take(r.len() as int));
    }
}

/// The names of a path are its pieces, save the empty ones and, unless they count, the dots.
pub proof fn each_piece_that_counts_is_a_name(
    pieces: Seq<Seq<char>>,
    with_dots: bool,
    piece: Seq<char>,
)
    ensures
        names_among(pieces, with_dots).contains(piece) <==> pieces.contains(piece) && piece.len() > 0
            && (with_dots || piece != "."@),
    decreases pieces.len(),
{
    let names = names_among(pieces, with_dots);
    if pieces.len() > 0 {
        let front = pieces.drop_last();
        let before = names_among(front, with_dots);
        each_piece_that_counts_is_a_name(front, with_dots, piece);
        if names.contains(piece) {
            let i = choose|i: int| 0 <= i < names.len() && names[i] == piece;
            if i < before.len() {
                assert(before[i] == piece);
                let k = choose|k: int| 0 <= k < front.len() && front[k] == piece;
                assert(pieces[k] == piece);
            } else {
                assert(pieces[pieces.len() - 1] == piece);
            }
        }
        if pieces.contains(piece) && piece.len() > 0 && (with_dots || piece != "."@) {
            let k = choose|k: int| 0 <= k < pieces.len() && pieces[k] == piece;
            if k < front.len() {
                assert(front[k] == piece);
                let i = choose|i: int| 0 <= i < before.len() && before[i] == piece;
                assert(names[i] == piece);
            } else {
                assert(names[before.len() as int] == piece);
            }
        }
    }
}

/// The names of a path stand in the order of its pieces.
pub proof fn names_stand_in_the_order_of_the_pieces(
    a: Seq<Seq<char>>,
    b: Seq<Seq<char>>,
    with_dots: bool,
)
    ensures
        names_among(a + b, with_dots) == names_among(a, with_dots) + names_among(b, with_dots),
    decreases b.len(),
{
    if b.len() == 0 {
        assert(a + b =~= a);
        assert(names_among(a, with_dots) + names_among(b, with_dots) =~= names_among(a, with_dots));
    } else {
        names_stand_in_the_order_of_the_pieces(a, b.drop_last(), with_dots);
        assert((a + b).drop_last() =~= a + b.drop_last());
        assert(names_among(a + b, with_dots) =~= names_among(a, with_dots) + names_among(
            b,
            with_dots,
        ));
    }
}

/// Whether a name is one that leads down.
pub open spec fn leads_down(name: Seq<char>) -> bool {
    name.len() > 0 && name != "."@ && name != ".."@
}

/// A path that is extended holds names that lead down alone: a step on the spot is passed
/// over, and a step up takes the name before it away.
pub proof fn an_extended_path_leads_down(names: Seq<Seq<char>>, pieces: Seq<Seq<char>>)
    requires
        forall|i: int| 0 <= i < names.len() ==> leads_down(#[trigger] names[i]),
    ensures
        forall|i: int|
            0 <= i < extended(names, pieces).len() ==> leads_down(
                #[trigger] extended(names, pieces)[i],
            ),
        pieces.len() == 0 ==> extended(names, pieces) == names,
        (forall|i: int| 0 <= i < pieces.len() ==> leads_down(#[trigger] pieces[i])) ==> extended(
            names,
            pieces,
        ) == names + pieces,
        pieces.len() > 0 && pieces.last() == ".."@ && extended(names, pieces.drop_last()).len() > 0
            ==> extended(names, pieces) == extended(names, pieces.drop_last()).drop_last(),
        pieces.len() > 0 && (pieces.last() == "."@ || pieces.last().len() == 0) ==> extended(
            names,
            pieces,
        ) == extended(names, pieces.drop_last()),
    decreases pieces.len(),
{
    reveal_strlit(".");
    reveal_strlit("..");
    if pieces.len() > 0 {
        let front = pieces.drop_last();
        an_extended_path_leads_down(names, front);
        let before = extended(names, front);
        assert forall|i: int| 0 <= i < extended(names, pieces).len() implies leads_down(
            #[trigger] extended(names, pieces)[i],
        ) by {
            if i < before.len() {
                assert(leads_down(before[i]));
            }
        }
        if forall|i: int| 0 <= i < pieces.len() ==> leads_down(#[trigger] pieces[i]) {
            assert forall|i: int| 0 <= i < front.len() implies leads_down(#[trigger] front[i]) by {
                assert(front[i] == pieces[i]);
            }
            assert(leads_down(pieces[pieces.len() - 1]));
            assert(extended(names, pieces) =~= names + pieces);
        }
    } else {
        assert(names + pieces =~= names);
    }
}

/// A plain name is put behind its directory, with a backslash between the two.
pub proof fn a_name_is_put_behind_its_directory(parent: Seq<char>, name: Seq<char>)
    requires
        prefix_kind(name) is Absent,
        !has_root_separator(name),
        !prefix_kind(parent).is_verbatim(),
    ensures
        path_join(parent, name).take(parent.len() as int) == parent,
        path_join(parent, name).skip(path_join(parent, name).len() - name.len()) == name,
        path_join(parent, name).len() == parent.len() + name.len() || path_join(parent, name)[
            parent.len() as int
        ] == '\\',
        parent.len() > 2 && !is_separator(parent.last()) ==> path_join(parent, name) == parent
            + seq!['\\'] + name,
        parent.len() > 0 && is_separator(parent.last()) ==> path_join(parent, name) == parent + name,
{
    let whole = path_join(parent, name);
    assert(whole.take(parent.len() as int) =~= parent);
    assert(whole.skip(whole.len() - name.len()) =~= name);
}

} // verus!

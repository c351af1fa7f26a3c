//! Atom segmentation: width-driven visual layout units.
//!
//! An atom is a maximal run of zero-display-width codepoints immediately
//! followed by — or consisting solely of — one width-bearing codepoint.
//! Atoms are decided by a single left-to-right scan over codepoints, each
//! codepoint's width resolved on its own under the default (`terminal`)
//! policy. Atoms are not Unicode grapheme clusters: a multi-codepoint emoji
//! ZWJ sequence is one cluster but decomposes into several atoms, one per
//! codepoint, because atoms track width boundaries, not user-perceived
//! characters.

use vstd::prelude::*;

use crate::policy::{terminal_spec, WidthPolicy};
use crate::views_of;
use crate::width::{char_width, cluster_width};

verus! {

/// A pending run of zero-width codepoints, as zero or one atoms.
pub open spec fn pending_run(pending: Seq<char>) -> Seq<Seq<char>> {
    if pending.len() > 0 {
        seq![pending]
    } else {
        Seq::<Seq<char>>::empty()
    }
}

/// The atoms of `cs` when a run `pending` of zero-width codepoints is
/// already open: a width-bearing codepoint closes the open run (if any)
/// and forms an atom of its own; a zero-width codepoint extends the run;
/// a run still open at the end is emitted as a final trailing atom.
pub open spec fn atoms_rec(cs: Seq<char>, pending: Seq<char>) -> Seq<Seq<char>>
    decreases cs.len(),
{
    if cs.len() == 0 {
        pending_run(pending)
    } else if cluster_width(seq![cs[0]], terminal_spec()) > 0 {
        pending_run(pending) + seq![seq![cs[0]]] + atoms_rec(cs.skip(1), Seq::<char>::empty())
    } else {
        atoms_rec(cs.skip(1), pending.push(cs[0]))
    }
}

/// The atom segmentation of a codepoint sequence.
pub open spec fn atoms_spec(cs: Seq<char>) -> Seq<Seq<char>> {
    atoms_rec(cs, Seq::<char>::empty())
}

/// Concatenating the atoms of `cs` behind an open run restores the run
/// followed by `cs`.
proof fn lemma_atoms_rec_reconstruct(cs: Seq<char>, pending: Seq<char>)
    ensures
        atoms_rec(cs, pending).flatten() == pending + cs,
    decreases cs.len(),
{
    if cs.len() == 0 {
        if pending.len() > 0 {
            pending_run(pending).lemma_flatten_one_element();
        }
        assert(atoms_rec(cs, pending).flatten() =~= pending + cs);
    } else if cluster_width(seq![cs[0]], terminal_spec()) > 0 {
        let head = pending_run(pending) + seq![seq![cs[0]]];
        let tail = atoms_rec(cs.skip(1), Seq::<char>::empty());
        lemma_atoms_rec_reconstruct(cs.skip(1), Seq::<char>::empty());
        vstd::seq_lib::lemma_flatten_concat(head, tail);
        vstd::seq_lib::lemma_flatten_concat(pending_run(pending), seq![seq![cs[0]]]);
        if pending.len() > 0 {
            pending_run(pending).lemma_flatten_one_element();
        }
        seq![seq![cs[0]]].lemma_flatten_one_element();
        assert(atoms_rec(cs, pending) == head + tail);
        assert(Seq::<char>::empty() + cs.skip(1) =~= cs.skip(1));
        assert(atoms_rec(cs, pending).flatten() =~= pending + cs);
    } else {
        lemma_atoms_rec_reconstruct(cs.skip(1), pending.push(cs[0]));
        assert(pending.push(cs[0]) + cs.skip(1) =~= pending + cs);
    }
}

/// Concatenating the atoms of a codepoint sequence reconstructs it
/// exactly.
pub proof fn lemma_atoms_reconstruct(cs: Seq<char>)
    ensures
        atoms_spec(cs).flatten() == cs,
{
    lemma_atoms_rec_reconstruct(cs, Seq::<char>::empty());
    assert(Seq::<char>::empty() + cs =~= cs);
}

/// Splits a string into layout atoms, in source order.
///
/// Zero-width codepoints are grouped with the next width-bearing codepoint
/// into the run that precedes it; a trailing zero-width run forms the last
/// atom. Concatenating the atoms reconstructs the input exactly
/// ([`lemma_atoms_reconstruct`]).
pub fn atoms<'s>(s: &'s str) -> (r: Vec<&'s str>)
    ensures
        views_of(r@) == atoms_spec(s@),
{
    let n = s.unicode_len();
    let mut r: Vec<&'s str> = Vec::new();
    let mut start: usize = 0;
    let mut i: usize = 0;
    let p = WidthPolicy::terminal();
    proof {
        assert(s@.skip(0) =~= s@);
        assert(s@.subrange(0, 0) =~= Seq::<char>::empty());
        assert(views_of(r@) =~= Seq::<Seq<char>>::empty());
        assert(views_of(r@) + atoms_rec(s@, Seq::<char>::empty()) =~= atoms_spec(s@));
    }
    while i < n
        invariant
            start <= i <= n,
            n == s@.len(),
            p == terminal_spec(),
            atoms_spec(s@) == views_of(r@) + atoms_rec(
                s@.skip(i as int),
                s@.subrange(start as int, i as int),
            ),
        decreases n - i,
    {
        let ghost cs = s@.skip(i as int);
        let ghost pending = s@.subrange(start as int, i as int);
        let ghost r0 = r@;
        let c = s.get_char(i);
        proof {
            assert(cs[0] == c);
            assert(cs.skip(1) =~= s@.skip(i + 1));
        }
        let w = char_width(c, &p);
        if w > 0 {
            if start < i {
                let run = s.substring_char(start, i);
                r.push(run);
            }
            let one = s.substring_char(i, i + 1);
            proof {
                assert(one@ =~= seq![c]);
            }
            r.push(one);
            start = i + 1;
            proof {
                assert(pending.len() > 0 <==> r0.len() + 2 == r@.len());
                assert(views_of(r@) =~= views_of(r0) + pending_run(pending) + seq![seq![c]]);
                assert(atoms_rec(cs, pending) == pending_run(pending) + seq![seq![c]] + atoms_rec(
                    cs.skip(1),
                    Seq::<char>::empty(),
                ));
                assert(s@.subrange(start as int, i + 1) =~= Seq::<char>::empty());
                assert(views_of(r0) + atoms_rec(cs, pending) =~= views_of(r@) + atoms_rec(
                    s@.skip(i + 1),
                    s@.subrange(start as int, i + 1),
                ));
            }
        } else {
            proof {
                assert(pending.push(c) =~= s@.subrange(start as int, i + 1));
                assert(atoms_rec(cs, pending) == atoms_rec(
                    s@.skip(i + 1),
                    s@.subrange(start as int, i + 1),
                ));
            }
        }
        i = i + 1;
    }
    proof {
        assert(s@.skip(n as int) =~= Seq::<char>::empty());
    }
    if start < n {
        let ghost r0 = r@;
        let ghost pending = s@.subrange(start as int, n as int);
        let tail = s.substring_char(start, n);
        r.push(tail);
        proof {
            assert(pending.len() > 0);
            assert(views_of(r@) =~= views_of(r0) + pending_run(pending));
            assert(atoms_rec(s@.skip(n as int), pending) == pending_run(pending));
            assert(views_of(r@) =~= atoms_spec(s@));
        }
    } else {
        proof {
            let pending = s@.subrange(start as int, n as int);
            assert(pending =~= Seq::<char>::empty());
            assert(atoms_rec(s@.skip(n as int), pending) =~= Seq::<Seq<char>>::empty());
            assert(views_of(r@) =~= atoms_spec(s@));
        }
    }
    r
}

} // verus!

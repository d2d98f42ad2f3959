//! The density-first scan: which listed entry, if any, is the launcher bitmap
//! to take.
//!
//! A listing is what an archive enumerates, entry by entry: the entry's path,
//! or `None` where its name cannot be read as text. The order of a listing
//! carries no meaning, so the pick is defined without reference to it: the
//! highest density that has a launcher bitmap wins, and within that density
//! the smallest path.

use crate::bytes::{
    lemma_lex_irreflexive, lemma_lex_total, lemma_lex_transitive, lex_lt, precedes,
};
use crate::density::{is_launcher, is_launcher_path, Density};
use vstd::prelude::*;
use vstd::utf8::{encode_utf8, encode_utf8_decode_utf8};

verus! {

/// Whether path `p` sorts strictly before path `q`: lexicographic order of
/// their UTF-8 bytes, which is the order of `str`.
pub open spec fn path_lt(p: Seq<char>, q: Seq<char>) -> bool {
    lex_lt(encode_utf8(p), encode_utf8(q))
}

/// Entry `i` of the listing is a launcher bitmap of density `d`.
pub open spec fn candidate(listing: Seq<Option<Seq<char>>>, d: Density, i: int) -> bool {
    &&& 0 <= i < listing.len()
    &&& listing[i] is Some
    &&& is_launcher(listing[i].unwrap(), d)
}

/// The listing holds no launcher bitmap of density `d`.
pub open spec fn vacant(listing: Seq<Option<Seq<char>>>, d: Density) -> bool {
    forall|j: int| !candidate(listing, d, j)
}

/// Entry `i` is the pick of density `d`: a launcher bitmap of that density
/// whose path none of the others precedes. Should the same path be listed
/// twice, it is the first of the two.
pub open spec fn best_at(listing: Seq<Option<Seq<char>>>, d: Density, i: int) -> bool {
    &&& candidate(listing, d, i)
    &&& forall|j: int| #[trigger]
        candidate(listing, d, j) ==> !path_lt(listing[j].unwrap(), listing[i].unwrap())
    &&& forall|j: int| #[trigger] candidate(listing, d, j) && j < i ==> listing[j] != listing[i]
}

/// Entry `i` is the pick of the whole scan: the pick of some density, with
/// every higher density vacant.
pub open spec fn chosen(listing: Seq<Option<Seq<char>>>, i: int) -> bool {
    exists|d: Density| #[trigger]
        best_at(listing, d, i) && forall|e: Density|
            e.rank() < d.rank() ==> #[trigger] vacant(listing, e)
}

/// The entry that the scan settles on, or `None` where no density has a
/// launcher bitmap. [`lemma_chosen_unique`] shows that at most one entry can
/// be chosen, [`lemma_density_priority`] that one is whenever a launcher
/// bitmap is listed.
pub open spec fn choice(listing: Seq<Option<Seq<char>>>) -> Option<int> {
    if exists|i: int| chosen(listing, i) {
        Some(choose|i: int| chosen(listing, i))
    } else {
        None
    }
}

/// Paths with the same bytes are the same path.
proof fn lemma_same_bytes(p: Seq<char>, q: Seq<char>)
    requires
        encode_utf8(p) == encode_utf8(q),
    ensures
        p == q,
{
    encode_utf8_decode_utf8(p);
    encode_utf8_decode_utf8(q);
}

/// The entry that the scan settles on is a launcher bitmap of some density.
pub proof fn lemma_choice_is_launcher(listing: Seq<Option<Seq<char>>>)
    ensures
        choice(listing) matches Some(i) ==> exists|d: Density| candidate(listing, d, i),
{
    if choice(listing) is Some {
        let i = choice(listing).unwrap();
        assert(chosen(listing, i));
        let d = choose|d: Density| #[trigger] best_at(listing, d, i);
        assert(candidate(listing, d, i));
    }
}

/// A density has at most one pick.
pub proof fn lemma_best_unique(listing: Seq<Option<Seq<char>>>, d: Density, i: int, j: int)
    requires
        best_at(listing, d, i),
        best_at(listing, d, j),
    ensures
        i == j,
{
    if i != j {
        let p = listing[i].unwrap();
        let q = listing[j].unwrap();
        assert(candidate(listing, d, i) && candidate(listing, d, j));
        assert(!path_lt(p, q) && !path_lt(q, p));
        lemma_lex_total(encode_utf8(p), encode_utf8(q));
        lemma_same_bytes(p, q);
        assert(listing[i] == listing[j]);
    }
}

/// The scan settles on at most one entry.
pub proof fn lemma_chosen_unique(listing: Seq<Option<Seq<char>>>, i: int, j: int)
    requires
        chosen(listing, i),
        chosen(listing, j),
    ensures
        i == j,
{
    let d = choose|d: Density| #[trigger]
        best_at(listing, d, i) && forall|e: Density|
            e.rank() < d.rank() ==> #[trigger] vacant(listing, e);
    let f = choose|f: Density| #[trigger]
        best_at(listing, f, j) && forall|e: Density|
            e.rank() < f.rank() ==> #[trigger] vacant(listing, e);
    assert(candidate(listing, d, i) && candidate(listing, f, j));
    if d.rank() < f.rank() {
        assert(vacant(listing, d));
    } else if f.rank() < d.rank() {
        assert(vacant(listing, f));
    } else {
        assert(d == f);
        lemma_best_unique(listing, d, i, j);
    }
}

/// The pick of density `d` among the first `n` entries, built up entry by
/// entry. It serves to show that a pick exists.
spec fn best_upto(listing: Seq<Option<Seq<char>>>, d: Density, n: nat) -> Option<int>
    decreases n,
{
    if n == 0 {
        None
    } else {
        let last = n - 1;
        match best_upto(listing, d, last as nat) {
            Some(b) => if candidate(listing, d, last) && path_lt(
                listing[last].unwrap(),
                listing[b].unwrap(),
            ) {
                Some(last)
            } else {
                Some(b)
            },
            None => if candidate(listing, d, last) {
                Some(last)
            } else {
                None
            },
        }
    }
}

/// What [`best_upto`] builds is the pick among the first `n` entries.
proof fn lemma_best_upto(listing: Seq<Option<Seq<char>>>, d: Density, n: nat)
    requires
        n <= listing.len(),
    ensures
        match best_upto(listing, d, n) {
            Some(b) => {
                &&& b < n
                &&& candidate(listing, d, b)
                &&& forall|j: int| #[trigger]
                    candidate(listing, d, j) && j < n ==> !path_lt(
                        listing[j].unwrap(),
                        listing[b].unwrap(),
                    )
                &&& forall|j: int| #[trigger]
                    candidate(listing, d, j) && j < b ==> listing[j] != listing[b]
            },
            None => forall|j: int| #[trigger] candidate(listing, d, j) ==> j >= n,
        },
    decreases n,
{
    if n > 0 {
        let last = n - 1;
        lemma_best_upto(listing, d, last as nat);
        match best_upto(listing, d, last as nat) {
            Some(b) => {
                if candidate(listing, d, last) {
                    let p = listing[last].unwrap();
                    let held = listing[b].unwrap();
                    if path_lt(p, held) {
                        assert forall|j: int| #[trigger]
                            candidate(listing, d, j) && j < n implies !path_lt(
                            listing[j].unwrap(),
                            p,
                        ) by {
                            if j < last {
                                if path_lt(listing[j].unwrap(), p) {
                                    lemma_lex_transitive(
                                        encode_utf8(listing[j].unwrap()),
                                        encode_utf8(p),
                                        encode_utf8(held),
                                    );
                                }
                            } else {
                                lemma_lex_irreflexive(encode_utf8(p));
                            }
                        }
                    }
                }
            },
            None => {
                if candidate(listing, d, last) {
                    lemma_lex_irreflexive(encode_utf8(listing[last].unwrap()));
                }
            },
        }
    }
}

/// A density that has a launcher bitmap has a pick.
pub proof fn lemma_best_exists(listing: Seq<Option<Seq<char>>>, d: Density)
    requires
        !vacant(listing, d),
    ensures
        exists|i: int| best_at(listing, d, i),
{
    lemma_best_upto(listing, d, listing.len());
    let j = choose|j: int| candidate(listing, d, j);
    assert(candidate(listing, d, j));
    let b = best_upto(listing, d, listing.len()).unwrap();
    assert(best_at(listing, d, b));
}

/// Of the densities that have a launcher bitmap, one is the highest.
proof fn lemma_highest_occupied(listing: Seq<Option<Seq<char>>>, d: Density) -> (top: Density)
    requires
        !vacant(listing, d),
    ensures
        top.rank() <= d.rank(),
        !vacant(listing, top),
        forall|e: Density| e.rank() < top.rank() ==> #[trigger] vacant(listing, e),
    decreases d.rank(),
{
    if exists|e: Density| e.rank() < d.rank() && !vacant(listing, e) {
        let e = choose|e: Density| e.rank() < d.rank() && !vacant(listing, e);
        lemma_highest_occupied(listing, e)
    } else {
        d
    }
}

/// Density priority: where the listing holds a launcher bitmap of density
/// `d`, the scan settles on an entry, and that entry is the pick of `d` or of
/// a higher density, above which all densities are vacant.
pub proof fn lemma_density_priority(listing: Seq<Option<Seq<char>>>, d: Density, j: int)
    requires
        candidate(listing, d, j),
    ensures
        choice(listing) matches Some(i) && exists|top: Density|
            {
                &&& top.rank() <= d.rank()
                &&& #[trigger] best_at(listing, top, i)
                &&& forall|e: Density| e.rank() < top.rank() ==> #[trigger] vacant(listing, e)
            },
{
    let top = lemma_highest_occupied(listing, d);
    lemma_best_exists(listing, top);
    let b = choose|b: int| best_at(listing, top, b);
    assert(chosen(listing, b));
    lemma_chosen_unique(listing, b, choice(listing).unwrap());
}

/// The scan settles on nothing exactly where no density has a launcher
/// bitmap.
pub proof fn lemma_choice_none(listing: Seq<Option<Seq<char>>>)
    ensures
        choice(listing) is None <==> forall|d: Density| vacant(listing, d),
{
    if choice(listing) is None {
        assert forall|d: Density| vacant(listing, d) by {
            if !vacant(listing, d) {
                let j = choose|j: int| candidate(listing, d, j);
                lemma_density_priority(listing, d, j);
            }
        }
    } else {
        let i = choice(listing).unwrap();
        assert(chosen(listing, i));
        let d = choose|d: Density| #[trigger] best_at(listing, d, i);
        assert(candidate(listing, d, i));
        assert(!vacant(listing, d));
    }
}

/// A density that is vacant in one listing is vacant in every listing that
/// holds no other paths.
proof fn lemma_vacant_same(a: Seq<Option<Seq<char>>>, b: Seq<Option<Seq<char>>>, d: Density)
    requires
        forall|p: Option<Seq<char>>| a.contains(p) ==> b.contains(p),
    ensures
        vacant(b, d) ==> vacant(a, d),
{
    if vacant(b, d) && !vacant(a, d) {
        let j = choose|j: int| candidate(a, d, j);
        assert(a.contains(a[j]));
        let k = choose|k: int| 0 <= k < b.len() && b[k] == a[j];
        assert(candidate(b, d, k));
    }
}

/// The scan does not depend on the order of the listing: two listings of the
/// same paths settle on the same path, or both on nothing.
pub proof fn lemma_choice_ignores_order(a: Seq<Option<Seq<char>>>, b: Seq<Option<Seq<char>>>)
    requires
        forall|p: Option<Seq<char>>| a.contains(p) <==> b.contains(p),
    ensures
        match (choice(a), choice(b)) {
            (Some(i), Some(j)) => 0 <= i < a.len() && 0 <= j < b.len() && a[i] == b[j],
            (None, None) => true,
            _ => false,
        },
{
    assert forall|d: Density| vacant(a, d) <==> vacant(b, d) by {
        lemma_vacant_same(a, b, d);
        lemma_vacant_same(b, a, d);
    }
    lemma_choice_none(a);
    lemma_choice_none(b);
    if choice(a) is Some {
        let i = choice(a).unwrap();
        let j = choice(b).unwrap();
        assert(chosen(a, i) && chosen(b, j));
        let d = choose|d: Density| #[trigger]
            best_at(a, d, i) && forall|e: Density| e.rank() < d.rank() ==> #[trigger] vacant(a, e);
        let f = choose|f: Density| #[trigger]
            best_at(b, f, j) && forall|e: Density| e.rank() < f.rank() ==> #[trigger] vacant(b, e);
        assert(candidate(a, d, i) && candidate(b, f, j));
        assert(!vacant(a, d) && !vacant(b, f));
        assert(d == f) by {
            if d.rank() < f.rank() {
                assert(vacant(b, d));
            } else if f.rank() < d.rank() {
                assert(vacant(a, f));
            }
        }
        assert(b.contains(a[i]));
        let k = choose|k: int| 0 <= k < b.len() && b[k] == a[i];
        assert(candidate(b, d, k));
        assert(a.contains(b[j]));
        let m = choose|m: int| 0 <= m < a.len() && a[m] == b[j];
        assert(candidate(a, d, m));
        let p = a[i].unwrap();
        let q = b[j].unwrap();
        assert(!path_lt(p, q) && !path_lt(q, p));
        lemma_lex_total(encode_utf8(p), encode_utf8(q));
        lemma_same_bytes(p, q);
    }
}

/// The pick of density `d` among the listed paths, by one pass over them.
pub fn smallest_launcher(paths: &Vec<Option<String>>, d: Density) -> (best: Option<usize>)
    ensures
        match best {
            Some(i) => best_at(paths.deep_view(), d, i as int),
            None => vacant(paths.deep_view(), d),
        },
{
    let ghost listing = paths.deep_view();
    let mut best: Option<usize> = None;
    let mut held: &str = "";
    let mut i: usize = 0;
    while i < paths.len()
        invariant
            i <= paths.len(),
            listing == paths.deep_view(),
            listing.len() == paths.len(),
            match best {
                Some(b) => {
                    &&& b < i
                    &&& candidate(listing, d, b as int)
                    &&& listing[b as int] == Some(held@)
                    &&& forall|j: int| #[trigger]
                        candidate(listing, d, j) && j < i ==> !path_lt(listing[j].unwrap(), held@)
                    &&& forall|j: int| #[trigger]
                        candidate(listing, d, j) && j < b ==> listing[j] != listing[b as int]
                },
                None => forall|j: int| #[trigger] candidate(listing, d, j) ==> j >= i,
            },
        decreases paths.len() - i,
    {
        if let Some(path) = &paths[i] {
            assert(listing[i as int] == Some(path@));
            if is_launcher_path(path.as_str(), d) && (best.is_none() || precedes(
                path.as_str().as_bytes(),
                held.as_bytes(),
            )) {
                proof {
                    lemma_lex_irreflexive(encode_utf8(path@));
                    assert forall|j: int| #[trigger]
                        candidate(listing, d, j) && j < i implies !path_lt(
                        listing[j].unwrap(),
                        path@,
                    ) by {
                        if best is Some && path_lt(listing[j].unwrap(), path@) {
                            lemma_lex_transitive(
                                encode_utf8(listing[j].unwrap()),
                                encode_utf8(path@),
                                encode_utf8(held@),
                            );
                        }
                    }
                }
                best = Some(i);
                held = path.as_str();
            }
        }
        i += 1;
    }
    best
}

/// The scan over all densities, from the highest down: the pick of the first
/// density that has one.
pub fn select_launcher(paths: &Vec<Option<String>>) -> (picked: Option<usize>)
    ensures
        match picked {
            Some(i) => choice(paths.deep_view()) == Some(i as int),
            None => choice(paths.deep_view()) is None,
        },
{
    let ghost listing = paths.deep_view();
    let mut d = Density::highest();
    loop
        invariant
            listing == paths.deep_view(),
            forall|e: Density| e.rank() < d.rank() ==> #[trigger] vacant(listing, e),
        decreases 5 - d.rank(),
    {
        if let Some(i) = smallest_launcher(paths, d) {
            proof {
                assert(chosen(listing, i as int));
                lemma_chosen_unique(listing, i as int, choice(listing).unwrap());
            }
            return Some(i);
        }
        match d.lower() {
            Some(next) => {
                d = next;
            },
            None => {
                proof {
                    assert forall|e: Density| vacant(listing, e) by {
                        if e.rank() >= d.rank() {
                            assert(e == d);
                        }
                    }
                    lemma_choice_none(listing);
                }
                return None;
            },
        }
    }
}

} // verus!

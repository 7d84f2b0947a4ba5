//! The low-priced listing cache: a single shared snapshot of the
//! cheapest listings, ordered by rent ascending with ties broken by
//! ascending id.
//!
//! The cache moves from `Uninitialized` to `Populated` once and never
//! back.  Readers receive a copy of the snapshot, never a live
//! reference, so a concurrent refresh cannot be observed mid-update.
//! Neither `read` nor `repopulate` takes a storage collaborator: the
//! caller queries storage first and swaps the finished snapshot in, so
//! no reader ever blocks on a storage round-trip and no writer holds
//! the surrounding lock across a remote call.

use vstd::prelude::*;
use vstd::multiset::Multiset;

use crate::model::Estate;
use crate::model::EstateModel;

verus! {

/// The snapshot holds at most this many listings.
pub const LOW_PRICED_LIMIT: usize = 20;

/// The cache's ordering: rent ascending, ties broken by ascending id.
pub open spec fn rent_id_leq(a: EstateModel, b: EstateModel) -> bool {
    a.rent < b.rent || (a.rent == b.rent && a.id <= b.id)
}

pub open spec fn sorted_by_rent_id(s: Seq<EstateModel>) -> bool {
    forall|i: int, j: int| 0 <= i < j < s.len() ==> rent_id_leq(#[trigger] s[i], #[trigger] s[j])
}

/// What a correct snapshot of a listing set looks like: a sorted prefix
/// of some sorted permutation of the whole set, cut at the size limit.
pub open spec fn is_low_priced_snapshot(
    snapshot: Seq<EstateModel>,
    listings: Seq<EstateModel>,
    limit: int,
) -> bool {
    &&& sorted_by_rent_id(snapshot)
    &&& snapshot.len() == (if listings.len() < limit {
        listings.len() as int
    } else {
        limit
    })
    &&& exists|s: Seq<EstateModel>|
        #[trigger] sorted_by_rent_id(s) && s.to_multiset() == listings.to_multiset()
            && snapshot == s.take(snapshot.len() as int)
}

/// The index of the least listing by (rent, id).
fn min_rent_id_index(v: &Vec<Estate>) -> (r: usize)
    requires
        v@.len() > 0,
    ensures
        r < v@.len(),
        forall|k: int|
            0 <= k < v@.len() ==> rent_id_leq(v.deep_view()[r as int], #[trigger] v.deep_view()[k]),
{
    let mut best: usize = 0;
    let mut i: usize = 1;
    while i < v.len()
        invariant
            0 <= best < v@.len(),
            1 <= i <= v@.len(),
            forall|k: int|
                0 <= k < i ==> rent_id_leq(
                    v.deep_view()[best as int],
                    #[trigger] v.deep_view()[k],
                ),
        decreases v@.len() - i,
    {
        let better: bool = v[i].rent < v[best].rent || (v[i].rent == v[best].rent && v[i].id
            < v[best].id);
        if better {
            best = i;
        }
        i = i + 1;
    }
    best
}

/// Sorts listings by rent ascending, ties by ascending id; the result is
/// a permutation of the input.
pub fn sort_by_rent_id(v: Vec<Estate>) -> (r: Vec<Estate>)
    ensures
        sorted_by_rent_id(r.deep_view()),
        r.deep_view().to_multiset() == v.deep_view().to_multiset(),
        r@.len() == v@.len(),
{
    broadcast use vstd::seq_lib::group_to_multiset_ensures;

    let ghost orig: Seq<EstateModel> = v.deep_view();
    let mut src: Vec<Estate> = v;
    let mut out: Vec<Estate> = Vec::new();
    proof {
        assert(out.deep_view() =~= Seq::<EstateModel>::empty());
        assert(out.deep_view().to_multiset().add(src.deep_view().to_multiset())
            =~= orig.to_multiset());
    }
    while src.len() > 0
        invariant
            sorted_by_rent_id(out.deep_view()),
            out.deep_view().to_multiset().add(src.deep_view().to_multiset()) == orig.to_multiset(),
            out@.len() + src@.len() == orig.len(),
            forall|i: int, j: int|
                0 <= i < out@.len() && 0 <= j < src@.len() ==> rent_id_leq(
                    #[trigger] out.deep_view()[i],
                    #[trigger] src.deep_view()[j],
                ),
        decreases src@.len(),
    {
        broadcast use vstd::seq_lib::group_to_multiset_ensures;

        let m: usize = min_rent_id_index(&src);
        let ghost src_dv: Seq<EstateModel> = src.deep_view();
        let ghost out_dv: Seq<EstateModel> = out.deep_view();
        let ghost x: EstateModel = src_dv[m as int];
        let e: Estate = src.remove(m);
        proof {
            assert(src.deep_view() =~= src_dv.remove(m as int));
            assert(e.deep_view() == x);
        }
        out.push(e);
        proof {
            assert(out.deep_view() =~= out_dv.push(x));
            assert(src_dv.to_multiset().contains(x));
            assert(out.deep_view().to_multiset() =~= out_dv.to_multiset().insert(x));
            assert(src.deep_view().to_multiset() =~= src_dv.to_multiset().remove(x));
            assert(out.deep_view().to_multiset().add(src.deep_view().to_multiset())
                =~= orig.to_multiset());
            assert forall|j: int| 0 <= j < src.deep_view().len() implies rent_id_leq(
                x,
                #[trigger] src.deep_view()[j],
            ) by {
                if j < m {
                    assert(src.deep_view()[j] == src_dv[j]);
                } else {
                    assert(src.deep_view()[j] == src_dv[j + 1]);
                }
            }
            assert forall|i: int, j: int|
                0 <= i < out.deep_view().len() && 0 <= j < src.deep_view().len()
                implies rent_id_leq(
                #[trigger] out.deep_view()[i],
                #[trigger] src.deep_view()[j],
            ) by {
                if i < out_dv.len() {
                    if j < m {
                        assert(src.deep_view()[j] == src_dv[j]);
                    } else {
                        assert(src.deep_view()[j] == src_dv[j + 1]);
                    }
                }
            }
            assert(sorted_by_rent_id(out.deep_view()));
        }
    }
    proof {
        assert(src.deep_view() =~= Seq::<EstateModel>::empty());
        assert(src.deep_view().to_multiset() =~= Multiset::<EstateModel>::empty());
        assert(out.deep_view().to_multiset() =~= orig.to_multiset());
    }
    out
}

/// Computes the cheapest-listings snapshot of a listing set: sort by
/// (rent, id) ascending and keep at most `limit` entries.
pub fn select_low_priced(listings: Vec<Estate>, limit: usize) -> (r: Vec<Estate>)
    ensures
        is_low_priced_snapshot(r.deep_view(), listings.deep_view(), limit as int),
{
    let ghost ldv: Seq<EstateModel> = listings.deep_view();
    let mut sorted: Vec<Estate> = sort_by_rent_id(listings);
    let ghost s: Seq<EstateModel> = sorted.deep_view();
    sorted.truncate(limit);
    proof {
        if limit <= s.len() {
            assert(sorted.deep_view() =~= s.take(limit as int));
        } else {
            assert(sorted.deep_view() =~= s);
            assert(s =~= s.take(s.len() as int));
        }
        assert(sorted_by_rent_id(s) && s.to_multiset() == ldv.to_multiset() && sorted.deep_view()
            == s.take(sorted.deep_view().len() as int));
    }
    sorted
}

/// The shared cheapest-listings snapshot.  `Uninitialized` only before
/// the first population; every repopulation leaves it `Populated`.
pub enum LowPricedCache {
    Uninitialized,
    Populated(Vec<Estate>),
}

/// Copies a listing vector element by element; the copy carries the
/// same view.
fn clone_estates(v: &Vec<Estate>) -> (r: Vec<Estate>)
    ensures
        r.deep_view() == v.deep_view(),
{
    let mut out: Vec<Estate> = Vec::new();
    let mut i: usize = 0;
    while i < v.len()
        invariant
            0 <= i <= v@.len(),
            out.deep_view() == v.deep_view().take(i as int),
        decreases v@.len() - i,
    {
        let e: Estate = v[i].clone();
        let ghost prev: Seq<EstateModel> = out.deep_view();
        proof {
            assert(e.deep_view() == v.deep_view()[i as int]);
        }
        out.push(e);
        proof {
            assert(out.deep_view() =~= prev.push(v.deep_view()[i as int]));
            assert(out.deep_view() =~= v.deep_view().take(i as int + 1));
        }
        i = i + 1;
    }
    proof {
        assert(v.deep_view().take(v@.len() as int) =~= v.deep_view());
    }
    out
}

impl LowPricedCache {
    /// A cache that has not been populated yet.
    pub fn new() -> (r: Self)
        ensures
            r is Uninitialized,
    {
        LowPricedCache::Uninitialized
    }

    pub open spec fn spec_snapshot(&self) -> Option<Seq<EstateModel>> {
        match self {
            LowPricedCache::Uninitialized => None,
            LowPricedCache::Populated(s) => Some(s.deep_view()),
        }
    }

    /// Swaps in a freshly computed snapshot of the given listing set.
    /// The caller performs the storage query first and holds its lock
    /// only for this swap; the cache never goes back to `Uninitialized`.
    pub fn repopulate(&mut self, listings: Vec<Estate>)
        ensures
            *final(self) is Populated,
            (*final(self)).spec_snapshot() matches Some(snap) && is_low_priced_snapshot(
                snap,
                listings.deep_view(),
                LOW_PRICED_LIMIT as int,
            ),
    {
        let snapshot: Vec<Estate> = select_low_priced(listings, LOW_PRICED_LIMIT);
        *self = LowPricedCache::Populated(snapshot);
    }

    /// Hands the reader a copy of the current snapshot, or `None` before
    /// the first population.  The copy is taken in one step: a reader
    /// sees one complete snapshot, never a torn one, and no storage
    /// round-trip is involved.
    pub fn read(&self) -> (r: Option<Vec<Estate>>)
        ensures
            self is Uninitialized ==> r is None,
            self.spec_snapshot() matches Some(snap) ==> (r matches Some(v) && v.deep_view()
                == snap),
    {
        match self {
            LowPricedCache::Uninitialized => None,
            LowPricedCache::Populated(s) => Some(clone_estates(s)),
        }
    }
}

} // verus!

//! Scenes and the nearest-hit query.

use vstd::prelude::*;
use crate::intersection::Intersection;
use crate::object::Object;
use crate::ray::Ray;
use crate::scalar::{Scalar, INFINITY_BITS};
use crate::surface::Surface;

verus! {

/// An ordered collection of objects.
pub struct Scene<S, M> {
    pub objects: Vec<Object<S, M>>,
}

/// Whether the `k`-th of the hits can be the nearest: there is a hit, and it
/// lies at a distance below infinity.
pub open spec fn candidate(hits: Seq<Option<Intersection>>, k: int) -> bool {
    &&& 0 <= k < hits.len()
    &&& hits[k] matches Some(i) && i.distance.below(Scalar { bits: INFINITY_BITS })
}

/// Whether the `k`-th hit is the nearest of the first `n`: none of them is
/// closer, and every one before it is farther.
pub open spec fn nearest_among(hits: Seq<Option<Intersection>>, n: int, k: int) -> bool {
    &&& k < n <= hits.len()
    &&& candidate(hits, k)
    &&& forall|j: int|
        j < n && #[trigger] candidate(hits, j) ==> !hits[j]->0.distance.below(hits[k]->0.distance)
    &&& forall|j: int|
        j < k && #[trigger] candidate(hits, j) ==> hits[k]->0.distance.below(hits[j]->0.distance)
}

/// The index of the nearest of the hits: the first of those at the least
/// distance. There is none when no hit is a candidate.
pub open spec fn nearest(hits: Seq<Option<Intersection>>) -> Option<int> {
    if exists|k: int| nearest_among(hits, hits.len() as int, k) {
        Some(choose|k: int| nearest_among(hits, hits.len() as int, k))
    } else {
        None
    }
}

/// At most one hit is the nearest.
pub proof fn lemma_nearest_unique(hits: Seq<Option<Intersection>>, n: int, k: int, j: int)
    requires
        nearest_among(hits, n, k),
        nearest_among(hits, n, j),
    ensures
        k == j,
{
    if k < j {
        assert(candidate(hits, k));
    } else if j < k {
        assert(candidate(hits, j));
    }
}

/// The nearest hit, once known, is what `nearest` names.
pub proof fn lemma_nearest_is(hits: Seq<Option<Intersection>>, k: int)
    requires
        nearest_among(hits, hits.len() as int, k),
    ensures
        nearest(hits) == Some(k),
{
    let c = choose|c: int| nearest_among(hits, hits.len() as int, c);
    lemma_nearest_unique(hits, hits.len() as int, k, c);
}

/// Without a candidate there is no nearest hit.
pub proof fn lemma_nearest_none(hits: Seq<Option<Intersection>>)
    requires
        forall|k: int| !candidate(hits, k),
    ensures
        nearest(hits) is None,
{
}

/// Among the first `n` hits one is the nearest as soon as one is a candidate.
pub proof fn lemma_nearest_among_exists(hits: Seq<Option<Intersection>>, n: int) -> (k: int)
    requires
        n <= hits.len(),
        exists|j: int| j < n && candidate(hits, j),
    ensures
        nearest_among(hits, n, k),
    decreases n,
{
    let last = n - 1;
    if exists|j: int| j < last && candidate(hits, j) {
        let before = lemma_nearest_among_exists(hits, last);
        if candidate(hits, last) && hits[last]->0.distance.below(hits[before]->0.distance) {
            let found = hits[last]->0.distance;
            assert forall|j: int| j < n && #[trigger] candidate(hits, j) implies !hits[j]->0.distance.below(
                found,
            ) by {
                if j < last {
                    assert(!hits[j]->0.distance.below(hits[before]->0.distance));
                }
            }
            assert forall|j: int| j < last && #[trigger] candidate(hits, j) implies found.below(
                hits[j]->0.distance,
            ) by {
                assert(!hits[j]->0.distance.below(hits[before]->0.distance));
            }
            last
        } else {
            before
        }
    } else {
        let j = choose|j: int| j < n && candidate(hits, j);
        assert(j == last);
        last
    }
}

/// There is a nearest hit exactly when some hit is a candidate.
pub proof fn lemma_nearest_exists(hits: Seq<Option<Intersection>>)
    ensures
        nearest(hits) is Some <==> exists|k: int| candidate(hits, k),
        nearest(hits) matches Some(k) ==> nearest_among(hits, hits.len() as int, k),
{
    if exists|k: int| candidate(hits, k) {
        let j = choose|j: int| candidate(hits, j);
        assert(j < hits.len() && candidate(hits, j));
        let k = lemma_nearest_among_exists(hits, hits.len() as int);
        lemma_nearest_is(hits, k);
    }
}

impl<S: Surface, M> Scene<S, M> {
    /// What each object's surface finds of `ray`, in the order of the scene.
    pub open spec fn hits(&self, ray: Ray) -> Seq<Option<Intersection>> {
        Seq::new(self.objects@.len(), |k: int| self.objects@[k].surface.hit(ray))
    }

    /// The nearest intersection of `ray` with the scene, and the object that
    /// it hits.
    ///
    /// Every object is tested in turn, starting from no hit at infinite
    /// distance; a hit takes the place of the best so far only when it is
    /// strictly closer. So the result is the first of the hits at the least
    /// distance, and there is none exactly when no object is hit at a
    /// distance below infinity.
    pub fn intersects(&self, ray: &Ray) -> (r: Option<(Intersection, &Object<S, M>)>)
        ensures
            r is None <==> nearest(self.hits(*ray)) is None,
            r is Some <==> exists|k: int| candidate(self.hits(*ray), k),
            r matches Some((i, o)) ==> {
                &&& nearest(self.hits(*ray)) matches Some(k)
                &&& 0 <= k < self.objects@.len()
                &&& self.objects@[k].surface.hit(*ray) == Some(i)
                &&& *o == self.objects@[k]
                &&& i.well_formed()
            },
    {
        let ghost hits = self.hits(*ray);
        let mut best: Option<(Intersection, usize)> = None;
        let mut k: usize = 0;
        while k < self.objects.len()
            invariant
                k <= self.objects@.len(),
                hits == self.hits(*ray),
                hits.len() == self.objects@.len(),
                best is None ==> forall|j: int| j < k ==> !candidate(hits, j),
                best matches Some((i, b)) ==> {
                    &&& nearest_among(hits, k as int, b as int)
                    &&& hits[b as int] == Some(i)
                    &&& i.well_formed()
                },
            decreases self.objects@.len() - k,
        {
            let previous = match best {
                Some((i, _)) => i.distance,
                None => Scalar::infinity(),
            };
            let found = self.objects[k].surface.intersects(ray);
            assert(found == hits[k as int]);
            match found {
                Some(i) => {
                    if i.distance.less_than(&previous) {
                        best = Some((i, k));
                    }
                },
                None => {},
            }
            k = k + 1;
        }
        proof {
            lemma_nearest_exists(hits);
        }
        match best {
            Some((i, b)) => {
                proof {
                    lemma_nearest_is(hits, b as int);
                }
                Some((i, &self.objects[b]))
            },
            None => {
                proof {
                    lemma_nearest_none(hits);
                }
                None
            },
        }
    }
}

} // verus!

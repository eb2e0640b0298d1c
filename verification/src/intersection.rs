//! One hit of a ray on a shape, and the choice of the closest of many.

use vstd::prelude::*;
use crate::color::ColorType;
use crate::scalar::Scalar;

verus! {

/// A ray meets a surface: the ray parameter at which it does, and the flat
/// colour of the surface.
#[derive(Clone, Copy, Debug, PartialEq, Eq, Structural)]
pub struct Intersection {
    pub distance: Scalar,
    pub color: ColorType,
}

impl Intersection {
    pub fn new(distance: Scalar, color: ColorType) -> (hit: Intersection)
        ensures
            hit.distance == distance,
            hit.color == color,
    {
        Intersection { distance, color }
    }
}

/// What can say whether, and where, the ray it was measured against hits it.
pub trait Intersectable {
    /// The hit, if there is one.
    spec fn hit(&self) -> Option<Intersection>;

    /// Decides hit or miss.
    fn get_intersection(&self) -> (found: Option<Intersection>)
        ensures
            found == self.hit(),
    ;
}

/// Whether an outcome takes part in the choice of the closest: it is a hit,
/// and its distance is a number.
pub open spec fn counts(outcome: Option<Intersection>) -> bool {
    outcome is Some && !outcome->Some_0.distance.nan()
}

/// The better of the best hit so far and the next outcome. The next one
/// wins only when it is strictly nearer, so of equals the earlier stays.
pub open spec fn nearer(best: Option<Intersection>, next: Option<Intersection>) -> Option<
    Intersection,
> {
    if !counts(next) {
        best
    } else if best is Some && !next->Some_0.distance.below(best->Some_0.distance) {
        best
    } else {
        next
    }
}

/// The closest hit among outcomes taken in order.
pub open spec fn closest(outcomes: Seq<Option<Intersection>>) -> Option<Intersection>
    decreases outcomes.len(),
{
    if outcomes.len() == 0 {
        None
    } else {
        nearer(closest(outcomes.drop_last()), outcomes.last())
    }
}

/// The outcomes of a sequence of shapes.
pub open spec fn outcomes_of<T: Intersectable>(items: Seq<T>) -> Seq<Option<Intersection>> {
    Seq::new(items.len(), |i: int| items[i].hit())
}

/// One step of the choice.
pub fn keep_nearer(best: Option<Intersection>, next: Option<Intersection>) -> (kept: Option<
    Intersection,
>)
    ensures
        kept == nearer(best, next),
{
    match next {
        None => best,
        Some(candidate) => {
            if candidate.distance.is_nan() {
                best
            } else {
                match best {
                    None => next,
                    Some(current) => {
                        if candidate.distance.lt(&current.distance) {
                            next
                        } else {
                            best
                        }
                    },
                }
            }
        },
    }
}

/// Asks every shape in turn and keeps the closest hit.
pub fn closest_hit<T: Intersectable>(items: &Vec<T>) -> (found: Option<Intersection>)
    ensures
        found == closest(outcomes_of(items@)),
{
    let mut best: Option<Intersection> = None;
    let mut i: usize = 0;
    while i < items.len()
        invariant
            i <= items.len(),
            best == closest(outcomes_of(items@).take(i as int)),
        decreases items.len() - i,
    {
        let next = items[i].get_intersection();
        proof {
            let all = outcomes_of(items@);
            assert(all.take(i + 1).drop_last() =~= all.take(i as int));
        }
        best = keep_nearer(best, next);
        i += 1;
    }
    proof {
        let all = outcomes_of(items@);
        assert(all.take(items.len() as int) =~= all);
    }
    best
}

/// `k` is where the closest hit stands: it counts, no counting outcome is
/// strictly nearer, and every counting outcome before it is strictly
/// farther.
pub open spec fn first_minimum(outcomes: Seq<Option<Intersection>>, k: int) -> bool {
    &&& 0 <= k < outcomes.len()
    &&& counts(outcomes[k])
    &&& forall|j: int|
        0 <= j < outcomes.len() && counts(#[trigger] outcomes[j])
            ==> outcomes[k]->Some_0.distance.at_most(outcomes[j]->Some_0.distance)
    &&& forall|j: int|
        0 <= j < k && counts(#[trigger] outcomes[j])
            ==> outcomes[k]->Some_0.distance.below(outcomes[j]->Some_0.distance)
}

/// The choice is empty exactly when no outcome counts. Otherwise it is the
/// first outcome of minimal distance among those that count.
pub proof fn closest_is_first_minimum(outcomes: Seq<Option<Intersection>>)
    ensures
        closest(outcomes) is None <==> forall|j: int|
            0 <= j < outcomes.len() ==> !counts(#[trigger] outcomes[j]),
        closest(outcomes) is Some ==> exists|k: int|
            first_minimum(outcomes, k) && outcomes[k] == closest(outcomes),
    decreases outcomes.len(),
{
    if outcomes.len() > 0 {
        let front = outcomes.drop_last();
        let best = closest(front);
        closest_is_first_minimum(front);
        if closest(outcomes) is Some {
            if closest(outcomes) == best && best is Some {
                let k = choose|k: int| first_minimum(front, k) && front[k] == best;
                assert(first_minimum(outcomes, k)) by {
                    assert forall|j: int|
                        0 <= j < outcomes.len() && counts(#[trigger] outcomes[j]) implies outcomes[k]->Some_0.distance.at_most(
                        outcomes[j]->Some_0.distance,
                    ) by {
                        if j < front.len() {
                            assert(counts(front[j]));
                        }
                    }
                    assert forall|j: int|
                        0 <= j < k && counts(#[trigger] outcomes[j]) implies outcomes[k]->Some_0.distance.below(
                        outcomes[j]->Some_0.distance,
                    ) by {
                        assert(counts(front[j]));
                    }
                }
            } else {
                let k = outcomes.len() - 1;
                if best is Some {
                    let b = choose|b: int| first_minimum(front, b) && front[b] == best;
                    assert forall|j: int|
                        0 <= j < k && counts(#[trigger] outcomes[j]) implies outcomes[k]->Some_0.distance.below(
                        outcomes[j]->Some_0.distance,
                    ) by {
                        assert(front[b]->Some_0.distance.at_most(front[j]->Some_0.distance));
                    }
                } else {
                    assert forall|j: int| 0 <= j < k implies !counts(#[trigger] outcomes[j]) by {
                        assert(!counts(front[j]));
                    }
                }
                assert(first_minimum(outcomes, k));
            }
        } else {
            assert forall|j: int| 0 <= j < outcomes.len() implies !counts(
                #[trigger] outcomes[j],
            ) by {
                if j < front.len() {
                    assert(!counts(front[j]));
                }
            }
        }
        if forall|j: int| 0 <= j < outcomes.len() ==> !counts(#[trigger] outcomes[j]) {
            assert forall|j: int| 0 <= j < front.len() implies !counts(#[trigger] front[j]) by {}
        }
    }
}

} // verus!

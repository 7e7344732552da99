//! The scene: the primitives in the order in which they were added, and the
//! search for the nearest one that a ray hits.

use vstd::prelude::*;
use crate::hittables::{in_range, lemma_hit_in_range, lemma_hit_narrowed, Crossing, Hittable};
use crate::scalar::Scalar;

verus! {

/// The nearest hit of a ray: which primitive, by its place in the scene, and
/// the ray parameter there.
#[derive(Clone, Copy, Debug, PartialEq, Eq, Structural)]
pub struct Hit {
    pub index: usize,
    pub t: Scalar,
}

/// The scene: its primitives, in the order in which they were added.
pub struct World {
    objects: Vec<Hittable>,
}

/// What the ray's line does at primitive `i`; a primitive beyond the end of
/// `crossings` is missed.
pub open spec fn crossing_at(crossings: Seq<Crossing>, i: int) -> Crossing {
    if 0 <= i < crossings.len() {
        crossings[i]
    } else {
        Crossing::Miss
    }
}

/// The upper end of the range in which the next primitive is tested: the
/// parameter of the hit found so far, or `t_max` while there is none.
pub open spec fn bound(found: Option<Hit>, t_max: Scalar) -> Scalar {
    match found {
        Some(hit) => hit.t,
        None => t_max,
    }
}

/// The hit that stands after the first `n` primitives were tested in turn,
/// each in the range that the hits before it have left.
pub open spec fn nearest(
    objects: Seq<Hittable>,
    crossings: Seq<Crossing>,
    t_min: Scalar,
    t_max: Scalar,
    n: nat,
) -> Option<Hit>
    decreases n,
{
    if n == 0 {
        None
    } else {
        let found = nearest(objects, crossings, t_min, t_max, (n - 1) as nat);
        match objects[n - 1].hit_spec(
            crossing_at(crossings, n - 1),
            t_min,
            bound(found, t_max),
        ) {
            Some(t) => Some(Hit { index: (n - 1) as usize, t }),
            None => found,
        }
    }
}

impl View for World {
    type V = Seq<Hittable>;

    closed spec fn view(&self) -> Seq<Hittable> {
        self.objects@
    }
}

impl World {
    /// An empty scene.
    pub fn new() -> (world: World)
        ensures
            world@ == Seq::<Hittable>::empty(),
    {
        World { objects: Vec::new() }
    }

    /// Adds a primitive behind those that the scene holds.
    pub fn add(&mut self, hittable: Hittable)
        ensures
            final(self)@ == old(self)@.push(hittable),
    {
        self.objects.push(hittable);
    }

    /// The number of primitives.
    pub fn len(&self) -> (n: usize)
        ensures
            n == self@.len(),
    {
        self.objects.len()
    }

    /// The primitive at place `index`.
    pub fn object(&self, index: usize) -> (h: &Hittable)
        requires
            index < self@.len(),
        ensures
            *h == self@[index as int],
    {
        &self.objects[index]
    }

    /// The nearest hit of a ray in `(t_min, t_max]`, where `crossings` holds for
    /// each primitive, at its place, what the ray's line does there. The
    /// primitives are tested in turn, each in the range that the hits before it
    /// have left. The hit that comes out lies in the range, and no primitive
    /// has a hit in the range that is nearer.
    pub fn hit(&self, crossings: &[Crossing], t_min: Scalar, t_max: Scalar) -> (r: Option<Hit>)
        ensures
            r == nearest(self@, crossings@, t_min, t_max, self@.len()),
            r matches Some(hit) ==> hit.index < self@.len() && in_range(hit.t, t_min, t_max),
            forall|j: int|
                0 <= j < self@.len() && (#[trigger] self@[j]).hit_spec(
                    crossing_at(crossings@, j),
                    t_min,
                    t_max,
                ) is Some ==> r is Some && r->0.t.le_spec(
                    self@[j].hit_spec(crossing_at(crossings@, j), t_min, t_max)->0,
                ),
    {
        let mut hit_record: Option<Hit> = None;
        let mut closest_so_far = t_max;
        let mut i: usize = 0;
        while i < self.objects.len()
            invariant
                i <= self.objects.len(),
                hit_record == nearest(self@, crossings@, t_min, t_max, i as nat),
                closest_so_far == bound(hit_record, t_max),
            decreases self.objects.len() - i,
        {
            let crossing = if i < crossings.len() {
                crossings[i]
            } else {
                Crossing::Miss
            };
            match self.objects[i].hit(&crossing, t_min, closest_so_far) {
                Some(t) => {
                    closest_so_far = t;
                    hit_record = Some(Hit { index: i, t });
                },
                None => {},
            }
            i += 1;
        }
        proof {
            lemma_nearest_in_range(self@, crossings@, t_min, t_max, self@.len());
            assert forall|j: int|
                0 <= j < self@.len() && (#[trigger] self@[j]).hit_spec(
                    crossing_at(crossings@, j),
                    t_min,
                    t_max,
                ) is Some implies hit_record is Some && hit_record->0.t.le_spec(
                self@[j].hit_spec(crossing_at(crossings@, j), t_min, t_max)->0,
            ) by {
                lemma_nearest_is_minimal(self@, crossings@, t_min, t_max, self@.len(), j);
            }
        }
        hit_record
    }
}

/// The scene's hit is a hit of the primitive that it names, and lies in
/// `(t_min, t_max]`.
pub proof fn lemma_nearest_in_range(
    objects: Seq<Hittable>,
    crossings: Seq<Crossing>,
    t_min: Scalar,
    t_max: Scalar,
    n: nat,
)
    requires
        n <= objects.len() <= usize::MAX,
    ensures
        match nearest(objects, crossings, t_min, t_max, n) {
            Some(hit) => {
                &&& hit.index < n
                &&& in_range(hit.t, t_min, t_max)
                &&& objects[hit.index as int].hit_spec(
                    crossing_at(crossings, hit.index as int),
                    t_min,
                    bound(nearest(objects, crossings, t_min, t_max, hit.index as nat), t_max),
                ) == Some(hit.t)
            },
            None => true,
        },
    decreases n,
{
    if n > 0 {
        lemma_nearest_in_range(objects, crossings, t_min, t_max, (n - 1) as nat);
    }
}

/// No primitive is hit nearer than the scene's hit: where primitive `j` has a
/// hit in `(t_min, t_max]`, the scene has one, and at no greater parameter.
pub proof fn lemma_nearest_is_minimal(
    objects: Seq<Hittable>,
    crossings: Seq<Crossing>,
    t_min: Scalar,
    t_max: Scalar,
    n: nat,
    j: int,
)
    requires
        0 <= j < n <= objects.len() <= usize::MAX,
        objects[j].hit_spec(crossing_at(crossings, j), t_min, t_max) is Some,
    ensures
        nearest(objects, crossings, t_min, t_max, n) is Some,
        nearest(objects, crossings, t_min, t_max, n)->0.t.le_spec(
            objects[j].hit_spec(crossing_at(crossings, j), t_min, t_max)->0,
        ),
    decreases n,
{
    let found = nearest(objects, crossings, t_min, t_max, (n - 1) as nat);
    let last = objects[n - 1];
    let crossing = crossing_at(crossings, n - 1);
    lemma_nearest_in_range(objects, crossings, t_min, t_max, (n - 1) as nat);
    lemma_hit_in_range(last, crossing, t_min, bound(found, t_max));
    if j == n - 1 {
        lemma_hit_in_range(last, crossing, t_min, t_max);
        lemma_hit_narrowed(last, crossing, t_min, t_max, bound(found, t_max));
    } else {
        lemma_nearest_is_minimal(objects, crossings, t_min, t_max, (n - 1) as nat, j);
    }
}

} // verus!

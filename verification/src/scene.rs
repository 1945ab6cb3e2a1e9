//! Hits of a ray on the primitives of a scene, and the choice among them.
//!
//! A ray is `origin + direction * t`. A primitive computes the values of `t` at
//! which the ray meets its surface; this module decides which of them is the
//! hit. For a sphere these are the roots of a quadratic: none, one or two of
//! them, by the sign of its discriminant.

use vstd::prelude::*;
use crate::scalar::Scalar;
use crate::scalar::EPSILON_BITS;

verus! {

/// A meeting of a ray with a surface: the ray parameter at which it happens,
/// and the surface normal there. The normal is carried, never read.
#[derive(Debug, PartialEq)]
pub struct Hit<N> {
    pub distance: Scalar,
    pub normal: N,
}

impl<N: Copy> Clone for Hit<N> {
    fn clone(&self) -> (copy: Self)
        ensures
            copy == *self,
    {
        *self
    }
}

impl<N: Copy> Copy for Hit<N> {

}

impl<N> Hit<N> {
    /// A hit counts when it lies farther along the ray than epsilon: nearer
    /// ones, and those behind the origin, are the surface the ray started on.
    pub open spec fn valid(self) -> bool {
        Scalar::epsilon().less(self.distance)
    }

    /// Whether the hit is valid.
    pub fn is_valid(&self) -> (b: bool)
        ensures
            b == self.valid(),
    {
        self.distance.gt(Scalar::from_bits(EPSILON_BITS))
    }
}

/// How many times the line of a ray meets a sphere.
#[derive(Clone, Copy, Debug, PartialEq, Eq, Structural)]
pub enum Roots {
    /// The line misses the sphere.
    Zero,
    /// The line touches the sphere: one root, `t = b`.
    One,
    /// The line crosses the sphere: `t = b - sqrt(d)` and `t = b + sqrt(d)`.
    Two,
}

impl Roots {
    /// The number of roots by the discriminant `d = b^2 - c`: two where it is
    /// positive, none where it is negative, one otherwise. A discriminant that
    /// is not a number is neither positive nor negative.
    pub open spec fn count(discriminant: Scalar) -> Roots {
        if Scalar::zero().less(discriminant) {
            Roots::Two
        } else if discriminant.less(Scalar::zero()) {
            Roots::Zero
        } else {
            Roots::One
        }
    }

    /// Classifies a discriminant.
    pub fn of(discriminant: Scalar) -> (roots: Roots)
        ensures
            roots == Roots::count(discriminant),
    {
        let zero = Scalar::from_bits(0);
        if discriminant.gt(zero) {
            Roots::Two
        } else if discriminant.lt(zero) {
            Roots::Zero
        } else {
            Roots::One
        }
    }
}

/// The hit among the two roots of a crossing: the valid one where only one is
/// valid, the nearer where both are, the first where both are valid and equally
/// near, none where neither is.
pub open spec fn select_root<N>(first: Hit<N>, second: Hit<N>) -> Option<Hit<N>> {
    if first.valid() && second.valid() {
        if second.distance.less(first.distance) {
            Some(second)
        } else {
            Some(first)
        }
    } else if first.valid() {
        Some(first)
    } else if second.valid() {
        Some(second)
    } else {
        None
    }
}

/// Chooses the hit between the two roots of a crossing.
///
/// Neither distance may be a NaN: such a pair has no order to choose by.
pub fn nearest_valid<N>(first: Hit<N>, second: Hit<N>) -> (hit: Option<Hit<N>>)
    requires
        !first.distance.nan(),
        !second.distance.nan(),
    ensures
        hit == select_root(first, second),
{
    let first_counts = first.is_valid();
    let second_counts = second.is_valid();
    if first_counts && !second_counts {
        Some(first)
    } else if second_counts && !first_counts {
        Some(second)
    } else if !first_counts && !second_counts {
        None
    } else if first.distance.gt(second.distance) {
        Some(second)
    } else {
        Some(first)
    }
}

/// The hit of a ray that touches a sphere: its one root, where that is valid.
pub fn tangent_hit<N>(root: Hit<N>) -> (hit: Option<Hit<N>>)
    ensures
        hit == (if root.valid() { Some(root) } else { None }),
{
    if root.is_valid() {
        Some(root)
    } else {
        None
    }
}

/// What `select_root` returns is the nearest valid root: it is one of the two,
/// it is valid, no valid root is nearer, and there is none only where neither
/// root is valid.
pub proof fn selected_root_is_nearest_valid<N>(first: Hit<N>, second: Hit<N>)
    requires
        !first.distance.nan(),
        !second.distance.nan(),
    ensures
        select_root(first, second) is None <==> !first.valid() && !second.valid(),
        select_root(first, second) matches Some(hit) ==> {
            &&& hit == first || hit == second
            &&& hit.valid()
            &&& first.valid() ==> !first.distance.less(hit.distance)
            &&& second.valid() ==> !second.distance.less(hit.distance)
        },
{
}

/// With the first root no farther than the second, as `b - sqrt(d)` and
/// `b + sqrt(d)` are, a ray that starts outside the sphere and points at it
/// hits at the first root, and one that starts inside hits at the second.
pub proof fn ordered_roots<N>(first: Hit<N>, second: Hit<N>)
    requires
        !first.distance.nan(),
        !second.distance.nan(),
        !second.distance.less(first.distance),
    ensures
        first.valid() ==> select_root(first, second) == Some(first),
        !first.valid() && second.valid() ==> select_root(first, second) == Some(second),
        !second.valid() ==> select_root(first, second) is None,
{
}

/// A primitive of a scene: anything that can say where a ray of type `R` hits
/// it, with normals of type `N`.
///
/// What a primitive answers depends on the primitive and the ray alone: asked
/// twice, it answers the same. `answer` is the name of that answer in
/// contracts. It is never run; an implementation that is not verified writes
/// it as a call of `get_hits`.
pub trait Hittable<R, N> {
    /// What the primitive answers to `ray`.
    spec fn answer(&self, ray: &R) -> Option<Hit<N>>;

    /// The nearest valid hit of `ray` on the primitive, if there is one.
    fn get_hits(&self, ray: &R) -> (hit: Option<Hit<N>>)
        ensures
            hit == self.answer(ray),
    ;
}

/// What the primitives of a scene answer to `ray`, in their order.
pub open spec fn answers_of<P: Hittable<R, N>, R, N>(objects: Seq<P>, ray: &R) -> Seq<
    Option<Hit<N>>,
> {
    Seq::new(objects.len(), |i: int| objects[i].answer(ray))
}

/// Whether a primitive's answer is a hit that a scan can keep: a valid one.
pub open spec fn reachable<N>(answer: Option<Hit<N>>) -> bool {
    answer matches Some(hit) && hit.valid()
}

/// Whether `i` is the place of the nearest hit among the answers of the
/// primitives of a scene, taken in order: the hit there is valid, no valid one
/// is nearer, and the valid ones before it are farther.
pub open spec fn is_nearest<N>(answers: Seq<Option<Hit<N>>>, i: int) -> bool {
    &&& 0 <= i < answers.len()
    &&& reachable(answers[i])
    &&& forall|j: int|
        0 <= j < answers.len() && reachable(#[trigger] answers[j]) ==> {
            &&& !answers[j]->0.distance.less(answers[i]->0.distance)
            &&& j < i ==> answers[i]->0.distance.less(answers[j]->0.distance)
        }
}

/// The nearest valid hit among the answers, or none where no answer is valid.
pub open spec fn nearest_hit<N>(answers: Seq<Option<Hit<N>>>) -> Option<Hit<N>> {
    if exists|i: int| is_nearest(answers, i) {
        answers[choose|i: int| is_nearest(answers, i)]
    } else {
        None
    }
}

/// At most one place holds the nearest hit.
pub proof fn nearest_is_unique<N>(answers: Seq<Option<Hit<N>>>, i: int, j: int)
    requires
        is_nearest(answers, i),
        is_nearest(answers, j),
    ensures
        i == j,
{
    if i < j {
        assert(reachable(answers[i]));
        assert(answers[j]->0.distance.less(answers[i]->0.distance));
        assert(reachable(answers[j]));
        assert(!answers[j]->0.distance.less(answers[i]->0.distance));
    } else if j < i {
        assert(reachable(answers[j]));
        assert(answers[i]->0.distance.less(answers[j]->0.distance));
        assert(reachable(answers[i]));
        assert(!answers[i]->0.distance.less(answers[j]->0.distance));
    }
}

/// The nearest hit is the answer at the place that holds it.
pub proof fn nearest_hit_is_at<N>(answers: Seq<Option<Hit<N>>>, i: int)
    requires
        is_nearest(answers, i),
    ensures
        nearest_hit(answers) == answers[i],
        nearest_hit(answers) is Some,
{
    let chosen = choose|c: int| is_nearest(answers, c);
    nearest_is_unique(answers, i, chosen);
}

/// Finds the place of the nearest valid hit among the answers of the
/// primitives: the first of those that are equally near, none where no answer
/// is valid.
pub fn nearest<N>(answers: &Vec<Option<Hit<N>>>) -> (found: Option<usize>)
    ensures
        match found {
            Some(i) => is_nearest(answers@, i as int),
            None => forall|j: int| 0 <= j < answers@.len() ==> !reachable(#[trigger] answers@[j]),
        },
{
    let mut found: Option<usize> = None;
    let mut bound: Scalar = Scalar::from_bits(0);
    let mut i: usize = 0;
    while i < answers.len()
        invariant
            i <= answers.len(),
            match found {
                Some(k) => is_nearest(answers@.take(i as int), k as int) && bound
                    == answers@[k as int]->0.distance,
                None => forall|j: int| 0 <= j < i ==> !reachable(#[trigger] answers@[j]),
            },
        decreases answers.len() - i,
    {
        let ghost before = answers@.take(i as int);
        let ghost after = answers@.take(i + 1);
        assert(forall|j: int| 0 <= j < i ==> after[j] == before[j]);
        assert(after[i as int] == answers@[i as int]);
        let mut closer: bool = false;
        match &answers[i] {
            Some(hit) => {
                if hit.is_valid() && (found.is_none() || hit.distance.lt(bound)) {
                    closer = true;
                    bound = hit.distance;
                }
            },
            None => {},
        }
        if closer {
            found = Some(i);
            assert(is_nearest(after, i as int));
        } else {
            assert(found matches Some(k) ==> is_nearest(after, k as int));
        }
        i = i + 1;
    }
    assert(answers@.take(i as int) == answers@);
    found
}

/// A scene: the primitives that a ray may hit. Once built it is only read.
pub struct World<P> {
    objects: Vec<P>,
}

impl<P> View for World<P> {
    type V = Seq<P>;

    closed spec fn view(&self) -> Seq<P> {
        self.objects@
    }
}

impl<P> World<P> {
    /// The empty scene.
    pub fn new() -> (world: World<P>)
        ensures
            world@ == Seq::<P>::empty(),
    {
        World { objects: Vec::new() }
    }

    /// Adds a primitive to the scene, after those that are there.
    pub fn push(&mut self, object: P)
        ensures
            final(self)@ == old(self)@.push(object),
    {
        self.objects.push(object);
    }

    /// The number of primitives.
    pub fn len(&self) -> (n: usize)
        ensures
            n == self@.len(),
    {
        self.objects.len()
    }

    /// Asks each primitive in turn where `ray` hits it, and returns the nearest
    /// of their hits that is valid; of several equally near, the first.
    pub fn get_hit<R, N>(&self, ray: &R) -> (best: Option<Hit<N>>) where P: Hittable<R, N>
        ensures
            best == nearest_hit(answers_of(self@, ray)),
            best matches Some(hit) ==> hit.valid(),
            self@.len() == 0 ==> best is None,
    {
        let mut answers: Vec<Option<Hit<N>>> = Vec::new();
        let mut i: usize = 0;
        while i < self.objects.len()
            invariant
                i <= self.objects.len(),
                answers@.len() == i,
                forall|j: int| 0 <= j < i ==> answers@[j] == self.objects@[j].answer(ray),
            decreases self.objects.len() - i,
        {
            let answer = self.objects[i].get_hits(ray);
            answers.push(answer);
            i = i + 1;
        }
        assert(answers@ == answers_of(self@, ray));
        match nearest(&answers) {
            Some(place) => {
                proof {
                    nearest_hit_is_at(answers@, place as int);
                }
                answers.swap_remove(place)
            },
            None => {
                assert(forall|c: int| !is_nearest(answers@, c));
                None
            },
        }
    }
}

} // verus!

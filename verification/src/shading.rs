//! The walk of one ray through the scene, from bounce to bounce.
//!
//! A ray is cast; where it hits a surface it is scattered and cast again, and
//! each such bounce halves what it brings back. It ends when it leaves the
//! scene, and brings back the sky's colour, or when it has reached the depth
//! limit, and brings back black. The caller casts the rays and reports hit or
//! miss; this module keeps the count and says when the walk is over and what
//! it is worth.

use vstd::prelude::*;

verus! {

/// The depth at which a path is cut off.
pub const MAX_DEPTH: u32 = 50;

/// Where the light of a finished path comes from.
#[derive(Clone, Copy, Debug, PartialEq, Eq, Structural)]
pub enum Source {
    /// The path was cut off at the depth limit: no light.
    Black,
    /// The ray left the scene: the sky in the ray's direction.
    Sky,
}

/// What a finished path is worth: the colour of its source, halved `halvings`
/// times.
#[derive(Clone, Copy, Debug, PartialEq, Eq, Structural)]
pub struct Outcome {
    pub source: Source,
    pub halvings: u32,
}

/// What the tracer does next.
#[derive(Clone, Copy, Debug, PartialEq, Eq, Structural)]
pub enum Step {
    /// Cast the ray, and report with `bounce` or `escape`.
    Trace,
    /// The path is over.
    Done(Outcome),
}

/// The colour of a ray that starts at `depth`, by what its casts find: the ray
/// hits a surface as often as `hits` begins with `true`, then nothing. The
/// result is the source and the number of halvings.
pub open spec fn ray_color(depth: nat, hits: Seq<bool>) -> (Source, nat)
    decreases hits.len(),
{
    if depth >= MAX_DEPTH {
        (Source::Black, 0)
    } else if hits.len() == 0 || !hits[0] {
        (Source::Sky, 0)
    } else {
        let rest = ray_color(depth + 1, hits.drop_first());
        (rest.0, rest.1 + 1)
    }
}

/// The state of a path: the depth its ray is at, and the bounces behind it.
#[derive(Clone, Copy, Debug)]
pub struct Path {
    depth: u32,
    bounces: u32,
}

impl Path {
    /// The depth of the ray that is to be cast next.
    pub closed spec fn depth(self) -> u32 {
        self.depth
    }

    /// The number of bounces so far.
    pub closed spec fn bounces(self) -> u32 {
        self.bounces
    }

    /// Every bounce has taken the path one level deeper.
    #[verifier::type_invariant]
    closed spec fn counted(self) -> bool {
        self.bounces <= self.depth
    }

    /// What the path is worth from here on, by what its casts will find.
    pub open spec fn worth(self, hits: Seq<bool>) -> (Source, nat) {
        let rest = ray_color(self.depth() as nat, hits);
        (rest.0, (self.bounces() + rest.1) as nat)
    }

    /// A path whose first ray is at `depth`.
    pub fn begin(depth: u32) -> (path: Path)
        ensures
            path.depth() == depth,
            path.bounces() == 0,
    {
        Path { depth, bounces: 0 }
    }

    /// Whether the path goes on. At the depth limit it is over, and black;
    /// below it the ray is to be cast.
    pub fn next(&self) -> (step: Step)
        ensures
            self.depth() >= MAX_DEPTH ==> step == Step::Done(
                Outcome { source: Source::Black, halvings: self.bounces() },
            ),
            self.depth() < MAX_DEPTH ==> step == Step::Trace,
    {
        if self.depth >= MAX_DEPTH {
            Step::Done(Outcome { source: Source::Black, halvings: self.bounces })
        } else {
            Step::Trace
        }
    }

    /// The ray hit a surface: the path goes one level deeper, with one more
    /// halving.
    pub fn bounce(&mut self)
        requires
            old(self).depth() < MAX_DEPTH,
        ensures
            final(self).depth() == old(self).depth() + 1,
            final(self).bounces() == old(self).bounces() + 1,
    {
        proof {
            use_type_invariant(&*self);
        }
        let deeper = Path { depth: self.depth + 1, bounces: self.bounces + 1 };
        *self = deeper;
    }

    /// The ray hit nothing: the path is over, and brings back the sky.
    pub fn escape(&self) -> (outcome: Outcome)
        requires
            self.depth() < MAX_DEPTH,
        ensures
            outcome == (Outcome { source: Source::Sky, halvings: self.bounces() }),
    {
        Outcome { source: Source::Sky, halvings: self.bounces }
    }
}

/// Follows a path whose casts find what `hits` records, a hit for each `true`
/// and nothing after the record ends, and returns what the path is worth.
pub fn replay(depth: u32, hits: &Vec<bool>) -> (outcome: Outcome)
    ensures
        outcome.source == ray_color(depth as nat, hits@).0,
        outcome.halvings == ray_color(depth as nat, hits@).1,
{
    let mut path = Path::begin(depth);
    let mut i: usize = 0;
    assert(hits@.skip(0) == hits@);
    loop
        invariant
            i <= hits.len(),
            path.worth(hits@.skip(i as int)) == ray_color(depth as nat, hits@),
        decreases hits.len() - i,
    {
        match path.next() {
            Step::Done(outcome) => {
                return outcome;
            },
            Step::Trace => {},
        }
        if i < hits.len() && hits[i] {
            path.bounce();
            proof {
                let rest = hits@.skip(i as int);
                assert(rest[0] == hits@[i as int]);
                assert(rest.drop_first() == hits@.skip(i + 1));
            }
            i = i + 1;
        } else {
            proof {
                let rest = hits@.skip(i as int);
                if i < hits.len() {
                    assert(rest[0] == hits@[i as int]);
                }
            }
            return path.escape();
        }
    }
}

/// At the depth limit, and beyond it, a ray is black whatever the scene holds.
pub proof fn black_at_depth_limit(depth: nat, hits: Seq<bool>)
    requires
        depth >= MAX_DEPTH,
    ensures
        ray_color(depth, hits) == (Source::Black, 0nat),
{
}

/// Below the depth limit, a ray that hits nothing brings back the sky's colour
/// as it is.
pub proof fn sky_where_nothing_is_hit(depth: nat, hits: Seq<bool>)
    requires
        depth < MAX_DEPTH,
        hits.len() == 0 || !hits[0],
    ensures
        ray_color(depth, hits) == (Source::Sky, 0nat),
{
}

/// Each bounce halves what the next ray brings back.
pub proof fn bounce_halves(depth: nat, hits: Seq<bool>)
    requires
        depth < MAX_DEPTH,
        hits.len() > 0,
        hits[0],
    ensures
        ray_color(depth, hits).0 == ray_color(depth + 1, hits.drop_first()).0,
        ray_color(depth, hits).1 == ray_color(depth + 1, hits.drop_first()).1 + 1,
{
}

/// A path is never longer than the depth limit allows: it has at most as many
/// bounces as there are levels between its depth and the limit, and it is black
/// exactly when it has used them all.
pub proof fn bounces_are_bounded(depth: nat, hits: Seq<bool>)
    requires
        depth <= MAX_DEPTH,
    ensures
        ray_color(depth, hits).1 <= MAX_DEPTH - depth,
        ray_color(depth, hits).1 <= hits.len(),
        ray_color(depth, hits).0 == Source::Black <==> ray_color(depth, hits).1 == MAX_DEPTH
            - depth,
    decreases hits.len(),
{
    if depth < MAX_DEPTH && hits.len() > 0 && hits[0] {
        bounces_are_bounded(depth + 1, hits.drop_first());
    }
}

} // verus!

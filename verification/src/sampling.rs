//! Random draws, and the points they stand for.
//!
//! The generator hands out 64-bit words. Their top 53 bits are read as a
//! fraction of the unit interval, in steps of 2^-53, which is as fine as a
//! binary64 number between 0 and 1 can tell apart; so a draw turns into a
//! number without any rounding, and what is decided on the integers here holds
//! of the numbers the caller computes with.

use vstd::prelude::*;

verus! {

#[verifier::external_type_specification]
#[verifier::external_body]
pub struct ExThreadRng(rand::rngs::ThreadRng);

/// Calls `rand::thread_rng`, which hands out a handle to the generator of the
/// current thread. Nothing is claimed of the handle.
#[verifier::external_body]
pub(crate) fn thread_generator() -> rand::rngs::ThreadRng {
    rand::thread_rng()
}

/// Calls `rand::Rng::gen` for a `u64`, which takes the next 64-bit word from
/// the generator. Nothing is claimed of the word.
#[verifier::external_body]
pub(crate) fn next_word(rng: &mut rand::rngs::ThreadRng) -> u64 {
    rand::Rng::gen::<u64>(rng)
}

/// The number of steps in the unit interval: 2^53.
pub const UNIT: u64 = 0x20_0000_0000_0000;

/// Half of `UNIT`: 2^52, the length 1 on the lattice of `LatticePoint`.
pub const ONE: i64 = 0x10_0000_0000_0000;

/// The fraction that a word stands for, as a number of steps: its top 53 bits.
pub open spec fn fraction_of(word: u64) -> u64 {
    word / 2048
}

/// Reads a word as a fraction of the unit interval: a number of steps of
/// 2^-53, from 0 up to but not including `UNIT`.
pub fn fraction(word: u64) -> (steps: u64)
    ensures
        steps == fraction_of(word),
        steps < UNIT,
{
    assert(word >> 11 == word / 2048 && word >> 11 < 0x20_0000_0000_0000u64) by (bit_vector);
    word >> 11
}

/// A point of the cube `[-1, 1)^3`, each coordinate in steps of 2^-52: the
/// coordinate `x` stands for the number `x / ONE`.
#[derive(Clone, Copy, Debug, PartialEq, Eq, Structural)]
pub struct LatticePoint {
    pub x: i64,
    pub y: i64,
    pub z: i64,
}

impl LatticePoint {
    /// Whether the point lies in the cube `[-1, 1)^3`.
    pub open spec fn in_cube(self) -> bool {
        &&& -ONE <= self.x < ONE
        &&& -ONE <= self.y < ONE
        &&& -ONE <= self.z < ONE
    }

    /// The square of the point's distance from the origin, in squared steps.
    pub open spec fn norm_squared(self) -> int {
        self.x * self.x + self.y * self.y + self.z * self.z
    }

    /// Whether the point is at most 1 away from the origin.
    pub open spec fn in_unit_ball(self) -> bool {
        self.norm_squared() <= ONE * ONE
    }

    /// The point that three words stand for: each word's fraction `f`, read as
    /// the coordinate `2 f - 1`.
    pub open spec fn of_words(x: u64, y: u64, z: u64) -> LatticePoint {
        LatticePoint {
            x: (fraction_of(x) - ONE) as i64,
            y: (fraction_of(y) - ONE) as i64,
            z: (fraction_of(z) - ONE) as i64,
        }
    }

    /// Turns three words into a point of the cube.
    pub fn from_words(x: u64, y: u64, z: u64) -> (point: LatticePoint)
        ensures
            point == LatticePoint::of_words(x, y, z),
            point.in_cube(),
    {
        LatticePoint {
            x: fraction(x) as i64 - ONE,
            y: fraction(y) as i64 - ONE,
            z: fraction(z) as i64 - ONE,
        }
    }

    /// Whether the point is at most 1 away from the origin.
    pub fn is_in_unit_ball(&self) -> (inside: bool)
        requires
            self.in_cube(),
        ensures
            inside == self.in_unit_ball(),
    {
        let x: i128 = self.x as i128;
        let y: i128 = self.y as i128;
        let z: i128 = self.z as i128;
        let one: i128 = ONE as i128;
        proof {
            square_is_bounded(x as int, one as int);
            square_is_bounded(y as int, one as int);
            square_is_bounded(z as int, one as int);
            assert(one * one == 0x1_0000_0000_0000_0000_0000_0000_00int) by (nonlinear_arith)
                requires
                    one == 0x10_0000_0000_0000int,
            ;
        }
        x * x + y * y + z * z <= one * one
    }
}

proof fn square_is_bounded(a: int, bound: int)
    requires
        -bound <= a <= bound,
    ensures
        0 <= a * a <= bound * bound,
{
    assert(0 <= a * a <= bound * bound) by (nonlinear_arith)
        requires
            -bound <= a <= bound,
    ;
}

/// The point among those that three words can stand for, if it lies in the
/// unit ball; none if it lies in the corners of the cube.
pub fn accept(x: u64, y: u64, z: u64) -> (point: Option<LatticePoint>)
    ensures
        point == (if LatticePoint::of_words(x, y, z).in_unit_ball() {
            Some(LatticePoint::of_words(x, y, z))
        } else {
            None
        }),
{
    let candidate = LatticePoint::from_words(x, y, z);
    if candidate.is_in_unit_ball() {
        Some(candidate)
    } else {
        None
    }
}

/// Draws a point of the unit ball: points of the cube `[-1, 1)^3` are drawn
/// until one lies in the ball, so that no part of the ball is favoured.
///
/// Each draw is accepted with a chance above one half. Should every one of
/// 2^64 - 1 draws in a row miss the ball, the centre is returned.
pub fn random_in_unit_sphere() -> (point: LatticePoint)
    ensures
        point.in_cube(),
        point.in_unit_ball(),
{
    let mut rng = thread_generator();
    let mut left: u64 = u64::MAX;
    while left > 0
        decreases left,
    {
        let x: u64 = next_word(&mut rng);
        let y: u64 = next_word(&mut rng);
        let z: u64 = next_word(&mut rng);
        match accept(x, y, z) {
            Some(point) => {
                return point;
            },
            None => {},
        }
        left = left - 1;
    }
    LatticePoint { x: 0, y: 0, z: 0 }
}

} // verus!

//! Rigid transform algebra: composition, difference and scaling of 2D rigid
//! motions.
//!
//! A motion is a translation vector together with a rotation angle, and
//! composition adds angles instead of multiplying rotation matrices. That is
//! exact for this piece model because every rotation is a quarter turn about
//! the one shared pivot that is already baked into the blocks' local offsets;
//! shapes that ever need off-pivot rotation would need a distinct general
//! composition operation, not a change to this one.

use vstd::prelude::*;

verus! {

/// Number of simulation ticks over which a queued animation delta is spread.
pub const STEPS: i64 = 20;

/// Angle units in a quarter turn. The unit is chosen so that a quarter turn
/// divides evenly by `STEPS`: one canonical rotation then interpolates in
/// whole angle units.
pub const QUARTER_TURN: i64 = 100;

/// Angle units in a full turn.
pub const FULL_TURN: i64 = 4 * QUARTER_TURN;

/// Generous bound on the world coordinates and angles this model works with.
/// It exists only so that the fixed-width integer arithmetic inside bounding
/// boxes and collision checks is provably free of overflow; every reachable
/// pose of a real board sits many orders of magnitude below it.
pub const COORD_LIMIT: i64 = 0x1000_0000_0000;

/// A 2D rigid motion: an axis-aligned translation `(x, y)` plus a rotation
/// angle `rot` in angle units. The y axis points down, as on screen, and a
/// positive angle rotates from the positive x axis toward the positive
/// y axis. Identity is all zeroes.
#[derive(Clone, Copy, Debug, PartialEq, Eq, Structural)]
pub struct Isometry {
    pub x: i64,
    pub y: i64,
    pub rot: i64,
}

/// Mathematical model of a rigid motion, over unbounded integers.
#[verifier::ext_equal]
pub ghost struct Pose {
    pub x: int,
    pub y: int,
    pub rot: int,
}

impl View for Isometry {
    type V = Pose;

    open spec fn view(&self) -> Pose {
        Pose { x: self.x as int, y: self.y as int, rot: self.rot as int }
    }
}

/// The motion that moves nothing.
pub open spec fn identity_pose() -> Pose {
    Pose { x: 0, y: 0, rot: 0 }
}

/// Motion composition: translations add componentwise and angles add.
pub open spec fn compose_pose(a: Pose, b: Pose) -> Pose {
    Pose { x: a.x + b.x, y: a.y + b.y, rot: a.rot + b.rot }
}

/// Componentwise inverse of composition.
pub open spec fn difference_pose(a: Pose, b: Pose) -> Pose {
    Pose { x: a.x - b.x, y: a.y - b.y, rot: a.rot - b.rot }
}

/// Integer division rounding toward zero, as the executable `/` on `i64`
/// behaves.
pub open spec fn div_trunc(a: int, d: int) -> int {
    if a >= 0 {
        a / d
    } else {
        -((-a) / d)
    }
}

/// Divides every component of a motion by `d`, rounding toward zero. Used to
/// cut a whole animation delta into one per-tick step.
pub open spec fn scale_pose(a: Pose, d: int) -> Pose {
    Pose { x: div_trunc(a.x, d), y: div_trunc(a.y, d), rot: div_trunc(a.rot, d) }
}

/// Whether a mathematical value is representable as an `i64`.
pub open spec fn fits_i64(v: int) -> bool {
    i64::MIN <= v <= i64::MAX
}

/// Whether composing two motions stays within `i64` on every component.
pub open spec fn compose_fits(a: Pose, b: Pose) -> bool {
    &&& fits_i64(a.x + b.x)
    &&& fits_i64(a.y + b.y)
    &&& fits_i64(a.rot + b.rot)
}

/// Whether the componentwise difference of two motions stays within `i64`.
pub open spec fn difference_fits(a: Pose, b: Pose) -> bool {
    &&& fits_i64(a.x - b.x)
    &&& fits_i64(a.y - b.y)
    &&& fits_i64(a.rot - b.rot)
}

/// Whether every component of a motion is within `b` of zero.
pub open spec fn pose_within(p: Pose, b: int) -> bool {
    &&& -b <= p.x <= b
    &&& -b <= p.y <= b
    &&& -b <= p.rot <= b
}

/// Whether every component of a motion is within the model's working range.
pub open spec fn bounded_pose(p: Pose) -> bool {
    pose_within(p, COORD_LIMIT as int)
}

impl Isometry {
    /// The identity motion.
    pub fn identity() -> (r: Isometry)
        ensures
            r@ == identity_pose(),
    {
        Isometry { x: 0, y: 0, rot: 0 }
    }

    /// A motion from explicit components.
    pub fn new(x: i64, y: i64, rot: i64) -> (r: Isometry)
        ensures
            r@ == (Pose { x: x as int, y: y as int, rot: rot as int }),
    {
        Isometry { x, y, rot }
    }
}

/// Composes two motions: vector sum of the translations, sum of the angles.
pub fn add_isometries(lhs: &Isometry, rhs: &Isometry) -> (r: Isometry)
    requires
        compose_fits(lhs@, rhs@),
    ensures
        r@ == compose_pose(lhs@, rhs@),
{
    Isometry { x: lhs.x + rhs.x, y: lhs.y + rhs.y, rot: lhs.rot + rhs.rot }
}

/// Componentwise difference of two motions.
pub fn sub_isometries(lhs: &Isometry, rhs: &Isometry) -> (r: Isometry)
    requires
        difference_fits(lhs@, rhs@),
    ensures
        r@ == difference_pose(lhs@, rhs@),
{
    Isometry { x: lhs.x - rhs.x, y: lhs.y - rhs.y, rot: lhs.rot - rhs.rot }
}

/// Divides every component of a motion by `div`, rounding toward zero.
pub fn div_isometry(iso: &Isometry, div: i64) -> (r: Isometry)
    requires
        div != 0,
        div == -1 ==> iso.x != i64::MIN && iso.y != i64::MIN && iso.rot != i64::MIN,
    ensures
        r@ == scale_pose(iso@, div as int),
{
    proof {
        lemma_div_trunc_fits(iso.x as int, div as int);
        lemma_div_trunc_fits(iso.y as int, div as int);
        lemma_div_trunc_fits(iso.rot as int, div as int);
    }
    Isometry { x: iso.x / div, y: iso.y / div, rot: iso.rot / div }
}

/// The quotient of a division toward zero is no larger in magnitude than the
/// dividend, so it stays representable (except for `i64::MIN / -1`).
pub proof fn lemma_div_trunc_fits(a: int, d: int)
    requires
        fits_i64(a),
        d != 0,
        !(a == i64::MIN && d == -1),
    ensures
        fits_i64(div_trunc(a, d)),
{
    let p: int = if a >= 0 { a } else { -a };
    let e: int = if d >= 1 { d } else { -d };
    vstd::arithmetic::div_mod::lemma_div_pos_is_pos(p, e);
    vstd::arithmetic::div_mod::lemma_div_nonincreasing(p, e);
    if d <= -1 {
        lemma_div_neg_denominator(p, e);
    }
    if a == i64::MIN && e >= 2 {
        vstd::arithmetic::div_mod::lemma_div_is_ordered_by_denominator(p, 2, e);
        assert(p / 2 == 0x4000_0000_0000_0000);
    }
}

/// Euclidean division by a negated positive denominator negates the quotient
/// of a non-negative dividend.
proof fn lemma_div_neg_denominator(p: int, e: int)
    requires
        0 <= p,
        1 <= e,
    ensures
        p / (-e) == -(p / e),
{
    assert(p / (-e) == -(p / e)) by (nonlinear_arith)
        requires
            0 <= p,
            1 <= e,
    ;
}

/// Law: composition of motions is associative.
pub proof fn lemma_compose_associative(a: Pose, b: Pose, c: Pose)
    ensures
        compose_pose(compose_pose(a, b), c) == compose_pose(a, compose_pose(b, c)),
{
    assert(compose_pose(compose_pose(a, b), c) =~= compose_pose(a, compose_pose(b, c)));
}

/// Law: the translation component of composition is commutative.
pub proof fn lemma_compose_translation_commutative(a: Pose, b: Pose)
    ensures
        compose_pose(a, b).x == compose_pose(b, a).x,
        compose_pose(a, b).y == compose_pose(b, a).y,
{
}

/// Law: for a fixed second operand, difference is the exact left inverse of
/// composition.
pub proof fn lemma_difference_inverts_compose(a: Pose, b: Pose)
    ensures
        difference_pose(compose_pose(a, b), b) == a,
{
    assert(difference_pose(compose_pose(a, b), b) =~= a);
}

} // verus!

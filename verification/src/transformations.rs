//! Animation controller: per-block stepwise interpolation of a pose toward a
//! target pose.
//!
//! A controller chases its target over [`STEPS`] ticks. Queuing a further
//! delta while a prior animation is in flight is additive and re-levels the
//! per-tick step over the distance that remains from the current interpolated
//! pose, so rapid inputs never pop visually. The step is the remaining
//! distance divided by `STEPS`, rounded away from zero: a nonzero remaining
//! distance always steps by at least one unit, so no flight can stall. A
//! component snaps to the target once its remaining distance is within the
//! snap band — the classic epsilon (a block size or a quarter turn over
//! `STEPS`) or one step, whichever is larger — so a flight always lands in
//! the band and never overshoots past it. The interpolated pose is purely
//! cosmetic: collision math and game rules read only the logical pose.

use crate::isometry::Isometry;
use crate::isometry::Pose;
use crate::isometry::QUARTER_TURN;
use crate::isometry::STEPS;
use crate::isometry::add_isometries;
use crate::isometry::compose_fits;
use crate::isometry::compose_pose;
use crate::isometry::difference_fits;
use crate::isometry::difference_pose;
use crate::isometry::div_trunc;
use crate::isometry::identity_pose;
use crate::isometry::sub_isometries;
use vstd::math::abs;
use vstd::math::max;
use vstd::prelude::*;

verus! {

/// Classic snap tolerance for the translation component of an animated pose:
/// one block size spread over `STEPS` ticks.
pub open spec fn trans_eps(block_size: int) -> int {
    div_trunc(block_size, STEPS as int)
}

/// Classic snap tolerance for the rotation component of an animated pose:
/// one quarter turn spread over `STEPS` ticks.
pub open spec fn rot_eps() -> int {
    QUARTER_TURN as int / STEPS as int
}

/// Mathematical model of an animation controller.
#[verifier::ext_equal]
pub ghost struct TransModel {
    /// The pose the animation is moving toward.
    pub to: Pose,
    /// The per-tick increment.
    pub step: Pose,
    /// The current interpolated pose.
    pub state: Pose,
    /// The configured block size, the basis of the translation snap band.
    pub block_size: int,
}

/// A controller at rest: everything identity.
pub open spec fn empty_model(block_size: int) -> TransModel {
    TransModel {
        to: identity_pose(),
        step: identity_pose(),
        state: identity_pose(),
        block_size: block_size,
    }
}

/// One component of a per-tick step: the remaining distance divided by
/// `STEPS`, rounded away from zero. A nonzero remaining distance therefore
/// always yields a step of at least one unit, and the step never exceeds the
/// remaining distance itself.
pub open spec fn step_component_model(a: int) -> int {
    let s = STEPS as int;
    if a >= 0 {
        if a % s == 0 {
            a / s
        } else {
            a / s + 1
        }
    } else {
        if (-a) % s == 0 {
            -((-a) / s)
        } else {
            -((-a) / s + 1)
        }
    }
}

/// The per-tick step of a whole remaining motion.
pub open spec fn step_pose_model(d: Pose) -> Pose {
    Pose {
        x: step_component_model(d.x),
        y: step_component_model(d.y),
        rot: step_component_model(d.rot),
    }
}

/// Queuing a delta: the target absorbs the delta and the step is re-leveled
/// over the distance that remains from the current interpolated pose.
pub open spec fn queue_model(m: TransModel, delta: Pose) -> TransModel {
    let to2 = compose_pose(m.to, delta);
    TransModel {
        to: to2,
        step: step_pose_model(difference_pose(to2, m.state)),
        state: m.state,
        block_size: m.block_size,
    }
}

/// The rotation snap band: the classic epsilon or one rotation step,
/// whichever is larger.
pub open spec fn rot_band(m: TransModel) -> int {
    max(rot_eps(), abs(m.step.rot) as int)
}

/// The translation snap band: the classic epsilon or one vertical step,
/// whichever is larger.
pub open spec fn trans_band(m: TransModel) -> int {
    max(trans_eps(m.block_size), abs(m.step.y) as int)
}

/// Whether the interpolated rotation is within snap range of the target.
pub open spec fn rotation_finished(m: TransModel) -> bool {
    abs(m.state.rot - m.to.rot) <= rot_band(m)
}

/// Whether the interpolated vertical translation is within snap range of the
/// target. Only the vertical distance is measured: every canonical move of
/// this piece model is vertical.
pub open spec fn translation_finished(m: TransModel) -> bool {
    abs(m.state.y - m.to.y) <= trans_band(m)
}

/// One simulation tick. A finished component snaps to the target and zeroes
/// its part of the step; while any component is unfinished the whole step is
/// added once. A controller whose step is identity is at rest and ticks are
/// no-ops until the next queued delta.
pub open spec fn tick_model(m: TransModel) -> TransModel {
    if m.step == identity_pose() {
        m
    } else {
        let rf = rotation_finished(m);
        let tf = translation_finished(m);
        let step1 = Pose {
            x: if tf { 0 } else { m.step.x },
            y: if tf { 0 } else { m.step.y },
            rot: if rf { 0 } else { m.step.rot },
        };
        let state1 = Pose {
            x: if tf { m.to.x } else { m.state.x },
            y: if tf { m.to.y } else { m.state.y },
            rot: if rf { m.to.rot } else { m.state.rot },
        };
        let state2 = if !(rf && tf) {
            compose_pose(state1, step1)
        } else {
            state1
        };
        TransModel { to: m.to, step: step1, state: state2, block_size: m.block_size }
    }
}

/// Whether one tick's fixed-width arithmetic stays within `i64`.
pub open spec fn tick_fits(m: TransModel) -> bool {
    &&& -i64::MAX <= m.state.rot - m.to.rot <= i64::MAX
    &&& -i64::MAX <= m.state.y - m.to.y <= i64::MAX
    &&& -i64::MAX <= m.step.rot <= i64::MAX
    &&& -i64::MAX <= m.step.y <= i64::MAX
    &&& compose_fits(m.state, m.step)
}

/// Whether queuing `delta` stays within `i64` on every component.
pub open spec fn queue_fits(m: TransModel, delta: Pose) -> bool {
    &&& compose_fits(m.to, delta)
    &&& difference_fits(compose_pose(m.to, delta), m.state)
}

/// The controller after `n` ticks with no intervening queued delta.
pub open spec fn tick_n(m: TransModel, n: nat) -> TransModel
    decreases n,
{
    if n == 0 {
        m
    } else {
        tick_model(tick_n(m, (n - 1) as nat))
    }
}

/// A controller at rest that has just been queued one block-size downward
/// translation.
pub open spec fn down_queued(block_size: int) -> TransModel {
    queue_model(empty_model(block_size), Pose { x: 0, y: block_size, rot: 0 })
}

/// Law: a controller whose step is identity is at rest; a tick changes
/// nothing until the next queued delta.
pub proof fn lemma_tick_at_rest_noop(m: TransModel)
    requires
        m.step == identity_pose(),
    ensures
        tick_model(m) == m,
{
}

/// The step is zero exactly on a zero remaining distance; a nonzero distance
/// steps toward the target by at least one unit and `STEPS` steps cover it.
pub proof fn lemma_step_component_props(a: int)
    ensures
        (a == 0) <==> (step_component_model(a) == 0),
        a > 0 ==> 1 <= step_component_model(a) && a <= (STEPS as int) * step_component_model(a),
        a < 0 ==> step_component_model(a) <= -1 && (STEPS as int) * step_component_model(a) <= a,
{
    let d = STEPS as int;
    if a > 0 {
        vstd::arithmetic::div_mod::lemma_fundamental_div_mod(a, d);
        vstd::arithmetic::div_mod::lemma_mod_bound(a, d);
        vstd::arithmetic::div_mod::lemma_div_pos_is_pos(a, d);
    } else if a < 0 {
        vstd::arithmetic::div_mod::lemma_fundamental_div_mod(-a, d);
        vstd::arithmetic::div_mod::lemma_mod_bound(-a, d);
        vstd::arithmetic::div_mod::lemma_div_pos_is_pos(-a, d);
    } else {
        vstd::arithmetic::div_mod::lemma_div_of0(d);
        assert(0int % d == 0) by {
            vstd::arithmetic::div_mod::lemma_mod_bound(0, d);
            vstd::arithmetic::div_mod::lemma_fundamental_div_mod(0, d);
        }
    }
}

/// Law: a queue that leaves the step at identity left nothing to do: the
/// interpolated pose already equals the new target.
pub proof fn lemma_at_rest_is_at_target(m: TransModel, delta: Pose)
    requires
        queue_model(m, delta).step == identity_pose(),
    ensures
        queue_model(m, delta).state == queue_model(m, delta).to,
{
    let q = queue_model(m, delta);
    lemma_step_component_props(q.to.x - q.state.x);
    lemma_step_component_props(q.to.y - q.state.y);
    lemma_step_component_props(q.to.rot - q.state.rot);
    assert(q.state =~= q.to);
}

/// One component of a flight: either already snapped to the target, or still
/// stepping with the queue-time step, `k` steps from where the queue found
/// it, with the previous tick's snap test known to have failed.
spec fn comp_snapped(t: int, state: int, step: int) -> bool {
    &&& state == t
    &&& step == 0
}

spec fn comp_in_flight(c0: int, t: int, s: int, band: int, state: int, step: int, k: int) -> bool {
    &&& state == c0 + k * s
    &&& step == s
    &&& (k == 0 || abs(t - c0) as int > (k - 1) * (abs(s) as int) + band)
}

/// The shape a controller has `k` ticks after a queue: each component is
/// snapped or still in flight.
spec fn flight_ok(q0: TransModel, m: TransModel, k: int) -> bool {
    let bandr = max(rot_eps(), abs(q0.step.rot) as int);
    let bandy = max(trans_eps(q0.block_size), abs(q0.step.y) as int);
    &&& m.to == q0.to
    &&& m.block_size == q0.block_size
    &&& (comp_snapped(q0.to.rot, m.state.rot, m.step.rot) || comp_in_flight(
        q0.state.rot,
        q0.to.rot,
        q0.step.rot,
        bandr,
        m.state.rot,
        m.step.rot,
        k,
    ))
    &&& ((comp_snapped(q0.to.x, m.state.x, m.step.x) && comp_snapped(
        q0.to.y,
        m.state.y,
        m.step.y,
    )) || (m.state.x == q0.state.x + k * q0.step.x && m.step.x == q0.step.x && comp_in_flight(
        q0.state.y,
        q0.to.y,
        q0.step.y,
        bandy,
        m.state.y,
        m.step.y,
        k,
    )))
}

/// While a component steps with the same sign as its remaining distance and
/// has not walked past it, the distance left is the original distance less
/// the steps taken.
proof fn lemma_remaining_magnitude(r: int, s: int, j: int)
    requires
        r == 0 ==> s == 0,
        r > 0 ==> s >= 1,
        r < 0 ==> s <= -1,
        0 <= j,
        j * (abs(s) as int) <= abs(r) as int,
    ensures
        abs(r - j * s) as int == abs(r) as int - j * (abs(s) as int),
{
    if r >= 0 {
        assert(0 <= r - j * s && j * s == j * (abs(s) as int)) by (nonlinear_arith)
            requires
                r >= 0,
                s >= 0,
                0 <= j,
                j * (abs(s) as int) <= abs(r) as int,
                abs(s) == s,
                abs(r) == r,
        ;
    } else {
        assert(r - j * s <= 0 && -(j * s) == j * (abs(s) as int)) by (nonlinear_arith)
            requires
                r < 0,
                s <= -1,
                0 <= j,
                j * (abs(s) as int) <= abs(r) as int,
                abs(s) as int == -s,
                abs(r) as int == -r,
        ;
    }
}

/// After each of the first `k` ticks that follow a queue, every component of
/// the controller is snapped or in flight.
proof fn lemma_flight(q0: TransModel, k: int)
    requires
        q0.step == step_pose_model(difference_pose(q0.to, q0.state)),
        0 <= k,
    ensures
        flight_ok(q0, tick_n(q0, k as nat), k),
    decreases k,
{
    let sr = q0.step.rot;
    let sx = q0.step.x;
    let sy = q0.step.y;
    let rr = q0.to.rot - q0.state.rot;
    let rx = q0.to.x - q0.state.x;
    let ry = q0.to.y - q0.state.y;
    let bandr = max(rot_eps(), abs(sr) as int);
    let bandy = max(trans_eps(q0.block_size), abs(sy) as int);
    lemma_step_component_props(rr);
    lemma_step_component_props(rx);
    lemma_step_component_props(ry);
    if k == 0 {
        assert(q0.state.rot == q0.state.rot + 0 * sr) by (nonlinear_arith);
        assert(q0.state.x == q0.state.x + 0 * sx) by (nonlinear_arith);
        assert(q0.state.y == q0.state.y + 0 * sy) by (nonlinear_arith);
        assert(comp_in_flight(q0.state.rot, q0.to.rot, sr, bandr, q0.state.rot, q0.step.rot, 0));
        assert(comp_in_flight(q0.state.y, q0.to.y, sy, bandy, q0.state.y, q0.step.y, 0));
        assert(flight_ok(q0, q0, 0));
    } else {
        lemma_flight(q0, k - 1);
        let prev = tick_n(q0, (k - 1) as nat);
        assert(tick_n(q0, k as nat) == tick_model(prev));
        if prev.step == identity_pose() {
            // Every component's step is zero. A component in flight with a
            // zero step had a zero remaining distance, so it already sits on
            // the target: both components are snapped, and the tick keeps
            // them so.
            if !comp_snapped(q0.to.rot, prev.state.rot, prev.step.rot) {
                assert(sr == 0 && rr == 0);
                assert(prev.state.rot == q0.state.rot + (k - 1) * 0);
            }
            if !(comp_snapped(q0.to.x, prev.state.x, prev.step.x) && comp_snapped(
                q0.to.y,
                prev.state.y,
                prev.step.y,
            )) {
                assert(sx == 0 && sy == 0 && rx == 0 && ry == 0);
                assert(prev.state.x == q0.state.x + (k - 1) * 0);
                assert(prev.state.y == q0.state.y + (k - 1) * 0);
            }
            assert(flight_ok(q0, tick_model(prev), k));
        } else {
            let rf = rotation_finished(prev);
            let tf = translation_finished(prev);
            // Rotation component.
            if comp_snapped(q0.to.rot, prev.state.rot, prev.step.rot) {
                assert(rf);
                assert(comp_snapped(q0.to.rot, tick_model(prev).state.rot, tick_model(prev).step.rot));
            } else {
                assert(prev.state.rot == q0.state.rot + (k - 1) * sr);
                assert((k - 1) * (abs(sr) as int) <= abs(rr) as int) by {
                    if k - 1 > 0 {
                        assert(abs(rr) as int > (k - 2) * (abs(sr) as int) + bandr);
                        assert((k - 2) * (abs(sr) as int) + (abs(sr) as int) == (k - 1) * (
                        abs(sr) as int)) by (nonlinear_arith);
                    } else {
                        assert((k - 1) * (abs(sr) as int) == 0) by (nonlinear_arith)
                            requires
                                k == 1,
                        ;
                    }
                }
                lemma_remaining_magnitude(rr, sr, k - 1);
                assert(prev.to.rot - prev.state.rot == rr - (k - 1) * sr);
                if rf {
                    assert(comp_snapped(
                        q0.to.rot,
                        tick_model(prev).state.rot,
                        tick_model(prev).step.rot,
                    ));
                } else {
                    assert((k - 1) * sr + sr == k * sr) by (nonlinear_arith);
                    assert(comp_in_flight(
                        q0.state.rot,
                        q0.to.rot,
                        sr,
                        bandr,
                        tick_model(prev).state.rot,
                        tick_model(prev).step.rot,
                        k,
                    ));
                }
            }
            // Translation pair, driven by the vertical distance.
            if comp_snapped(q0.to.x, prev.state.x, prev.step.x) && comp_snapped(
                q0.to.y,
                prev.state.y,
                prev.step.y,
            ) {
                assert(tf);
            } else {
                assert(prev.state.y == q0.state.y + (k - 1) * sy);
                assert((k - 1) * (abs(sy) as int) <= abs(ry) as int) by {
                    if k - 1 > 0 {
                        assert(abs(ry) as int > (k - 2) * (abs(sy) as int) + bandy);
                        assert((k - 2) * (abs(sy) as int) + (abs(sy) as int) == (k - 1) * (
                        abs(sy) as int)) by (nonlinear_arith);
                    } else {
                        assert((k - 1) * (abs(sy) as int) == 0) by (nonlinear_arith)
                            requires
                                k == 1,
                        ;
                    }
                }
                lemma_remaining_magnitude(ry, sy, k - 1);
                assert(prev.to.y - prev.state.y == ry - (k - 1) * sy);
                if !tf {
                    assert((k - 1) * sx + sx == k * sx) by (nonlinear_arith);
                    assert((k - 1) * sy + sy == k * sy) by (nonlinear_arith);
                }
            }
            assert(flight_ok(q0, tick_model(prev), k));
        }
    }
}

/// Law: any queued delta is fully animated out within `STEPS` ticks. From
/// the moment of the queue, with no further delta queued, the interpolated
/// pose equals the target exactly after `STEPS` ticks and the controller is
/// at rest — whatever the block size and whatever distance remained.
pub proof fn lemma_queue_converges(m: TransModel, delta: Pose)
    ensures
        tick_n(queue_model(m, delta), STEPS as nat).state == queue_model(m, delta).to,
        tick_n(queue_model(m, delta), STEPS as nat).step == identity_pose(),
{
    let q0 = queue_model(m, delta);
    let sr = q0.step.rot;
    let sy = q0.step.y;
    let rr = q0.to.rot - q0.state.rot;
    let ry = q0.to.y - q0.state.y;
    let bandr = max(rot_eps(), abs(sr) as int);
    let bandy = max(trans_eps(q0.block_size), abs(sy) as int);
    lemma_step_component_props(rr);
    lemma_step_component_props(ry);
    lemma_flight(q0, STEPS as int);
    let end = tick_n(q0, STEPS as nat);
    // A component still in flight after STEPS ticks would have kept more
    // than STEPS steps' worth of distance, which the step's rounding rules
    // out.
    if !comp_snapped(q0.to.rot, end.state.rot, end.step.rot) {
        assert(abs(rr) as int > (STEPS - 1) * (abs(sr) as int) + bandr);
        assert((STEPS - 1) * (abs(sr) as int) + (abs(sr) as int) == 20 * (abs(sr) as int));
        assert(abs(rr) as int <= 20 * (abs(sr) as int));
        assert(false);
    }
    if !(comp_snapped(q0.to.x, end.state.x, end.step.x) && comp_snapped(
        q0.to.y,
        end.state.y,
        end.step.y,
    )) {
        assert(abs(ry) as int > (STEPS - 1) * (abs(sy) as int) + bandy);
        assert((STEPS - 1) * (abs(sy) as int) + (abs(sy) as int) == 20 * (abs(sy) as int));
        assert(abs(ry) as int <= 20 * (abs(sy) as int));
        assert(false);
    }
    assert(end.state =~= q0.to);
    assert(end.step =~= identity_pose());
}

/// The controller mid-flight, `k` ticks into a one-block downward delta.
spec fn down_flight(block_size: int, k: int) -> TransModel {
    let s = block_size / (STEPS as int);
    TransModel {
        to: Pose { x: 0, y: block_size, rot: 0 },
        step: Pose { x: 0, y: s, rot: 0 },
        state: Pose { x: 0, y: k * s, rot: 0 },
        block_size: block_size,
    }
}

/// During the first `STEPS - 1` ticks of a one-block downward delta the
/// controller advances by exactly one step per tick.
proof fn lemma_down_flight(block_size: int, k: int)
    requires
        block_size > 0,
        block_size % (STEPS as int) == 0,
        0 <= k <= STEPS - 1,
    ensures
        tick_n(down_queued(block_size), k as nat) == down_flight(block_size, k),
    decreases k,
{
    let s = block_size / (STEPS as int);
    vstd::arithmetic::div_mod::lemma_fundamental_div_mod(block_size, STEPS as int);
    assert(block_size == 20 * s);
    assert(s >= 1) by (nonlinear_arith)
        requires
            block_size == 20 * s,
            block_size > 0,
    ;
    if k == 0 {
        lemma_step_component_props(block_size);
        lemma_step_component_props(0);
        assert(step_component_model(block_size) == s);
        assert(down_queued(block_size) =~= down_flight(block_size, 0));
    } else {
        lemma_down_flight(block_size, k - 1);
        let m = down_flight(block_size, k - 1);
        assert(m.step.y == s && s != 0);
        assert(m.step != identity_pose());
        assert(rotation_finished(m));
        assert(trans_band(m) == s);
        let d = (k - 1) * s - block_size;
        assert(d < 0 && -d > s) by (nonlinear_arith)
            requires
                d == (k - 1) * s - block_size,
                block_size == 20 * s,
                s >= 1,
                1 <= k <= 19,
        ;
        assert(!translation_finished(m));
        assert((k - 1) * s + s == k * s) by (nonlinear_arith);
        assert(tick_model(m) =~= down_flight(block_size, k));
        assert(tick_n(down_queued(block_size), k as nat) == tick_model(
            tick_n(down_queued(block_size), (k - 1) as nat),
        ));
    }
}

/// Law: starting at rest and queuing a delta of one block-size downward
/// translation, the interpolated pose reaches the target exactly at tick
/// `STEPS` (where it snaps and the controller comes to rest), and has not
/// yet reached it one tick earlier. The exact tick count holds for block
/// sizes that are positive multiples of `STEPS`; with any other block size
/// the flight still converges within `STEPS` ticks (see
/// [`lemma_queue_converges`]) but the minimum whole-unit step can finish it
/// earlier.
pub proof fn lemma_animation_convergence(block_size: int)
    requires
        block_size > 0,
        block_size % (STEPS as int) == 0,
    ensures
        tick_n(down_queued(block_size), STEPS as nat).state == down_queued(block_size).to,
        tick_n(down_queued(block_size), STEPS as nat).step == identity_pose(),
        tick_n(down_queued(block_size), (STEPS - 1) as nat).state != down_queued(block_size).to,
{
    let s = block_size / (STEPS as int);
    vstd::arithmetic::div_mod::lemma_fundamental_div_mod(block_size, STEPS as int);
    assert(block_size == 20 * s);
    assert(s >= 1) by (nonlinear_arith)
        requires
            block_size == 20 * s,
            block_size > 0,
    ;
    lemma_down_flight(block_size, STEPS - 1);
    let m = down_flight(block_size, STEPS - 1);
    assert(m.step != identity_pose());
    assert(rotation_finished(m));
    assert(trans_band(m) == s);
    assert(19 * s == block_size - s) by (nonlinear_arith)
        requires
            block_size == 20 * s,
    ;
    assert(translation_finished(m));
    assert(tick_n(down_queued(block_size), STEPS as nat) == tick_model(
        tick_n(down_queued(block_size), (STEPS - 1) as nat),
    ));
    assert(tick_model(m).state =~= down_queued(block_size).to);
    assert(tick_model(m).step =~= identity_pose());
    assert(m.state.y == block_size - s && s >= 1);
}

/// Interpolation state of one animated pose: the target it chases, the
/// per-tick step, and the current interpolated pose.
#[derive(Clone, Copy, Debug)]
pub struct Transformation {
    to: Isometry,
    step: Isometry,
    state: Isometry,
    block_size: i64,
}

impl View for Transformation {
    type V = TransModel;

    closed spec fn view(&self) -> TransModel {
        TransModel {
            to: self.to@,
            step: self.step@,
            state: self.state@,
            block_size: self.block_size as int,
        }
    }
}

/// Magnitude of an `i64`, within the representable range.
fn abs_i64(v: i64) -> (r: i64)
    requires
        v != i64::MIN,
    ensures
        r == abs(v as int),
{
    if v < 0 {
        -v
    } else {
        v
    }
}

/// One component of a per-tick step: the remaining distance over `STEPS`,
/// rounded away from zero.
fn step_component(a: i64) -> (r: i64)
    ensures
        r == step_component_model(a as int),
{
    proof {
        vstd::arithmetic::div_mod::lemma_mod_bound(a as int, STEPS as int);
        vstd::arithmetic::div_mod::lemma_mod_bound(-(a as int), STEPS as int);
        if a >= 0 {
            vstd::arithmetic::div_mod::lemma_div_is_ordered(a as int, i64::MAX as int, STEPS as int);
            assert((i64::MAX as int) / (STEPS as int) == 461168601842738790);
        } else {
            vstd::arithmetic::div_mod::lemma_div_is_ordered(
                -(a as int),
                0x8000_0000_0000_0000,
                STEPS as int,
            );
            assert(0x8000_0000_0000_0000int / (STEPS as int) == 461168601842738790);
        }
    }
    let q = a / STEPS;
    let rem = a % STEPS;
    if rem == 0 {
        q
    } else if a >= 0 {
        q + 1
    } else {
        q - 1
    }
}

/// The per-tick step of a whole remaining motion.
fn step_isometry(d: &Isometry) -> (r: Isometry)
    ensures
        r@ == step_pose_model(d@),
{
    Isometry { x: step_component(d.x), y: step_component(d.y), rot: step_component(d.rot) }
}

impl Transformation {
    /// A controller at rest.
    pub fn empty(block_size: i64) -> (r: Transformation)
        ensures
            r@ == empty_model(block_size as int),
    {
        Transformation {
            to: Isometry::identity(),
            step: Isometry::identity(),
            state: Isometry::identity(),
            block_size,
        }
    }

    /// A controller that starts at rest and chases `to`.
    pub fn new(to: Isometry, block_size: i64) -> (r: Transformation)
        ensures
            r@ == queue_model(empty_model(block_size as int), to@),
    {
        Transformation {
            to,
            step: step_isometry(&to),
            state: Isometry::identity(),
            block_size,
        }
    }

    /// A controller chasing a move of `dy` upward (negative y).
    pub fn move_up(dy: i64, block_size: i64) -> (r: Transformation)
        requires
            dy != i64::MIN,
        ensures
            r@ == queue_model(
                empty_model(block_size as int),
                Pose { x: 0, y: -(dy as int), rot: 0 },
            ),
    {
        Transformation::new(Isometry::new(0, -dy, 0), block_size)
    }

    /// A controller chasing a move of `dy` downward (positive y).
    pub fn move_down(dy: i64, block_size: i64) -> (r: Transformation)
        ensures
            r@ == queue_model(
                empty_model(block_size as int),
                Pose { x: 0, y: dy as int, rot: 0 },
            ),
    {
        Transformation::new(Isometry::new(0, dy, 0), block_size)
    }

    /// A controller chasing a rotation of `d` angle units leftward
    /// (counterclockwise, negative angle).
    pub fn rot_left(d: i64, block_size: i64) -> (r: Transformation)
        requires
            d != i64::MIN,
        ensures
            r@ == queue_model(
                empty_model(block_size as int),
                Pose { x: 0, y: 0, rot: -(d as int) },
            ),
    {
        Transformation::new(Isometry::new(0, 0, -d), block_size)
    }

    /// A controller chasing a rotation of `d` angle units rightward
    /// (clockwise, positive angle).
    pub fn rot_right(d: i64, block_size: i64) -> (r: Transformation)
        ensures
            r@ == queue_model(
                empty_model(block_size as int),
                Pose { x: 0, y: 0, rot: d as int },
            ),
    {
        Transformation::new(Isometry::new(0, 0, d), block_size)
    }

    /// Horizontal component of the current interpolated pose.
    pub fn x(&self) -> (r: i64)
        ensures
            r == self@.state.x,
    {
        self.state.x
    }

    /// Vertical component of the current interpolated pose.
    pub fn y(&self) -> (r: i64)
        ensures
            r == self@.state.y,
    {
        self.state.y
    }

    /// Rotation component of the current interpolated pose, in angle units.
    pub fn rot(&self) -> (r: i64)
        ensures
            r == self@.state.rot,
    {
        self.state.rot
    }

    /// The pose the animation is moving toward.
    pub fn target_pose(&self) -> (r: Isometry)
        ensures
            r@ == self@.to,
    {
        self.to
    }

    /// The per-tick step increment.
    pub fn step_pose(&self) -> (r: Isometry)
        ensures
            r@ == self@.step,
    {
        self.step
    }

    /// The current interpolated pose, for rendering.
    pub fn current_pose(&self) -> (r: Isometry)
        ensures
            r@ == self@.state,
    {
        self.state
    }

    /// Queues a further delta: the target absorbs it and the step re-levels
    /// over the remaining distance from the current interpolated pose.
    pub fn queue_delta(&mut self, delta: &Isometry)
        requires
            queue_fits(old(self)@, delta@),
        ensures
            final(self)@ == queue_model(old(self)@, delta@),
    {
        self.to = add_isometries(&self.to, delta);
        let remaining = sub_isometries(&self.to, &self.state);
        self.step = step_isometry(&remaining);
    }

    /// One simulation tick: advances the interpolated pose by the step, and
    /// snaps each component that is within its snap band of the target.
    pub fn update(&mut self)
        requires
            tick_fits(old(self)@),
        ensures
            final(self)@ == tick_model(old(self)@),
    {
        let identity = Isometry::identity();
        if !(self.step == identity) {
            let rot_diff = abs_i64(self.state.rot - self.to.rot);
            let rot_eps_now = QUARTER_TURN / STEPS;
            let rot_step_mag = abs_i64(self.step.rot);
            let rot_band_now = if rot_eps_now >= rot_step_mag {
                rot_eps_now
            } else {
                rot_step_mag
            };
            let rotation_is_finished = rot_diff <= rot_band_now;
            let trans_diff = abs_i64(self.state.y - self.to.y);
            let trans_eps_now = self.block_size / STEPS;
            let trans_step_mag = abs_i64(self.step.y);
            let trans_band_now = if trans_eps_now >= trans_step_mag {
                trans_eps_now
            } else {
                trans_step_mag
            };
            let translation_is_finished = trans_diff <= trans_band_now;
            if rotation_is_finished {
                self.step.rot = 0;
                self.state.rot = self.to.rot;
            }
            if translation_is_finished {
                self.step.x = 0;
                self.step.y = 0;
                self.state.x = self.to.x;
                self.state.y = self.to.y;
            }
            if !(rotation_is_finished && translation_is_finished) {
                self.state = add_isometries(&self.state, &self.step);
            }
        }
    }
}

} // verus!

//! The stated laws of the simulation core, each proved against the
//! specification functions the executable code is verified to equal.

use vstd::prelude::*;
use vstd::arithmetic::power::{pow, lemma_pow0};
use crate::rational::{Rat, rat_eq, spec_le, spec_mul, lemma_norm_is_ratio, lemma_norm_wf,
    lemma_rat_eq_trans};
use crate::vec3::{Axis, Vec3r};
use crate::sim::{Ball, Wall, Goal, Paddle, CombineRule, spec_wall_contact, spec_wall_response,
    spec_combine, spec_goal_beyond, spec_goal_update, spec_paddle_tick, lemma_paddle_tick_wf,
    lemma_paddle_tick_confined};
use crate::input::{spec_y_intent, spec_x_intent, AxisIntent, ControlMode, TeamKeys};

verus! {

/// Whether the rational `w` holds exactly the value `-(e * v)`.
pub open spec fn is_neg_scaled(w: Rat, e: Rat, v: Rat) -> bool {
    w.num * (e.den * v.den) == -(e.num * v.num) * w.den
}

/// Reflection law: at a wall contact, the outgoing velocity component
/// along the wall normal is exactly `-e * v` for the incoming component
/// `v` and the combined restitution `e`, whatever `e`'s value, and the
/// tangential components are unchanged — so a purely normal incoming
/// velocity leaves purely normal, scaled by `-e`. The position is not
/// touched by the response.
pub proof fn lemma_reflection_law(ball: Ball, wall: Wall, b2: Ball)
    requires
        ball.wf(),
        wall.wf(),
        spec_wall_contact(ball, wall),
        spec_wall_response(ball, wall) == Some(b2),
    ensures
        spec_combine(ball.combine, ball.restitution, wall.restitution) matches Some(e)
            ==> is_neg_scaled(
            b2.velocity.spec_comp(wall.normal.axis),
            e,
            ball.velocity.spec_comp(wall.normal.axis),
        ),
        forall|a: Axis|
            a != wall.normal.axis ==> b2.velocity.spec_comp(a) == ball.velocity.spec_comp(a),
        b2.position == ball.position,
{
    let a = wall.normal.axis;
    let vn = ball.velocity.spec_comp(a);
    if spec_combine(ball.combine, ball.restitution, wall.restitution) is Some {
        let e = spec_combine(ball.combine, ball.restitution, wall.restitution)->Some_0;
        lemma_combine_wf(ball.combine, ball.restitution, wall.restitution);
        let p = spec_mul(e, vn)->Some_0;
        assert(e.den * vn.den > 0) by (nonlinear_arith)
            requires
                e.den > 0,
                vn.den > 0,
        ;
        lemma_norm_is_ratio(e.num * vn.num, e.den * vn.den);
        lemma_norm_wf(e.num * vn.num, e.den * vn.den);
        assert(p.is_ratio(e.num * vn.num, e.den * vn.den));
        assert(b2.velocity.spec_comp(a) == p.spec_neg());
        let wn = b2.velocity.spec_comp(a);
        assert(wn.num == -p.num && wn.den == p.den);
        assert(wn.num * (e.den * vn.den) == -(e.num * vn.num) * wn.den) by (nonlinear_arith)
            requires
                p.num * (e.den * vn.den) == (e.num * vn.num) * p.den,
                wn.num == -p.num,
                wn.den == p.den,
        ;
    }
}

/// A combined restitution, where it is representable at all, is a well
/// formed rational.
pub proof fn lemma_combine_wf(rule: CombineRule, a: Rat, b: Rat)
    requires
        a.wf(),
        b.wf(),
    ensures
        spec_combine(rule, a, b) matches Some(e) ==> e.wf(),
{
    assert(a.den * b.den > 0) by (nonlinear_arith)
        requires
            a.den > 0,
            b.den > 0,
    ;
    match rule {
        CombineRule::Max => {
        },
        CombineRule::Min => {
        },
        CombineRule::Average => {
            lemma_norm_wf(crate::rational::sum_num(a, b), 2 * (a.den * b.den));
        },
        CombineRule::Multiply => {
            lemma_norm_wf(a.num * b.num, a.den * b.den);
        },
    }
}

/// One bounce under the `Max` combine rule against a wall no livelier than
/// the ball multiplies the normal velocity component by exactly the ball's
/// own restitution (and flips its sign): the ingredient of the energy
/// growth law.
pub proof fn lemma_max_bounce_scales(ball: Ball, wall: Wall, b2: Ball)
    requires
        ball.wf(),
        wall.wf(),
        ball.combine == CombineRule::Max,
        spec_le(wall.restitution, ball.restitution),
        spec_wall_contact(ball, wall),
        spec_wall_response(ball, wall) == Some(b2),
    ensures
        is_neg_scaled(
            b2.velocity.spec_comp(wall.normal.axis),
            ball.restitution,
            ball.velocity.spec_comp(wall.normal.axis),
        ),
{
    let a = wall.normal.axis;
    let vn = ball.velocity.spec_comp(a);
    let wn = b2.velocity.spec_comp(a);
    let eb = ball.restitution;
    let ew = wall.restitution;
    lemma_reflection_law(ball, wall, b2);
    if spec_le(eb, ew) {
        // Both coefficients hold the same value; the picked wall
        // coefficient scales exactly as the ball's own does.
        assert(is_neg_scaled(wn, ew, vn));
        assert(is_neg_scaled(wn, eb, vn)) by (nonlinear_arith)
            requires
                wn.num * (ew.den * vn.den) == -(ew.num * vn.num) * wn.den,
                eb.num * ew.den == ew.num * eb.den,
                ew.den > 0,
                eb.den > 0,
                vn.den > 0,
        ;
    } else {
        assert(is_neg_scaled(wn, eb, vn));
    }
}

/// The exact speed after `k` bounces, each scaling the speed by the same
/// factor, as an unreduced pair of integers: numerator and denominator.
pub open spec fn scaled_speed(s: (int, int), e: (int, int), k: nat) -> (int, int)
    decreases k,
{
    if k == 0 {
        s
    } else {
        let p = scaled_speed(s, e, (k - 1) as nat);
        (p.0 * e.0, p.1 * e.1)
    }
}

/// Energy growth law: scaling a speed `k` times by the factor `e` gives
/// exactly `s * e^k` — with a ball restitution above one and the `Max`
/// rule against rigid walls (where each bounce scales the speed by the
/// ball's restitution, see [`lemma_max_bounce_scales`]), the speed after
/// `k` consecutive wall bounces is exactly the initial speed times the
/// restitution to the `k`-th power, growing without bound.
pub proof fn lemma_energy_growth(s: (int, int), e: (int, int), k: nat)
    ensures
        scaled_speed(s, e, k).0 == s.0 * pow(e.0, k),
        scaled_speed(s, e, k).1 == s.1 * pow(e.1, k),
    decreases k,
{
    reveal(pow);
    if k == 0 {
        lemma_pow0(e.0);
        lemma_pow0(e.1);
    } else {
        let km1 = (k - 1) as nat;
        lemma_energy_growth(s, e, km1);
        let p = scaled_speed(s, e, km1);
        assert(pow(e.0, k) == e.0 * pow(e.0, km1));
        assert(pow(e.1, k) == e.1 * pow(e.1, km1));
        assert(p.0 * e.0 == s.0 * pow(e.0, k)) by (nonlinear_arith)
            requires
                p.0 == s.0 * pow(e.0, km1),
                pow(e.0, k) == e.0 * pow(e.0, km1),
        ;
        assert(p.1 * e.1 == s.1 * pow(e.1, k)) by (nonlinear_arith)
            requires
                p.1 == s.1 * pow(e.1, km1),
                pow(e.1, k) == e.1 * pow(e.1, km1),
        ;
    }
}

/// One goal test drives the latch and the event exactly: the latch takes
/// the plane test's value, and the event fires precisely on a rising edge
/// of it; nothing else of the goal changes.
pub proof fn lemma_goal_latch_follows(g: Goal, pos: Vec3r)
    ensures
        spec_goal_update(g, pos).0.ball_beyond == spec_goal_beyond(pos, g),
        spec_goal_update(g, pos).1 <==> (spec_goal_beyond(pos, g) && !g.ball_beyond),
        spec_goal_update(g, pos).0.team == g.team,
        spec_goal_update(g, pos).0.plane_position == g.plane_position,
        spec_goal_update(g, pos).0.plane_normal == g.plane_normal,
{
}

/// Whether the edge-triggered latch fires at tick `k` of the sampled
/// plane-test sequence `beyond`, starting from a cleared latch.
pub open spec fn edge_event_at(beyond: Seq<bool>, k: int) -> bool
    recommends
        0 <= k < beyond.len(),
{
    beyond[k] && !(if k == 0 {
        false
    } else {
        beyond[k - 1]
    })
}

/// Edge-trigger idempotence: one continuous crossing emits exactly one
/// scoring event. If the ball is inside the play field up to tick `m` and
/// beyond the goal plane from tick `m` on, the event fires at tick `m`
/// and at no other tick, however long the ball stays beyond the plane.
pub proof fn lemma_edge_trigger_once(beyond: Seq<bool>, m: int)
    requires
        0 <= m < beyond.len(),
        forall|k: int| 0 <= k < m ==> !beyond[k],
        forall|k: int| m <= k < beyond.len() ==> beyond[k],
    ensures
        forall|k: int| 0 <= k < beyond.len() ==> (edge_event_at(beyond, k) <==> k == m),
{
    assert forall|k: int| 0 <= k < beyond.len() implies (edge_event_at(beyond, k) <==> k == m) by {
        if k < m {
            assert(!beyond[k]);
        } else if k == m {
            assert(beyond[k]);
        } else {
            assert(beyond[k - 1]);
        }
    }
}

/// A paddle driven over a whole input sequence, one tick per entry.
pub open spec fn spec_paddle_run(
    mode: ControlMode,
    speed: Rat,
    dt: Rat,
    inputs: Seq<TeamKeys>,
    p: Paddle,
) -> Option<Paddle>
    decreases inputs.len(),
{
    if inputs.len() == 0 {
        Some(p)
    } else {
        match spec_paddle_tick(mode, speed, dt, inputs[0], p) {
            None => None,
            Some(q) => spec_paddle_run(mode, speed, dt, inputs.drop_first(), q),
        }
    }
}

/// Paddle confinement law: over any input sequence — alternating direction
/// every tick or otherwise — the controller never commands motion on an
/// axis the paddle may not move along. The Z position keeps its exact
/// value through the whole run, the last commanded motion has an exactly
/// zero Z component, and the paddle's identity and extent never change.
pub proof fn lemma_paddle_run_confined(
    mode: ControlMode,
    speed: Rat,
    dt: Rat,
    inputs: Seq<TeamKeys>,
    p: Paddle,
    q: Paddle,
)
    requires
        speed.wf(),
        dt.wf(),
        p.wf(),
        spec_paddle_run(mode, speed, dt, inputs, p) == Some(q),
    ensures
        q.wf(),
        rat_eq(q.position.z, p.position.z),
        q.team == p.team,
        q.extent == p.extent,
        q.restitution == p.restitution,
        inputs.len() > 0 ==> q.control_velocity.z == (Rat { num: 0, den: 1 }),
        inputs.len() == 0 ==> q == p,
    decreases inputs.len(),
{
    if inputs.len() > 0 {
        let q1 = spec_paddle_tick(mode, speed, dt, inputs[0], p)->Some_0;
        lemma_paddle_tick_wf(mode, speed, dt, inputs[0], p, q1);
        lemma_paddle_tick_confined(mode, speed, dt, inputs[0], p, q1);
        lemma_paddle_run_confined(mode, speed, dt, inputs.drop_first(), q1, q);
        lemma_rat_eq_trans(q.position.z, q1.position.z, p.position.z);
    }
}

/// Input tie-break law: holding both keys of an axis yields the first
/// checked branch's outcome — up wins over down, left wins over right —
/// on every tick, since the mapper is a pure function of the key state.
pub proof fn lemma_input_tie_break(down: bool, right: bool)
    ensures
        spec_y_intent(true, down) == AxisIntent::Positive,
        spec_x_intent(true, right) == AxisIntent::Negative,
{
}

} // verus!

//! The simulation core: entities, per-tick update, collision resolution and
//! goal detection.
//!
//! A tick is one call of [`Sim::step`]. It maps each team's key state into
//! its paddle's commanded motion, advances paddles and ball, resolves
//! ball-versus-wall and then ball-versus-paddle contacts in a fixed order
//! (walls before paddles, left paddle before right), each reflection using
//! the velocity as left by the previous contact of the same tick, and
//! finally tests both goal planes with an edge-triggered latch. The whole
//! tick is specified by the specification functions in this module; the
//! executable step is proved equal to them. A tick whose exact arithmetic
//! would leave the representable range changes nothing and reports
//! [`StepError::NumericOverflow`].

use vstd::prelude::*;
use crate::rational::{Rat, spec_mul, spec_avg, spec_le, spec_lt, spec_sub};
use crate::vec3::{Axis, Vec3r, spec_vadd, spec_vscale};
use crate::input::{ControlMode, TeamKeys, spec_map_input, spec_control_velocity, map_input,
    control_velocity};

verus! {

/// The two sides of the play field.
#[derive(Clone, Copy, PartialEq, Eq, Structural, Debug)]
pub enum Team {
    Left,
    Right,
}

/// The team on the other side.
pub open spec fn spec_opposing(t: Team) -> Team {
    match t {
        Team::Left => Team::Right,
        Team::Right => Team::Left,
    }
}

/// The team on the other side.
pub fn opposing(t: Team) -> (r: Team)
    ensures
        r == spec_opposing(t),
{
    match t {
        Team::Left => Team::Right,
        Team::Right => Team::Left,
    }
}

/// A construction-time geometry error. Setup fails fast on it; nothing is
/// silently normalized.
#[derive(Clone, Copy, PartialEq, Eq, Structural, Debug)]
pub enum ConfigError {
    /// The half-space normal has zero length.
    ZeroNormal,
    /// The half-space normal is not an axis-aligned unit vector, the only
    /// normals the exact core supports.
    NotAxisAligned,
}

/// The one failure a tick can report: the exact arithmetic of this tick
/// would leave the representable range. The state is then unchanged.
#[derive(Clone, Copy, PartialEq, Eq, Structural, Debug)]
pub enum StepError {
    NumericOverflow,
}

/// How two contacting bodies' restitution coefficients merge into one
/// effective coefficient.
#[derive(Clone, Copy, PartialEq, Eq, Structural, Debug)]
pub enum CombineRule {
    Max,
    Min,
    Average,
    Multiply,
}

/// An axis-aligned unit normal: one coordinate axis and a direction on it.
#[derive(Clone, Copy, PartialEq, Eq, Structural, Debug)]
pub struct AxisNormal {
    pub axis: Axis,
    pub positive: bool,
}

/// Whether the rational holds exactly the integer `k`.
pub open spec fn rat_is_int(r: Rat, k: int) -> bool {
    r.num == k * r.den
}

/// Classifies a vector as an axis-aligned unit normal, or rejects it:
/// a zero vector is a degenerate normal, anything else off the axes is
/// outside what the exact core supports.
pub open spec fn spec_normal_of_vec(v: Vec3r) -> Result<AxisNormal, ConfigError> {
    if v.x.num == 0 && v.y.num == 0 && v.z.num == 0 {
        Err(ConfigError::ZeroNormal)
    } else if rat_is_int(v.y, 0) && rat_is_int(v.z, 0) && (rat_is_int(v.x, 1) || rat_is_int(
        v.x,
        -1,
    )) {
        Ok(AxisNormal { axis: Axis::X, positive: rat_is_int(v.x, 1) })
    } else if rat_is_int(v.x, 0) && rat_is_int(v.z, 0) && (rat_is_int(v.y, 1) || rat_is_int(
        v.y,
        -1,
    )) {
        Ok(AxisNormal { axis: Axis::Y, positive: rat_is_int(v.y, 1) })
    } else if rat_is_int(v.x, 0) && rat_is_int(v.y, 0) && (rat_is_int(v.z, 1) || rat_is_int(
        v.z,
        -1,
    )) {
        Ok(AxisNormal { axis: Axis::Z, positive: rat_is_int(v.z, 1) })
    } else {
        Err(ConfigError::NotAxisAligned)
    }
}

impl AxisNormal {
    /// Validates a vector as an axis-aligned unit normal. A zero vector is
    /// refused as degenerate, any other off-axis vector as unsupported.
    pub fn from_vec(v: &Vec3r) -> (r: Result<AxisNormal, ConfigError>)
        requires
            v.wf(),
        ensures
            r == spec_normal_of_vec(*v),
    {
        let x1: bool = v.x.num == v.x.den;
        let xm1: bool = v.x.num == -v.x.den;
        let y1: bool = v.y.num == v.y.den;
        let ym1: bool = v.y.num == -v.y.den;
        let z1: bool = v.z.num == v.z.den;
        let zm1: bool = v.z.num == -v.z.den;
        let x0: bool = v.x.num == 0;
        let y0: bool = v.y.num == 0;
        let z0: bool = v.z.num == 0;
        if x0 && y0 && z0 {
            Err(ConfigError::ZeroNormal)
        } else if y0 && z0 && (x1 || xm1) {
            Ok(AxisNormal { axis: Axis::X, positive: x1 })
        } else if x0 && z0 && (y1 || ym1) {
            Ok(AxisNormal { axis: Axis::Y, positive: y1 })
        } else if x0 && y0 && (z1 || zm1) {
            Ok(AxisNormal { axis: Axis::Z, positive: z1 })
        } else {
            Err(ConfigError::NotAxisAligned)
        }
    }
}

/// A static boundary half-space the ball bounces off.
#[derive(Clone, Copy, PartialEq, Eq, Structural, Debug)]
pub struct Wall {
    /// A point on the boundary plane.
    pub position: Vec3r,
    /// Unit normal pointing into the playable region.
    pub normal: AxisNormal,
    /// Restitution of the wall body, combined with the ball's on contact.
    pub restitution: Rat,
}

impl Wall {
    pub open spec fn wf(self) -> bool {
        self.position.wf() && self.restitution.wf()
    }

    /// Builds a wall, failing fast on a degenerate or unsupported normal.
    pub fn new(position: Vec3r, normal: Vec3r, restitution: Rat) -> (r: Result<Wall, ConfigError>)
        requires
            position.wf(),
            normal.wf(),
            restitution.wf(),
        ensures
            r == match spec_normal_of_vec(normal) {
                Ok(n) => Ok::<Wall, ConfigError>(Wall { position, normal: n, restitution }),
                Err(e) => Err::<Wall, ConfigError>(e),
            },
            r matches Ok(w) ==> w.wf(),
    {
        match AxisNormal::from_vec(&normal) {
            Ok(n) => Ok(Wall { position, normal: n, restitution }),
            Err(e) => Err(e),
        }
    }
}

/// A sensor plane behind a paddle's baseline. It detects the ball, it never
/// deflects it.
#[derive(Clone, Copy, PartialEq, Eq, Structural, Debug)]
pub struct Goal {
    /// The team whose goal this is: when the ball enters, the opposing team
    /// scores.
    pub team: Team,
    /// A point on the detection plane.
    pub plane_position: Vec3r,
    /// Unit normal pointing back into the play field.
    pub plane_normal: AxisNormal,
    /// Edge-trigger latch: whether the ball was already beyond the plane
    /// after the previous tick.
    pub ball_beyond: bool,
}

impl Goal {
    pub open spec fn wf(self) -> bool {
        self.plane_position.wf()
    }

    /// Builds a goal sensor with a cleared latch, failing fast on a
    /// degenerate or unsupported normal.
    pub fn new(team: Team, plane_position: Vec3r, plane_normal: Vec3r) -> (r: Result<
        Goal,
        ConfigError,
    >)
        requires
            plane_position.wf(),
            plane_normal.wf(),
        ensures
            r == match spec_normal_of_vec(plane_normal) {
                Ok(n) => Ok::<Goal, ConfigError>(
                    Goal { team, plane_position, plane_normal: n, ball_beyond: false },
                ),
                Err(e) => Err::<Goal, ConfigError>(e),
            },
            r matches Ok(g) ==> g.wf(),
    {
        match AxisNormal::from_vec(&plane_normal) {
            Ok(n) => Ok(Goal { team, plane_position, plane_normal: n, ball_beyond: false }),
            Err(e) => Err(e),
        }
    }
}

/// A player's paddle: an axis-aligned box that deflects the ball and is
/// never knocked back by it.
#[derive(Clone, Copy, PartialEq, Eq, Structural, Debug)]
pub struct Paddle {
    pub team: Team,
    pub position: Vec3r,
    /// Half-size of the rectangular collision volume; fixed after spawn.
    pub extent: Vec3r,
    /// The commanded motion of the current tick, recomputed from input.
    pub control_velocity: Vec3r,
    /// Restitution of the paddle body, combined with the ball's on contact.
    pub restitution: Rat,
}

impl Paddle {
    pub open spec fn wf(self) -> bool {
        self.position.wf() && self.extent.wf() && self.control_velocity.wf()
            && self.restitution.wf()
    }

    /// Spawns a paddle at rest.
    pub fn new(team: Team, position: Vec3r, extent: Vec3r, restitution: Rat) -> (r: Paddle)
        requires
            position.wf(),
            extent.wf(),
            restitution.wf(),
        ensures
            r == (Paddle {
                team,
                position,
                extent,
                control_velocity: crate::vec3::spec_zero3(),
                restitution,
            }),
            r.wf(),
    {
        Paddle { team, position, extent, control_velocity: Vec3r::zero(), restitution }
    }
}

/// The single ball.
#[derive(Clone, Copy, PartialEq, Eq, Structural, Debug)]
pub struct Ball {
    pub position: Vec3r,
    /// Persistent velocity; integration never resets it, only collision
    /// response or an explicit serve changes it.
    pub velocity: Vec3r,
    pub radius: Rat,
    /// The ball's own restitution coefficient; values above one are
    /// deliberate and make every bounce speed the ball up.
    pub restitution: Rat,
    pub combine: CombineRule,
}

impl Ball {
    pub open spec fn wf(self) -> bool {
        self.position.wf() && self.velocity.wf() && self.radius.wf() && self.restitution.wf()
    }

    pub fn new(position: Vec3r, velocity: Vec3r, radius: Rat, restitution: Rat, combine: CombineRule) -> (r: Ball)
        requires
            position.wf(),
            velocity.wf(),
            radius.wf(),
            restitution.wf(),
        ensures
            r == (Ball { position, velocity, radius, restitution, combine }),
            r.wf(),
    {
        Ball { position, velocity, radius, restitution, combine }
    }
}

/// A scoring event: the ball crossed the plane of `goal_team`'s goal, so
/// the opposing team scored.
#[derive(Clone, Copy, PartialEq, Eq, Structural, Debug)]
pub struct ScoreEvent {
    pub goal_team: Team,
    pub scorer: Team,
}

/// The effective restitution of a contact, merged from the two bodies'
/// coefficients by the configured rule. `Max` and `Min` pick one input;
/// `Average` and `Multiply` compute, and can overflow.
pub open spec fn spec_combine(rule: CombineRule, a: Rat, b: Rat) -> Option<Rat> {
    match rule {
        CombineRule::Max => Some(
            if spec_le(a, b) {
                b
            } else {
                a
            },
        ),
        CombineRule::Min => Some(
            if spec_le(a, b) {
                a
            } else {
                b
            },
        ),
        CombineRule::Average => spec_avg(a, b),
        CombineRule::Multiply => spec_mul(a, b),
    }
}

/// Merges two restitution coefficients by the configured rule.
pub fn combine_restitution(rule: CombineRule, a: Rat, b: Rat) -> (r: Option<Rat>)
    requires
        a.wf(),
        b.wf(),
    ensures
        r == spec_combine(rule, a, b),
        r matches Some(e) ==> e.wf(),
{
    match rule {
        CombineRule::Max => Some(
            if a.le(b) {
                b
            } else {
                a
            },
        ),
        CombineRule::Min => Some(
            if a.le(b) {
                a
            } else {
                b
            },
        ),
        CombineRule::Average => a.checked_avg(b),
        CombineRule::Multiply => a.checked_mul(b),
    }
}

/// Whether the ball penetrates the wall's half-space and moves toward it:
/// the signed distance of the ball's center along the wall normal is below
/// the radius, and the velocity component along the normal is negative.
/// False where the distance itself is not representable (the response is
/// then refused as a whole).
pub open spec fn spec_wall_contact(ball: Ball, wall: Wall) -> bool {
    let a = wall.normal.axis;
    match spec_sub(ball.position.spec_comp(a), wall.position.spec_comp(a)) {
        Some(delta) => {
            let sd = if wall.normal.positive {
                delta
            } else {
                delta.spec_neg()
            };
            let vn = ball.velocity.spec_comp(a);
            spec_lt(sd, ball.radius) && (if wall.normal.positive {
                vn.num < 0
            } else {
                vn.num > 0
            })
        },
        None => false,
    }
}

/// The ball after resolving one wall: on contact, the velocity component
/// along the wall normal is reflected and scaled by the combined
/// restitution, the tangential components and the position are unchanged;
/// without contact the ball is returned as it came. `None` when the exact
/// arithmetic of the test or of the reflection overflows.
pub open spec fn spec_wall_response(ball: Ball, wall: Wall) -> Option<Ball> {
    let a = wall.normal.axis;
    match spec_sub(ball.position.spec_comp(a), wall.position.spec_comp(a)) {
        None => None,
        Some(delta) => {
            if spec_wall_contact(ball, wall) {
                match spec_combine(ball.combine, ball.restitution, wall.restitution) {
                    None => None,
                    Some(e) => match spec_mul(e, ball.velocity.spec_comp(a)) {
                        None => None,
                        Some(p) => Some(
                            Ball {
                                velocity: ball.velocity.spec_with_comp(a, p.spec_neg()),
                                ..ball
                            },
                        ),
                    },
                }
            } else {
                Some(ball)
            }
        },
    }
}

/// Resolves one ball-versus-wall contact.
pub fn wall_response(ball: Ball, wall: Wall) -> (r: Option<Ball>)
    requires
        ball.wf(),
        wall.wf(),
    ensures
        r == spec_wall_response(ball, wall),
        r matches Some(b) ==> b.wf(),
{
    let a = wall.normal.axis;
    let delta = match ball.position.comp(a).checked_sub(wall.position.comp(a)) {
        Some(d) => d,
        None => {
            return None;
        },
    };
    let sd = if wall.normal.positive {
        delta
    } else {
        delta.neg()
    };
    let vn = ball.velocity.comp(a);
    let approaching: bool = if wall.normal.positive {
        vn.is_neg()
    } else {
        vn.is_pos()
    };
    if sd.lt(ball.radius) && approaching {
        let e = match combine_restitution(ball.combine, ball.restitution, wall.restitution) {
            Some(e) => e,
            None => {
                return None;
            },
        };
        let p = match e.checked_mul(vn) {
            Some(p) => p,
            None => {
                return None;
            },
        };
        Some(Ball { velocity: ball.velocity.with_comp(a, p.neg()), ..ball })
    } else {
        Some(ball)
    }
}

/// The per-axis excess of the ball center's offset over the box half-size:
/// zero inside the slab, the distance to the slab otherwise.
pub open spec fn spec_axis_excess(d: Rat, ext: Rat) -> Option<Rat> {
    match spec_sub(d.spec_abs(), ext) {
        None => None,
        Some(e) => Some(
            if e.num > 0 {
                e
            } else {
                Rat { num: 0, den: 1 }
            },
        ),
    }
}

/// Whether the sphere of the given radius around the offset `(dx, dy, dz)`
/// from the box center overlaps the axis-aligned box of half-size `ext`:
/// the squared distance from the center to the nearest box point is below
/// the squared radius.
pub open spec fn spec_box_overlap(dx: Rat, dy: Rat, dz: Rat, ext: Vec3r, radius: Rat) -> Option<
    bool,
> {
    match (spec_axis_excess(dx, ext.x), spec_axis_excess(dy, ext.y), spec_axis_excess(dz, ext.z)) {
        (Some(sx), Some(sy), Some(sz)) => {
            match (spec_mul(sx, sx), spec_mul(sy, sy), spec_mul(sz, sz), spec_mul(radius, radius)) {
                (Some(qx), Some(qy), Some(qz), Some(r2)) => match crate::rational::spec_add(
                    qx,
                    qy,
                ) {
                    None => None,
                    Some(qxy) => match crate::rational::spec_add(qxy, qz) {
                        None => None,
                        Some(d2) => Some(spec_lt(d2, r2)),
                    },
                },
                _ => None,
            }
        },
        _ => None,
    }
}

/// The box face closest to the ball center: the axis with the smallest
/// margin between the center's offset and the half-size, ties broken in
/// the fixed order X, Y, Z; the direction is the side of the box center
/// the ball center lies on, the positive side on a tie.
pub open spec fn spec_closest_face(dx: Rat, dy: Rat, dz: Rat, ext: Vec3r) -> Option<AxisNormal> {
    match (spec_sub(ext.x, dx.spec_abs()), spec_sub(ext.y, dy.spec_abs()), spec_sub(
        ext.z,
        dz.spec_abs(),
    )) {
        (Some(mx), Some(my), Some(mz)) => {
            if spec_le(mx, my) && spec_le(mx, mz) {
                Some(AxisNormal { axis: Axis::X, positive: dx.num >= 0 })
            } else if spec_le(my, mz) {
                Some(AxisNormal { axis: Axis::Y, positive: dy.num >= 0 })
            } else {
                Some(AxisNormal { axis: Axis::Z, positive: dz.num >= 0 })
            }
        },
        _ => None,
    }
}

/// Whether the ball overlaps the paddle's box and moves toward the face
/// closest to the ball center. False where the exact test itself is not
/// representable (the response is then refused as a whole).
pub open spec fn spec_paddle_contact(ball: Ball, paddle: Paddle) -> bool {
    match (spec_sub(ball.position.x, paddle.position.x), spec_sub(
        ball.position.y,
        paddle.position.y,
    ), spec_sub(ball.position.z, paddle.position.z)) {
        (Some(dx), Some(dy), Some(dz)) => {
            spec_box_overlap(dx, dy, dz, paddle.extent, ball.radius) == Some(true)
                && match spec_closest_face(dx, dy, dz, paddle.extent) {
                Some(n) => {
                    let vn = ball.velocity.spec_comp(n.axis);
                    if n.positive {
                        vn.num < 0
                    } else {
                        vn.num > 0
                    }
                },
                None => false,
            }
        },
        _ => false,
    }
}

/// The ball after resolving one paddle: on contact, the velocity component
/// along the normal of the face closest to the ball center is reflected
/// and scaled by the combined restitution; tangential components, the
/// position, and the paddle itself are unchanged. `None` when the exact
/// arithmetic overflows.
pub open spec fn spec_paddle_response(ball: Ball, paddle: Paddle) -> Option<Ball> {
    match (spec_sub(ball.position.x, paddle.position.x), spec_sub(
        ball.position.y,
        paddle.position.y,
    ), spec_sub(ball.position.z, paddle.position.z)) {
        (Some(dx), Some(dy), Some(dz)) => match spec_box_overlap(
            dx,
            dy,
            dz,
            paddle.extent,
            ball.radius,
        ) {
            None => None,
            Some(false) => Some(ball),
            Some(true) => match spec_closest_face(dx, dy, dz, paddle.extent) {
                None => None,
                Some(n) => {
                    let vn = ball.velocity.spec_comp(n.axis);
                    let approaching = if n.positive {
                        vn.num < 0
                    } else {
                        vn.num > 0
                    };
                    if approaching {
                        match spec_combine(ball.combine, ball.restitution, paddle.restitution) {
                            None => None,
                            Some(e) => match spec_mul(e, vn) {
                                None => None,
                                Some(p) => Some(
                                    Ball {
                                        velocity: ball.velocity.spec_with_comp(
                                            n.axis,
                                            p.spec_neg(),
                                        ),
                                        ..ball
                                    },
                                ),
                            },
                        }
                    } else {
                        Some(ball)
                    }
                },
            },
        },
        _ => None,
    }
}

/// Resolves one ball-versus-paddle contact.
pub fn paddle_response(ball: Ball, paddle: Paddle) -> (r: Option<Ball>)
    requires
        ball.wf(),
        paddle.wf(),
    ensures
        r == spec_paddle_response(ball, paddle),
        r matches Some(b) ==> b.wf(),
{
    let dx = match ball.position.x.checked_sub(paddle.position.x) {
        Some(d) => d,
        None => {
            return None;
        },
    };
    let dy = match ball.position.y.checked_sub(paddle.position.y) {
        Some(d) => d,
        None => {
            return None;
        },
    };
    let dz = match ball.position.z.checked_sub(paddle.position.z) {
        Some(d) => d,
        None => {
            return None;
        },
    };
    let overlap = match box_overlap(dx, dy, dz, paddle.extent, ball.radius) {
        Some(o) => o,
        None => {
            return None;
        },
    };
    if !overlap {
        return Some(ball);
    }
    let n = match closest_face(dx, dy, dz, paddle.extent) {
        Some(n) => n,
        None => {
            return None;
        },
    };
    let vn = ball.velocity.comp(n.axis);
    let approaching: bool = if n.positive {
        vn.is_neg()
    } else {
        vn.is_pos()
    };
    if approaching {
        let e = match combine_restitution(ball.combine, ball.restitution, paddle.restitution) {
            Some(e) => e,
            None => {
                return None;
            },
        };
        let p = match e.checked_mul(vn) {
            Some(p) => p,
            None => {
                return None;
            },
        };
        Some(Ball { velocity: ball.velocity.with_comp(n.axis, p.neg()), ..ball })
    } else {
        Some(ball)
    }
}

/// The exact sphere-versus-box overlap test.
fn box_overlap(dx: Rat, dy: Rat, dz: Rat, ext: Vec3r, radius: Rat) -> (r: Option<bool>)
    requires
        dx.wf(),
        dy.wf(),
        dz.wf(),
        ext.wf(),
        radius.wf(),
    ensures
        r == spec_box_overlap(dx, dy, dz, ext, radius),
{
    let sx = match axis_excess(dx, ext.x) {
        Some(s) => s,
        None => {
            return None;
        },
    };
    let sy = match axis_excess(dy, ext.y) {
        Some(s) => s,
        None => {
            return None;
        },
    };
    let sz = match axis_excess(dz, ext.z) {
        Some(s) => s,
        None => {
            return None;
        },
    };
    let qx = match sx.checked_mul(sx) {
        Some(q) => q,
        None => {
            return None;
        },
    };
    let qy = match sy.checked_mul(sy) {
        Some(q) => q,
        None => {
            return None;
        },
    };
    let qz = match sz.checked_mul(sz) {
        Some(q) => q,
        None => {
            return None;
        },
    };
    let r2 = match radius.checked_mul(radius) {
        Some(q) => q,
        None => {
            return None;
        },
    };
    let qxy = match qx.checked_add(qy) {
        Some(q) => q,
        None => {
            return None;
        },
    };
    let d2 = match qxy.checked_add(qz) {
        Some(q) => q,
        None => {
            return None;
        },
    };
    Some(d2.lt(r2))
}

/// The per-axis excess of the offset over the half-size.
fn axis_excess(d: Rat, ext: Rat) -> (r: Option<Rat>)
    requires
        d.wf(),
        ext.wf(),
    ensures
        r == spec_axis_excess(d, ext),
        r matches Some(s) ==> s.wf(),
{
    match d.abs().checked_sub(ext) {
        None => None,
        Some(e) => Some(
            if e.is_pos() {
                e
            } else {
                Rat::zero()
            },
        ),
    }
}

/// The box face closest to the ball center.
fn closest_face(dx: Rat, dy: Rat, dz: Rat, ext: Vec3r) -> (r: Option<AxisNormal>)
    requires
        dx.wf(),
        dy.wf(),
        dz.wf(),
        ext.wf(),
    ensures
        r == spec_closest_face(dx, dy, dz, ext),
{
    let mx = match ext.x.checked_sub(dx.abs()) {
        Some(m) => m,
        None => {
            return None;
        },
    };
    let my = match ext.y.checked_sub(dy.abs()) {
        Some(m) => m,
        None => {
            return None;
        },
    };
    let mz = match ext.z.checked_sub(dz.abs()) {
        Some(m) => m,
        None => {
            return None;
        },
    };
    if mx.le(my) && mx.le(mz) {
        Some(AxisNormal { axis: Axis::X, positive: dx.num >= 0 })
    } else if my.le(mz) {
        Some(AxisNormal { axis: Axis::Y, positive: dy.num >= 0 })
    } else {
        Some(AxisNormal { axis: Axis::Z, positive: dz.num >= 0 })
    }
}

/// Whether the ball center is at or beyond the goal plane: its signed
/// distance along the plane normal is at most zero. Total — only a value
/// comparison of two components.
pub open spec fn spec_goal_beyond(pos: Vec3r, g: Goal) -> bool {
    let a = g.plane_normal.axis;
    if g.plane_normal.positive {
        spec_le(pos.spec_comp(a), g.plane_position.spec_comp(a))
    } else {
        spec_le(g.plane_position.spec_comp(a), pos.spec_comp(a))
    }
}

/// The goal's latch after the tick, and whether a scoring event fires:
/// exactly on the tick where the ball is beyond the plane and was not
/// beyond it after the previous tick. The latch re-arms by itself when the
/// ball re-enters the play field.
pub open spec fn spec_goal_update(g: Goal, pos: Vec3r) -> (Goal, bool) {
    let beyond = spec_goal_beyond(pos, g);
    (Goal { ball_beyond: beyond, ..g }, beyond && !g.ball_beyond)
}

/// Tests the ball against one goal plane and updates the edge-trigger
/// latch.
pub fn goal_update(g: Goal, pos: Vec3r) -> (r: (Goal, bool))
    requires
        g.wf(),
        pos.wf(),
    ensures
        r == spec_goal_update(g, pos),
        r.0.wf(),
{
    let a = g.plane_normal.axis;
    let beyond: bool = if g.plane_normal.positive {
        pos.comp(a).le(g.plane_position.comp(a))
    } else {
        g.plane_position.comp(a).le(pos.comp(a))
    };
    (Goal { ball_beyond: beyond, ..g }, beyond && !g.ball_beyond)
}

/// One paddle's tick: the commanded motion from this tick's intents, and
/// the position advanced by it — scaled by the tick duration in `Velocity`
/// mode, applied as the raw per-tick displacement in `PositionDelta` mode.
/// Collisions never feed back into a paddle.
pub open spec fn spec_paddle_tick(
    mode: ControlMode,
    speed: Rat,
    dt: Rat,
    keys: TeamKeys,
    p: Paddle,
) -> Option<Paddle> {
    let cv = spec_control_velocity(mode, spec_map_input(keys), speed);
    let delta = match mode {
        ControlMode::Velocity => spec_vscale(cv, dt),
        ControlMode::PositionDelta => Some(cv),
    };
    match delta {
        None => None,
        Some(dl) => match spec_vadd(p.position, dl) {
            None => None,
            Some(np) => Some(Paddle { position: np, control_velocity: cv, ..p }),
        },
    }
}

/// Advances one paddle by one tick.
pub fn paddle_tick(mode: ControlMode, speed: Rat, dt: Rat, keys: TeamKeys, p: Paddle) -> (r: Option<
    Paddle,
>)
    requires
        speed.wf(),
        dt.wf(),
        p.wf(),
    ensures
        r == spec_paddle_tick(mode, speed, dt, keys, p),
        r matches Some(q) ==> q.wf(),
{
    let cv = control_velocity(mode, map_input(keys), speed);
    let dl = match mode {
        ControlMode::Velocity => match cv.checked_scale(dt) {
            Some(d) => d,
            None => {
                return None;
            },
        },
        ControlMode::PositionDelta => cv,
    };
    match p.position.checked_add(dl) {
        None => None,
        Some(np) => Some(Paddle { position: np, control_velocity: cv, ..p }),
    }
}

/// The integrated position after one tick: `pos + vel * dt`,
/// unconditionally — integration itself never suspends and never mutates
/// the velocity.
pub open spec fn spec_integrate(pos: Vec3r, vel: Vec3r, dt: Rat) -> Option<Vec3r> {
    match spec_vscale(vel, dt) {
        None => None,
        Some(d) => spec_vadd(pos, d),
    }
}

/// Integrates the ball's position over one tick.
pub fn integrate(pos: Vec3r, vel: Vec3r, dt: Rat) -> (r: Option<Vec3r>)
    requires
        pos.wf(),
        vel.wf(),
        dt.wf(),
    ensures
        r == spec_integrate(pos, vel, dt),
        r matches Some(np) ==> np.wf(),
{
    match vel.checked_scale(dt) {
        None => None,
        Some(d) => pos.checked_add(d),
    }
}

/// The ball's full tick: integration, then the contacts in fixed order —
/// the low wall, the high wall, the left paddle, the right paddle — each
/// reflection using the velocity as left by the previous contact of the
/// same tick.
pub open spec fn spec_ball_tick(
    ball: Ball,
    dt: Rat,
    wall_low: Wall,
    wall_high: Wall,
    pl: Option<Paddle>,
    pr: Option<Paddle>,
) -> Option<Ball> {
    match spec_integrate(ball.position, ball.velocity, dt) {
        None => None,
        Some(np) => {
            let b1 = Ball { position: np, ..ball };
            match spec_wall_response(b1, wall_low) {
                None => None,
                Some(b2) => match spec_wall_response(b2, wall_high) {
                    None => None,
                    Some(b3) => {
                        let after_left = match pl {
                            None => Some(b3),
                            Some(p) => spec_paddle_response(b3, p),
                        };
                        match after_left {
                            None => None,
                            Some(b4) => match pr {
                                None => Some(b4),
                                Some(p) => spec_paddle_response(b4, p),
                            },
                        }
                    },
                },
            }
        },
    }
}

/// Advances the ball by one tick against the given boundary and paddles.
pub fn ball_tick(
    ball: Ball,
    dt: Rat,
    wall_low: Wall,
    wall_high: Wall,
    pl: Option<Paddle>,
    pr: Option<Paddle>,
) -> (r: Option<Ball>)
    requires
        ball.wf(),
        dt.wf(),
        wall_low.wf(),
        wall_high.wf(),
        pl matches Some(p) ==> p.wf(),
        pr matches Some(p) ==> p.wf(),
    ensures
        r == spec_ball_tick(ball, dt, wall_low, wall_high, pl, pr),
        r matches Some(b) ==> b.wf(),
{
    let np = match integrate(ball.position, ball.velocity, dt) {
        Some(np) => np,
        None => {
            return None;
        },
    };
    let b1 = Ball { position: np, ..ball };
    let b2 = match wall_response(b1, wall_low) {
        Some(b) => b,
        None => {
            return None;
        },
    };
    let b3 = match wall_response(b2, wall_high) {
        Some(b) => b,
        None => {
            return None;
        },
    };
    let b4 = match pl {
        None => b3,
        Some(p) => match paddle_response(b3, p) {
            Some(b) => b,
            None => {
                return None;
            },
        },
    };
    match pr {
        None => Some(b4),
        Some(p) => paddle_response(b4, p),
    }
}

/// A wall response keeps everything but the velocity, and keeps even that
/// without a contact.
pub proof fn lemma_wall_response_frame(b: Ball, w: Wall, b2: Ball)
    requires
        spec_wall_response(b, w) == Some(b2),
    ensures
        b2.position == b.position,
        b2.radius == b.radius,
        b2.restitution == b.restitution,
        b2.combine == b.combine,
        !spec_wall_contact(b, w) ==> b2 == b,
{
}

/// A paddle response keeps everything but the velocity, and keeps even
/// that without a contact.
pub proof fn lemma_paddle_response_frame(b: Ball, p: Paddle, b2: Ball)
    requires
        spec_paddle_response(b, p) == Some(b2),
    ensures
        b2.position == b.position,
        b2.radius == b.radius,
        b2.restitution == b.restitution,
        b2.combine == b.combine,
        !spec_paddle_contact(b, p) ==> b2 == b,
{
}

/// Whether the ball, at its post-integration position but with its
/// pre-collision velocity, contacts any wall or any present paddle.
pub open spec fn spec_any_contact(ib: Ball, s: Sim) -> bool {
    spec_wall_contact(ib, s.wall_low) || spec_wall_contact(ib, s.wall_high) || (match s
        .paddle_left {
        Some(p) => spec_paddle_contact(ib, p),
        None => false,
    }) || (match s.paddle_right {
        Some(p) => spec_paddle_contact(ib, p),
        None => false,
    })
}

/// The ball's tick integrates the position and, only at a detected
/// contact, changes the velocity: without any contact the velocity comes
/// through unchanged.
pub proof fn lemma_ball_tick_frame(
    ball: Ball,
    dt: Rat,
    wall_low: Wall,
    wall_high: Wall,
    pl: Option<Paddle>,
    pr: Option<Paddle>,
    nb: Ball,
)
    requires
        spec_ball_tick(ball, dt, wall_low, wall_high, pl, pr) == Some(nb),
    ensures
        spec_integrate(ball.position, ball.velocity, dt) == Some(nb.position),
        nb.radius == ball.radius,
        nb.restitution == ball.restitution,
        nb.combine == ball.combine,
        ({
            let ib = Ball { position: nb.position, ..ball };
            (!spec_wall_contact(ib, wall_low) && !spec_wall_contact(ib, wall_high) && (pl matches Some(p)
                ==> !spec_paddle_contact(ib, p)) && (pr matches Some(p) ==> !spec_paddle_contact(
                ib,
                p,
            ))) ==> nb.velocity == ball.velocity
        }),
{
    let np = spec_integrate(ball.position, ball.velocity, dt)->Some_0;
    let b1 = Ball { position: np, ..ball };
    let b2 = spec_wall_response(b1, wall_low)->Some_0;
    lemma_wall_response_frame(b1, wall_low, b2);
    let b3 = spec_wall_response(b2, wall_high)->Some_0;
    lemma_wall_response_frame(b2, wall_high, b3);
    let b4 = match pl {
        None => b3,
        Some(p) => spec_paddle_response(b3, p)->Some_0,
    };
    if pl is Some {
        lemma_paddle_response_frame(b3, pl->Some_0, b4);
    }
    if pr is Some {
        lemma_paddle_response_frame(b4, pr->Some_0, nb);
    }
    let ib = Ball { position: nb.position, ..ball };
    assert(ib == b1);
    if !spec_wall_contact(ib, wall_low) && !spec_wall_contact(ib, wall_high) && (pl matches Some(p)
        ==> !spec_paddle_contact(ib, p)) && (pr matches Some(p) ==> !spec_paddle_contact(ib, p)) {
        assert(b2 == b1);
        assert(b3 == b2);
        assert(b4 == b3);
        assert(nb == b4);
    }
}

/// A paddle's tick moves it only in its own plane: the commanded motion
/// has an exactly zero Z component, the Z position keeps its value, and
/// the paddle's identity, extent and restitution never change.
pub proof fn lemma_paddle_tick_confined(
    mode: ControlMode,
    speed: Rat,
    dt: Rat,
    keys: TeamKeys,
    p: Paddle,
    q: Paddle,
)
    requires
        speed.wf(),
        dt.wf(),
        p.wf(),
        spec_paddle_tick(mode, speed, dt, keys, p) == Some(q),
    ensures
        q.control_velocity.z == (Rat { num: 0, den: 1 }),
        crate::rational::rat_eq(q.position.z, p.position.z),
        q.team == p.team,
        q.extent == p.extent,
        q.restitution == p.restitution,
{
    let cv = spec_control_velocity(mode, spec_map_input(keys), speed);
    assert(cv.z == (Rat { num: 0, den: 1 }));
    let dl = match mode {
        ControlMode::Velocity => spec_vscale(cv, dt)->Some_0,
        ControlMode::PositionDelta => cv,
    };
    if mode is Velocity {
        // The Z component of the displacement is `0/1 * dt`, whose reduced
        // form is exactly `0/1`.
        assert(cv.z.num * dt.num == 0);
        assert(cv.z.den * dt.den == dt.den);
        crate::rational::lemma_norm_zero(dt.den as int);
        assert(spec_mul(cv.z, dt) =~= crate::rational::norm(0, dt.den as int));
    }
    assert(dl.z == (Rat { num: 0, den: 1 }));
    // Adding an exact zero keeps the value of the Z position.
    let z = p.position.z;
    assert(crate::rational::sum_num(z, dl.z) == z.num);
    assert(z.den * dl.z.den == z.den);
    crate::rational::lemma_norm_is_ratio(z.num as int, z.den as int);
    assert(crate::rational::spec_add(z, dl.z) == Some(q.position.z));
}

/// A paddle that comes out of a tick is well formed again.
pub proof fn lemma_paddle_tick_wf(
    mode: ControlMode,
    speed: Rat,
    dt: Rat,
    keys: TeamKeys,
    p: Paddle,
    q: Paddle,
)
    requires
        speed.wf(),
        dt.wf(),
        p.wf(),
        spec_paddle_tick(mode, speed, dt, keys, p) == Some(q),
    ensures
        q.wf(),
{
    let cv = spec_control_velocity(mode, spec_map_input(keys), speed);
    assert(cv.wf());
    let dl = match mode {
        ControlMode::Velocity => spec_vscale(cv, dt)->Some_0,
        ControlMode::PositionDelta => cv,
    };
    if mode is Velocity {
        assert(cv.x.den * dt.den > 0) by (nonlinear_arith)
            requires
                cv.x.den > 0,
                dt.den > 0,
        ;
        assert(cv.y.den * dt.den > 0) by (nonlinear_arith)
            requires
                cv.y.den > 0,
                dt.den > 0,
        ;
        assert(cv.z.den * dt.den > 0) by (nonlinear_arith)
            requires
                cv.z.den > 0,
                dt.den > 0,
        ;
        crate::rational::lemma_norm_wf(cv.x.num * dt.num, cv.x.den * dt.den);
        crate::rational::lemma_norm_wf(cv.y.num * dt.num, cv.y.den * dt.den);
        crate::rational::lemma_norm_wf(cv.z.num * dt.num, cv.z.den * dt.den);
    }
    assert(dl.wf());
    assert(p.position.x.den * dl.x.den > 0) by (nonlinear_arith)
        requires
            p.position.x.den > 0,
            dl.x.den > 0,
    ;
    assert(p.position.y.den * dl.y.den > 0) by (nonlinear_arith)
        requires
            p.position.y.den > 0,
            dl.y.den > 0,
    ;
    assert(p.position.z.den * dl.z.den > 0) by (nonlinear_arith)
        requires
            p.position.z.den > 0,
            dl.z.den > 0,
    ;
    crate::rational::lemma_norm_wf(
        crate::rational::sum_num(p.position.x, dl.x),
        p.position.x.den * dl.x.den,
    );
    crate::rational::lemma_norm_wf(
        crate::rational::sum_num(p.position.y, dl.y),
        p.position.y.den * dl.y.den,
    );
    crate::rational::lemma_norm_wf(
        crate::rational::sum_num(p.position.z, dl.z),
        p.position.z.den * dl.z.den,
    );
}

/// The full simulation state: the single ball, one optional paddle per
/// team, the two boundary walls, and the two goal sensors, with the fixed
/// tick duration and the paddle control configuration.
#[derive(Clone, Copy, PartialEq, Eq, Structural, Debug)]
pub struct Sim {
    /// The fixed tick duration.
    pub dt: Rat,
    /// How the paddle controller's output is applied.
    pub control_mode: ControlMode,
    /// The fixed paddle speed constant.
    pub paddle_speed: Rat,
    pub ball: Ball,
    pub paddle_left: Option<Paddle>,
    pub paddle_right: Option<Paddle>,
    /// The boundary wall at the low extreme of its axis.
    pub wall_low: Wall,
    /// The boundary wall at the high extreme of its axis.
    pub wall_high: Wall,
    pub goal_left: Goal,
    pub goal_right: Goal,
}

/// One optional paddle's tick: an absent paddle stays absent, a present
/// one is advanced, and its overflow refuses the tick.
pub open spec fn spec_opt_paddle_tick(
    mode: ControlMode,
    speed: Rat,
    dt: Rat,
    keys: TeamKeys,
    p: Option<Paddle>,
) -> Option<Option<Paddle>> {
    match p {
        None => Some(None),
        Some(pp) => match spec_paddle_tick(mode, speed, dt, keys, pp) {
            None => None,
            Some(q) => Some(Some(q)),
        },
    }
}

/// The whole tick as a function of the previous state and the sampled
/// input: paddle control and integration, ball integration, collision
/// resolution in fixed order, then goal detection. `None` when any exact
/// intermediate result is unrepresentable.
pub open spec fn spec_step(s: Sim, keys_left: TeamKeys, keys_right: TeamKeys) -> Option<
    (Sim, Option<ScoreEvent>, Option<ScoreEvent>),
> {
    match spec_opt_paddle_tick(s.control_mode, s.paddle_speed, s.dt, keys_left, s.paddle_left) {
        None => None,
        Some(pl) => match spec_opt_paddle_tick(
            s.control_mode,
            s.paddle_speed,
            s.dt,
            keys_right,
            s.paddle_right,
        ) {
            None => None,
            Some(pr) => match spec_ball_tick(s.ball, s.dt, s.wall_low, s.wall_high, pl, pr) {
                None => None,
                Some(nb) => {
                    let gl = spec_goal_update(s.goal_left, nb.position);
                    let gr = spec_goal_update(s.goal_right, nb.position);
                    Some(
                        (
                            Sim {
                                ball: nb,
                                paddle_left: pl,
                                paddle_right: pr,
                                goal_left: gl.0,
                                goal_right: gr.0,
                                ..s
                            },
                            if gl.1 {
                                Some(
                                    ScoreEvent {
                                        goal_team: s.goal_left.team,
                                        scorer: spec_opposing(s.goal_left.team),
                                    },
                                )
                            } else {
                                None
                            },
                            if gr.1 {
                                Some(
                                    ScoreEvent {
                                        goal_team: s.goal_right.team,
                                        scorer: spec_opposing(s.goal_right.team),
                                    },
                                )
                            } else {
                                None
                            },
                        ),
                    )
                },
            },
        },
    }
}

/// The emitted events of one tick, in fixed order: the left goal's event,
/// then the right goal's.
pub open spec fn spec_events(evl: Option<ScoreEvent>, evr: Option<ScoreEvent>) -> Seq<ScoreEvent> {
    match (evl, evr) {
        (Some(a), Some(b)) => seq![a, b],
        (Some(a), None) => seq![a],
        (None, Some(b)) => seq![b],
        (None, None) => Seq::empty(),
    }
}

impl Sim {
    /// Validity of the whole state: every quantity well formed, one paddle
    /// and one goal tagged per team.
    pub open spec fn wf(self) -> bool {
        &&& self.dt.wf()
        &&& self.paddle_speed.wf()
        &&& self.ball.wf()
        &&& (self.paddle_left matches Some(p) ==> p.wf() && p.team == Team::Left)
        &&& (self.paddle_right matches Some(p) ==> p.wf() && p.team == Team::Right)
        &&& self.wall_low.wf()
        &&& self.wall_high.wf()
        &&& self.goal_left.wf()
        &&& self.goal_left.team == Team::Left
        &&& self.goal_right.wf()
        &&& self.goal_right.team == Team::Right
    }

    /// Assembles a simulation from its validated parts.
    pub fn new(
        dt: Rat,
        control_mode: ControlMode,
        paddle_speed: Rat,
        ball: Ball,
        paddle_left: Option<Paddle>,
        paddle_right: Option<Paddle>,
        wall_low: Wall,
        wall_high: Wall,
        goal_left: Goal,
        goal_right: Goal,
    ) -> (r: Sim)
        requires
            dt.wf(),
            paddle_speed.wf(),
            ball.wf(),
            paddle_left matches Some(p) ==> p.wf() && p.team == Team::Left,
            paddle_right matches Some(p) ==> p.wf() && p.team == Team::Right,
            wall_low.wf(),
            wall_high.wf(),
            goal_left.wf(),
            goal_left.team == Team::Left,
            goal_right.wf(),
            goal_right.team == Team::Right,
        ensures
            r == (Sim {
                dt,
                control_mode,
                paddle_speed,
                ball,
                paddle_left,
                paddle_right,
                wall_low,
                wall_high,
                goal_left,
                goal_right,
            }),
            r.wf(),
    {
        Sim {
            dt,
            control_mode,
            paddle_speed,
            ball,
            paddle_left,
            paddle_right,
            wall_low,
            wall_high,
            goal_left,
            goal_right,
        }
    }

    /// An explicit serve or reset: places the ball and gives it a fresh
    /// velocity, touching nothing else.
    pub fn serve(&mut self, position: Vec3r, velocity: Vec3r)
        requires
            old(self).wf(),
            position.wf(),
            velocity.wf(),
        ensures
            *final(self) == (Sim {
                ball: Ball { position, velocity, ..old(self).ball },
                ..*old(self)
            }),
            final(self).wf(),
    {
        self.ball = Ball { position, velocity, ..self.ball };
    }

    /// Advances the simulation by one fixed tick. On success the new state
    /// and the emitted scoring events are exactly those of [`spec_step`];
    /// on numeric overflow nothing changes. The extra clauses state the
    /// tick's laws: the position moves only by integration and the
    /// velocity only at a detected contact; each goal's latch follows the
    /// plane test edge-triggered; a present paddle keeps its Z position
    /// and its commanded motion stays in the X/Y plane.
    #[verifier::rlimit(80)]
    pub fn step(&mut self, keys_left: TeamKeys, keys_right: TeamKeys) -> (r: Result<
        Vec<ScoreEvent>,
        StepError,
    >)
        requires
            old(self).wf(),
        ensures
            final(self).wf(),
            match spec_step(*old(self), keys_left, keys_right) {
                Some(t) => r matches Ok(evs) && *final(self) == t.0 && evs@ == spec_events(
                    t.1,
                    t.2,
                ),
                None => r matches Err(e) && e == StepError::NumericOverflow && *final(self)
                    == *old(self),
            },
            r matches Ok(_) ==> spec_integrate(
                old(self).ball.position,
                old(self).ball.velocity,
                old(self).dt,
            ) == Some(final(self).ball.position),
            r matches Ok(_) ==> (!spec_any_contact(
                Ball { position: final(self).ball.position, ..old(self).ball },
                *final(self),
            ) ==> final(self).ball.velocity == old(self).ball.velocity),
            r matches Ok(_) ==> final(self).goal_left.ball_beyond == spec_goal_beyond(
                final(self).ball.position,
                old(self).goal_left,
            ) && final(self).goal_right.ball_beyond == spec_goal_beyond(
                final(self).ball.position,
                old(self).goal_right,
            ),
            r matches Ok(_) ==> match (old(self).paddle_left, final(self).paddle_left) {
                (Some(po), Some(pn)) => crate::rational::rat_eq(pn.position.z, po.position.z)
                    && pn.control_velocity.z == (Rat { num: 0, den: 1 }) && pn.extent == po.extent,
                (None, None) => true,
                _ => false,
            },
            r matches Ok(_) ==> match (old(self).paddle_right, final(self).paddle_right) {
                (Some(po), Some(pn)) => crate::rational::rat_eq(pn.position.z, po.position.z)
                    && pn.control_velocity.z == (Rat { num: 0, den: 1 }) && pn.extent == po.extent,
                (None, None) => true,
                _ => false,
            },
    {
        let pl = match self.paddle_left {
            None => None,
            Some(p) => match paddle_tick(
                self.control_mode,
                self.paddle_speed,
                self.dt,
                keys_left,
                p,
            ) {
                Some(q) => Some(q),
                None => {
                    return Err(StepError::NumericOverflow);
                },
            },
        };
        let pr = match self.paddle_right {
            None => None,
            Some(p) => match paddle_tick(
                self.control_mode,
                self.paddle_speed,
                self.dt,
                keys_right,
                p,
            ) {
                Some(q) => Some(q),
                None => {
                    return Err(StepError::NumericOverflow);
                },
            },
        };
        let nb = match ball_tick(self.ball, self.dt, self.wall_low, self.wall_high, pl, pr) {
            Some(b) => b,
            None => {
                return Err(StepError::NumericOverflow);
            },
        };
        let gl = goal_update(self.goal_left, nb.position);
        let gr = goal_update(self.goal_right, nb.position);
        let mut events: Vec<ScoreEvent> = Vec::new();
        if gl.1 {
            events.push(
                ScoreEvent { goal_team: self.goal_left.team, scorer: opposing(self.goal_left.team) },
            );
        }
        if gr.1 {
            events.push(
                ScoreEvent {
                    goal_team: self.goal_right.team,
                    scorer: opposing(self.goal_right.team),
                },
            );
        }
        proof {
            let t = spec_step(*old(self), keys_left, keys_right)->Some_0;
            assert(events@ =~= spec_events(t.1, t.2));
            lemma_ball_tick_frame(
                old(self).ball,
                old(self).dt,
                old(self).wall_low,
                old(self).wall_high,
                pl,
                pr,
                nb,
            );
            if old(self).paddle_left is Some {
                lemma_paddle_tick_confined(
                    old(self).control_mode,
                    old(self).paddle_speed,
                    old(self).dt,
                    keys_left,
                    old(self).paddle_left->Some_0,
                    pl->Some_0,
                );
            }
            if old(self).paddle_right is Some {
                lemma_paddle_tick_confined(
                    old(self).control_mode,
                    old(self).paddle_speed,
                    old(self).dt,
                    keys_right,
                    old(self).paddle_right->Some_0,
                    pr->Some_0,
                );
            }
        }
        self.ball = nb;
        self.paddle_left = pl;
        self.paddle_right = pr;
        self.goal_left = gl.0;
        self.goal_right = gr.0;
        Ok(events)
    }
}

} // verus!

//! A free-look camera in fixed-point arithmetic.
//!
//! The camera turns accumulated input — cursor travel, scroll steps, held
//! movement keys — into a pose: a position, a yaw and pitch in millidegrees,
//! a field of view in millidegrees, and a derived facing vector. Pitch and
//! field of view are clamped to fixed safe ranges; yaw is kept normalized to
//! one full turn. All of it is integer arithmetic on [`SCALE`]-scaled
//! values, so every operation is total and exact.
//!
//! The one thing the camera cannot compute for itself is trigonometry: sine
//! and cosine live in the caller's number format. The caller samples them
//! for the current yaw and pitch, scaled by [`SCALE`], and hands them to
//! [`Camera::refresh_facing`], which does the verified part: combining the
//! samples into the facing vector.

use vstd::prelude::*;

use crate::math::{
    clamp_i, clamp_i128_to_i64, cross, cross_x, cross_y, cross_z, div_t, div_trunc_i64,
    div_trunc_i128, dot, dot_spec, in_bounds, lemma_component_le_len, lemma_div_t_bound,
    lemma_scaled_div_bounded, lemma_sqrt_floor_bounds, normalize, normalize_spec, norm_sq,
    sqrt_floor, Mat4Fx, Vec3Fx, SCALE,
};

verus! {

/// Lowest pitch the camera may reach, in millidegrees.
pub const PITCH_MIN: i64 = -60_000;

/// Highest pitch the camera may reach, in millidegrees.
pub const PITCH_MAX: i64 = 60_000;

/// Narrowest field of view, in millidegrees.
pub const FOV_MIN: i64 = 1_000;

/// Widest field of view, in millidegrees.
pub const FOV_MAX: i64 = 45_000;

/// One full turn of yaw, in millidegrees.
pub const FULL_TURN: i64 = 360_000;

/// Look sensitivity: millidegrees of turn per pixel of cursor travel
/// (0.05 degrees per pixel). Cursor positions come in milli-pixels, so an
/// offset is `delta * LOOK_SENS / SCALE`.
pub const LOOK_SENS: i64 = 50;

/// Movement speed: milli-units of travel per second of held key.
pub const SPEED: i64 = 2_500;

/// How far from the origin the camera may wander, in milli-units, on each
/// axis. Movement saturates here so that view-transform arithmetic stays
/// within machine range.
pub const POS_LIMIT: i64 = 1_000_000_000_000;

/// A held movement key's direction, relative to where the camera faces.
#[derive(Clone, Copy, PartialEq, Eq, Structural, Debug)]
pub enum MoveDirection {
    Forward,
    Backward,
    StrafeLeft,
    StrafeRight,
}

/// Sine and cosine of the camera's yaw and pitch, scaled by [`SCALE`],
/// sampled by the caller.
#[derive(Clone, Copy, PartialEq, Eq, Structural, Debug)]
pub struct FacingTrig {
    pub sin_yaw: i64,
    pub cos_yaw: i64,
    pub sin_pitch: i64,
    pub cos_pitch: i64,
}

/// What any honest trigonometry sample satisfies for a pitch within the
/// clamp: every value in `[-SCALE, SCALE]`, the yaw pair near unit length,
/// and the pitch's cosine well away from zero (pitch stays in ±60 degrees,
/// where the cosine is at least half).
pub open spec fn trig_wf(t: FacingTrig) -> bool {
    &&& -1_000 <= t.sin_yaw <= 1_000
    &&& -1_000 <= t.cos_yaw <= 1_000
    &&& -1_000 <= t.sin_pitch <= 1_000
    &&& -1_000 <= t.cos_pitch <= 1_000
    &&& t.sin_yaw * t.sin_yaw + t.cos_yaw * t.cos_yaw >= 900_000
    &&& 400 <= t.cos_pitch
}

/// The facing direction a trigonometry sample yields:
/// `(cos yaw * cos pitch, sin pitch, sin yaw * cos pitch)`, in [`SCALE`]d
/// subunits.
pub open spec fn facing_from(t: FacingTrig) -> Vec3Fx {
    Vec3Fx {
        x: div_t(t.cos_yaw * t.cos_pitch, SCALE as int) as i64,
        y: t.sin_pitch,
        z: div_t(t.sin_yaw * t.cos_pitch, SCALE as int) as i64,
    }
}

/// The first-person camera's whole pose and input state.
#[derive(Clone, Copy, PartialEq, Eq, Debug)]
pub struct Camera {
    /// World-space position, in milli-units.
    pub position: Vec3Fx,
    /// Yaw in millidegrees, normalized to `[0, FULL_TURN)`.
    pub yaw_md: i64,
    /// Pitch in millidegrees, within `[PITCH_MIN, PITCH_MAX]`.
    pub pitch_md: i64,
    /// Vertical field of view in millidegrees, within `[FOV_MIN, FOV_MAX]`.
    pub fov_md: i64,
    /// Facing direction derived from yaw and pitch, near unit length.
    pub facing: Vec3Fx,
    /// The fixed world-up reference.
    pub up: Vec3Fx,
    /// The last cursor sample, if any; the first look event only seeds it.
    pub last_cursor: Option<(i64, i64)>,
}

impl Camera {
    /// The camera's invariant: angles within their clamps, the facing
    /// near-unit with some horizontal component (so a view basis always
    /// exists), the up reference fixed, and the position within range.
    pub open spec fn wf(self) -> bool {
        &&& PITCH_MIN <= self.pitch_md <= PITCH_MAX
        &&& FOV_MIN <= self.fov_md <= FOV_MAX
        &&& 0 <= self.yaw_md < FULL_TURN
        &&& in_bounds(self.facing, SCALE as int)
        &&& (self.facing.x != 0 || self.facing.z != 0)
        &&& self.up == (Vec3Fx { x: 0, y: SCALE, z: 0 })
        &&& in_bounds(self.position, POS_LIMIT as int)
    }
}

/// The camera as created: at `position`, yawed a quarter turn backward from
/// zero so that it faces along negative z, level, at the widest field of
/// view, with no cursor sample yet.
pub open spec fn initial_camera(position: Vec3Fx) -> Camera {
    Camera {
        position,
        yaw_md: 270_000,
        pitch_md: 0,
        fov_md: FOV_MAX,
        facing: Vec3Fx { x: 0, y: 0, z: -1_000i64 },
        up: Vec3Fx { x: 0, y: SCALE, z: 0 },
        last_cursor: None,
    }
}

/// `a` brought into `[0, FULL_TURN)` by whole turns.
pub open spec fn wrap_mdeg(a: int) -> int {
    a % (FULL_TURN as int)
}

/// One look event at cursor position `(x, y)`, in milli-pixels. Without a
/// previous sample it only seeds one; with one, yaw turns with the
/// horizontal travel and pitch with the vertical, pitch clamped.
pub open spec fn look_spec(c: Camera, x: i64, y: i64) -> Camera {
    match c.last_cursor {
        None => Camera { last_cursor: Some((x, y)), ..c },
        Some(last) => {
            let dx = x - last.0;
            let dy = y - last.1;
            let yaw2 = wrap_mdeg(c.yaw_md + div_t(dx * (LOOK_SENS as int), SCALE as int));
            let pitch2 = clamp_i(
                c.pitch_md - div_t(dy * (LOOK_SENS as int), SCALE as int),
                PITCH_MIN as int,
                PITCH_MAX as int,
            );
            Camera {
                yaw_md: yaw2 as i64,
                pitch_md: pitch2 as i64,
                last_cursor: Some((x, y)),
                ..c
            }
        },
    }
}

/// One scroll event of `dy` millidegrees: the field of view narrows by the
/// scroll amount, within its clamp.
pub open spec fn zoom_spec(c: Camera, dy: i64) -> Camera {
    Camera { fov_md: clamp_i(c.fov_md - dy, FOV_MIN as int, FOV_MAX as int) as i64, ..c }
}

/// Displacement along one axis component `a` (in subunits) for `dt`
/// milliseconds of travel at [`SPEED`].
pub open spec fn disp_spec(a: int, dt: int) -> int {
    div_t(a * (SPEED as int) * dt, 1_000_000)
}

/// The axis a movement direction travels along: the facing vector for
/// forward and backward, the normalized right vector for strafing.
pub open spec fn move_axis_spec(c: Camera, dir: MoveDirection) -> Vec3Fx {
    match dir {
        MoveDirection::Forward | MoveDirection::Backward => c.facing,
        MoveDirection::StrafeLeft | MoveDirection::StrafeRight => right_spec(c),
    }
}

/// The camera's right vector: the normalized cross product of facing and up.
pub open spec fn right_spec(c: Camera) -> Vec3Fx {
    normalize_spec(
        Vec3Fx {
            x: cross_x(c.facing, c.up) as i64,
            y: cross_y(c.facing, c.up) as i64,
            z: cross_z(c.facing, c.up) as i64,
        },
    )
}

/// Whether a direction travels along its axis or against it.
pub open spec fn move_sign(dir: MoveDirection) -> int {
    match dir {
        MoveDirection::Forward | MoveDirection::StrafeRight => 1,
        MoveDirection::Backward | MoveDirection::StrafeLeft => -1,
    }
}

/// One movement event: `dt` milliseconds of travel in `dir`, each position
/// component saturating at [`POS_LIMIT`].
pub open spec fn move_spec(c: Camera, dir: MoveDirection, dt: i64) -> Camera {
    let a = move_axis_spec(c, dir);
    let s = move_sign(dir);
    Camera {
        position: Vec3Fx {
            x: clamp_i(
                c.position.x + s * disp_spec(a.x as int, dt as int),
                -POS_LIMIT as int,
                POS_LIMIT as int,
            ) as i64,
            y: clamp_i(
                c.position.y + s * disp_spec(a.y as int, dt as int),
                -POS_LIMIT as int,
                POS_LIMIT as int,
            ) as i64,
            z: clamp_i(
                c.position.z + s * disp_spec(a.z as int, dt as int),
                -POS_LIMIT as int,
                POS_LIMIT as int,
            ) as i64,
        },
        ..c
    }
}

impl Camera {
    /// A camera at `position`, facing along negative z.
    pub fn new(position: Vec3Fx) -> (c: Camera)
        requires
            in_bounds(position, POS_LIMIT as int),
        ensures
            c == initial_camera(position),
            c.wf(),
    {
        Camera {
            position,
            yaw_md: 270_000,
            pitch_md: 0,
            fov_md: FOV_MAX,
            facing: Vec3Fx { x: 0, y: 0, z: -1_000 },
            up: Vec3Fx { x: 0, y: SCALE, z: 0 },
            last_cursor: None,
        }
    }

    /// Take one cursor sample at `(x, y)` milli-pixels and turn the camera
    /// by the travel since the last sample. The first sample after creation
    /// leaves yaw and pitch untouched: it only seeds the reference point.
    pub fn apply_look(&mut self, x: i64, y: i64)
        requires
            old(self).wf(),
        ensures
            *final(self) == look_spec(*old(self), x, y),
            final(self).wf(),
    {
        match self.last_cursor {
            None => {
                self.last_cursor = Some((x, y));
            },
            Some(last) => {
                let dx: i128 = x as i128 - last.0 as i128;
                let dy: i128 = y as i128 - last.1 as i128;
                let yaw_off: i128 = div_trunc_i128(dx * (LOOK_SENS as i128), SCALE as i128);
                let pitch_off: i128 = div_trunc_i128(dy * (LOOK_SENS as i128), SCALE as i128);
                let yaw_sum: i128 = self.yaw_md as i128 + yaw_off;
                let yaw_new: i128 = match yaw_sum.checked_rem_euclid(FULL_TURN as i128) {
                    Some(v) => v,
                    None => {
                        proof {
                            assert(false);
                        }
                        0
                    },
                };
                self.yaw_md = yaw_new as i64;
                self.pitch_md = clamp_i128_to_i64(
                    self.pitch_md as i128 - pitch_off,
                    PITCH_MIN,
                    PITCH_MAX,
                );
                self.last_cursor = Some((x, y));
            },
        }
    }

    /// Take one scroll step of `dy` millidegrees: scrolling up narrows the
    /// field of view (zooms in), scrolling down widens it, within the clamp.
    pub fn apply_zoom(&mut self, dy: i64)
        requires
            old(self).wf(),
        ensures
            *final(self) == zoom_spec(*old(self), dy),
            final(self).wf(),
    {
        self.fov_md = clamp_i128_to_i64(self.fov_md as i128 - dy as i128, FOV_MIN, FOV_MAX);
    }

    /// Move for `dt` milliseconds in `dir` at the fixed speed: along the
    /// facing vector for forward and backward, along the normalized right
    /// vector for strafing. Each position component saturates at the world
    /// bound.
    pub fn apply_movement(&mut self, dir: MoveDirection, dt: i64)
        requires
            old(self).wf(),
            0 <= dt,
        ensures
            *final(self) == move_spec(*old(self), dir, dt),
            final(self).wf(),
    {
        let axis: Vec3Fx = match dir {
            MoveDirection::Forward | MoveDirection::Backward => self.facing,
            MoveDirection::StrafeLeft | MoveDirection::StrafeRight => {
                proof {
                    lemma_cross_with_up(self.facing, self.up);
                }
                let c = cross(&self.facing, &self.up);
                normalize(&c)
            },
        };
        let forward_sign: bool = match dir {
            MoveDirection::Forward | MoveDirection::StrafeRight => true,
            MoveDirection::Backward | MoveDirection::StrafeLeft => false,
        };
        let dx: i128 = displacement(axis.x, dt);
        let dy: i128 = displacement(axis.y, dt);
        let dz: i128 = displacement(axis.z, dt);
        if forward_sign {
            self.position = Vec3Fx {
                x: clamp_i128_to_i64(self.position.x as i128 + dx, -POS_LIMIT, POS_LIMIT),
                y: clamp_i128_to_i64(self.position.y as i128 + dy, -POS_LIMIT, POS_LIMIT),
                z: clamp_i128_to_i64(self.position.z as i128 + dz, -POS_LIMIT, POS_LIMIT),
            };
        } else {
            self.position = Vec3Fx {
                x: clamp_i128_to_i64(self.position.x as i128 - dx, -POS_LIMIT, POS_LIMIT),
                y: clamp_i128_to_i64(self.position.y as i128 - dy, -POS_LIMIT, POS_LIMIT),
                z: clamp_i128_to_i64(self.position.z as i128 - dz, -POS_LIMIT, POS_LIMIT),
            };
        }
    }

    /// Rebuild the facing vector from a fresh trigonometry sample of the
    /// current yaw and pitch.
    pub fn refresh_facing(&mut self, t: FacingTrig)
        requires
            old(self).wf(),
            trig_wf(t),
        ensures
            *final(self) == (Camera { facing: facing_from(t), ..*old(self) }),
            final(self).wf(),
    {
        proof {
            lemma_facing_from_wf(t);
        }
        let fx: i64 = div_trunc_i64(mul_trig(t.cos_yaw, t.cos_pitch), SCALE);
        let fz: i64 = div_trunc_i64(mul_trig(t.sin_yaw, t.cos_pitch), SCALE);
        self.facing = Vec3Fx { x: fx, y: t.sin_pitch, z: fz };
    }
}

/// Product of two trigonometry samples, each within `[-SCALE, SCALE]`.
fn mul_trig(a: i64, b: i64) -> (r: i64)
    requires
        -1_000 <= a <= 1_000,
        -1_000 <= b <= 1_000,
    ensures
        r == a * b,
        -1_000_000 <= r <= 1_000_000,
{
    proof {
        assert(-1_000_000 <= a * b <= 1_000_000) by (nonlinear_arith)
            requires
                -1_000 <= a <= 1_000 && -1_000 <= b <= 1_000,
        ;
    }
    a * b
}

/// Displacement along one axis component for `dt` milliseconds at [`SPEED`],
/// in milli-units, as a wide integer for the caller to clamp.
fn displacement(a: i64, dt: i64) -> (r: i128)
    requires
        -2_000 <= a <= 2_000,
        0 <= dt,
    ensures
        r == disp_spec(a as int, dt as int),
        -50_000_000_000_000_000_000 <= r <= 50_000_000_000_000_000_000,
{
    proof {
        let aa = a as int;
        let dd = dt as int;
        assert({
            &&& -5_000_000 <= aa * 2_500 <= 5_000_000
            &&& (aa * 2_500) * dd == aa * 2_500 * dd
            &&& -5_000_000 * dd <= (aa * 2_500) * dd <= 5_000_000 * dd
        }) by (nonlinear_arith)
            requires
                -2_000 <= aa <= 2_000 && 0 <= dd,
        ;
        crate::math::lemma_div_t_bound(
            aa * 2_500 * dd,
            1_000_000,
            50_000_000_000_000_000_000_000_000,
        );
    }
    let scaled: i128 = (a as i128) * (SPEED as i128) * (dt as i128);
    div_trunc_i128(scaled, 1_000_000)
}

/// The cross product of a well-formed facing vector with the fixed up
/// reference: it is `(-SCALE * facing.z, 0, SCALE * facing.x)`, bounded and
/// of nonzero length.
proof fn lemma_cross_with_up(f: Vec3Fx, up: Vec3Fx)
    requires
        in_bounds(f, SCALE as int),
        f.x != 0 || f.z != 0,
        up == (Vec3Fx { x: 0, y: SCALE, z: 0 }),
    ensures
        cross_x(f, up) == -(SCALE as int) * f.z,
        cross_y(f, up) == 0,
        cross_z(f, up) == (SCALE as int) * f.x,
        -1_000_000 <= cross_x(f, up) <= 1_000_000,
        -1_000_000 <= cross_z(f, up) <= 1_000_000,
        ({
            let c = Vec3Fx {
                x: cross_x(f, up) as i64,
                y: cross_y(f, up) as i64,
                z: cross_z(f, up) as i64,
            };
            norm_sq(c) >= 1 && in_bounds(c, 2_000_000_000)
        }),
{
    assert({
        &&& f.y * 0 - f.z * 1_000 == -1_000 * f.z
        &&& f.z * 0 - f.x * 0 == 0
        &&& f.x * 1_000 - f.y * 0 == 1_000 * f.x
    }) by (nonlinear_arith);
    let c = Vec3Fx {
        x: cross_x(f, up) as i64,
        y: cross_y(f, up) as i64,
        z: cross_z(f, up) as i64,
    };
    assert(norm_sq(c) >= 1) by (nonlinear_arith)
        requires
            c.x == -1_000 * f.z && c.y == 0 && c.z == 1_000 * f.x && (f.x != 0 || f.z != 0)
                && -1_000 <= f.x <= 1_000 && -1_000 <= f.z <= 1_000,
    ;
}

/// A well-formed trigonometry sample yields a well-formed facing: bounded
/// by [`SCALE`] and with a nonzero horizontal component.
proof fn lemma_facing_from_wf(t: FacingTrig)
    requires
        trig_wf(t),
    ensures
        in_bounds(facing_from(t), SCALE as int),
        facing_from(t).x != 0 || facing_from(t).z != 0,
{
    let cy = t.cos_yaw as int;
    let sy = t.sin_yaw as int;
    let cp = t.cos_pitch as int;
    let px = cy * cp;
    let pz = sy * cp;
    assert(-1_000_000 <= px <= 1_000_000 && -1_000_000 <= pz <= 1_000_000) by (nonlinear_arith)
        requires
            px == cy * cp && pz == sy * cp && -1_000 <= cy <= 1_000 && -1_000 <= sy <= 1_000
                && -1_000 <= cp <= 1_000,
    ;
    assert(-1_000 <= div_t(px, 1_000) <= 1_000);
    assert(-1_000 <= div_t(pz, 1_000) <= 1_000);
    assert(cy * cy >= 450_000 || sy * sy >= 450_000) by (nonlinear_arith)
        requires
            cy * cy + sy * sy >= 900_000,
    ;
    if cy * cy >= 450_000 {
        assert(cy >= 671 || cy <= -671) by (nonlinear_arith)
            requires
                cy * cy >= 450_000,
        ;
        assert(px >= 268_400 || px <= -268_400) by (nonlinear_arith)
            requires
                (cy >= 671 || cy <= -671) && cp >= 400 && px == cy * cp,
        ;
        assert(div_t(px, 1_000) >= 268 || div_t(px, 1_000) <= -268);
    } else {
        assert(sy >= 671 || sy <= -671) by (nonlinear_arith)
            requires
                sy * sy >= 450_000,
        ;
        assert(pz >= 268_400 || pz <= -268_400) by (nonlinear_arith)
            requires
                (sy >= 671 || sy <= -671) && cp >= 400 && pz == sy * cp,
        ;
        assert(div_t(pz, 1_000) >= 268 || div_t(pz, 1_000) <= -268);
    }
}

/// Normalizing cannot flatten the facing: a bounded vector with a nonzero
/// horizontal component keeps one through `normalize_spec`.
proof fn lemma_normalize_keeps_horizontal(v: Vec3Fx)
    requires
        in_bounds(v, SCALE as int),
        v.x != 0 || v.z != 0,
    ensures
        1 <= norm_sq(v),
        normalize_spec(v).x != 0 || normalize_spec(v).z != 0,
{
    let x = v.x as int;
    let y = v.y as int;
    let z = v.z as int;
    assert(1 <= x * x + y * y + z * z <= 3_000_000) by (nonlinear_arith)
        requires
            (x != 0 || z != 0) && -1_000 <= x <= 1_000 && -1_000 <= y <= 1_000 && -1_000 <= z
                <= 1_000,
    ;
    let n = norm_sq(v) as nat;
    lemma_sqrt_floor_bounds(n);
    let len = sqrt_floor(n) as int;
    assert(1 <= len) by (nonlinear_arith)
        requires
            1 <= n && n < (len + 1) * (len + 1) && 0 <= len,
    ;
    let c = if x * x >= z * z {
        x
    } else {
        z
    };
    let a = if c >= 0 {
        c
    } else {
        -c
    };
    assert(1 <= a && a * a == c * c && n <= 2 * (c * c) + 1_000_000) by (nonlinear_arith)
        requires
            (x != 0 || z != 0) && n == x * x + y * y + z * z && -1_000 <= y <= 1_000 && c == (
            if x * x >= z * z {
                x
            } else {
                z
            }) && a == (if c >= 0 {
                c
            } else {
                -c
            }),
    ;
    if a >= 2 {
        assert(len <= a * 1_000) by (nonlinear_arith)
            requires
                2 <= a && n <= 2 * (a * a) + 1_000_000 && len * len <= n && 0 <= len,
        ;
    } else {
        assert(len <= a * 1_000) by (nonlinear_arith)
            requires
                a == 1 && n <= 2 * (a * a) + 1_000_000 && len * len <= n && 0 <= len,
        ;
    }
    vstd::arithmetic::div_mod::lemma_div_by_self(len);
    lemma_component_le_len(v, c);
    lemma_scaled_div_bounded(c, len, SCALE as int);
    if c >= 0 {
        assert(c * (SCALE as int) == a * 1_000) by (nonlinear_arith)
            requires
                c == a && SCALE == 1_000,
        ;
        vstd::arithmetic::div_mod::lemma_div_is_ordered(len, c * (SCALE as int), len);
        assert(div_t(c * (SCALE as int), len) >= 1);
    } else {
        assert(-(c * (SCALE as int)) == a * 1_000) by (nonlinear_arith)
            requires
                a == -c && SCALE == 1_000,
        ;
        vstd::arithmetic::div_mod::lemma_div_is_ordered(len, -(c * (SCALE as int)), len);
        assert(div_t(c * (SCALE as int), len) <= -1);
    }
}

/// The forward axis of the camera's view basis: the facing, normalized.
pub open spec fn view_basis_f(c: Camera) -> Vec3Fx {
    normalize_spec(c.facing)
}

/// The rightward axis of the view basis: the normalized cross product of
/// the forward axis with the up reference.
pub open spec fn view_basis_s(c: Camera) -> Vec3Fx {
    let f = view_basis_f(c);
    normalize_spec(
        Vec3Fx {
            x: cross_x(f, c.up) as i64,
            y: cross_y(f, c.up) as i64,
            z: cross_z(f, c.up) as i64,
        },
    )
}

/// The upward axis of the view basis: the cross product of the rightward
/// and forward axes, rescaled back to subunits.
pub open spec fn view_basis_u(c: Camera) -> Vec3Fx {
    let f = view_basis_f(c);
    let s = view_basis_s(c);
    Vec3Fx {
        x: div_t(cross_x(s, f), SCALE as int) as i64,
        y: div_t(cross_y(s, f), SCALE as int) as i64,
        z: div_t(cross_z(s, f), SCALE as int) as i64,
    }
}

/// The standard look-at view transform from the camera's position toward
/// `position + facing` with the up reference: rows are the rightward,
/// upward and backward axes, and the last column carries the translation
/// `(-s.P, -u.P, f.P)`, all column-major and in subunits.
pub open spec fn view_matrix_spec(c: Camera) -> Mat4Fx {
    let f = view_basis_f(c);
    let s = view_basis_s(c);
    let u = view_basis_u(c);
    Mat4Fx {
        m: [
            s.x,
            u.x,
            (-f.x) as i64,
            0i64,
            s.y,
            u.y,
            (-f.y) as i64,
            0i64,
            s.z,
            u.z,
            (-f.z) as i64,
            0i64,
            (-div_t(dot_spec(s, c.position), SCALE as int)) as i64,
            (-div_t(dot_spec(u, c.position), SCALE as int)) as i64,
            div_t(dot_spec(f, c.position), SCALE as int) as i64,
            SCALE,
        ],
    }
}

/// The standard perspective projection for the given viewport and clip
/// planes, with `cot_half_fov` the caller's [`SCALE`]d sample of the
/// cotangent of half the field of view.
pub open spec fn projection_spec(
    width: i64,
    height: i64,
    near: i64,
    far: i64,
    cot_half_fov: i64,
) -> Mat4Fx {
    Mat4Fx {
        m: [
            div_t(cot_half_fov * height, width as int) as i64,
            0i64,
            0i64,
            0i64,
            0i64,
            cot_half_fov,
            0i64,
            0i64,
            0i64,
            0i64,
            (-div_t((far + near) * (SCALE as int), far - near)) as i64,
            (-SCALE) as i64,
            0i64,
            0i64,
            (-div_t(2 * far * near, far - near)) as i64,
            0i64,
        ],
    }
}

impl Camera {
    /// The look-at view matrix for the camera's current pose.
    pub fn view_matrix(&self) -> (r: Mat4Fx)
        requires
            self.wf(),
        ensures
            r == view_matrix_spec(*self),
    {
        proof {
            lemma_normalize_keeps_horizontal(self.facing);
        }
        let f = normalize(&self.facing);
        proof {
            lemma_cross_with_up(f, self.up);
        }
        let sraw = cross(&f, &self.up);
        let s = normalize(&sraw);
        proof {
            assert({
                &&& -2_000_000 <= cross_x(s, f) <= 2_000_000
                &&& -2_000_000 <= cross_y(s, f) <= 2_000_000
                &&& -2_000_000 <= cross_z(s, f) <= 2_000_000
            }) by (nonlinear_arith)
                requires
                    in_bounds(s, 1_000) && in_bounds(f, 1_000),
            ;
            lemma_div_t_bound(cross_x(s, f), SCALE as int, 2_000_000);
            lemma_div_t_bound(cross_y(s, f), SCALE as int, 2_000_000);
            lemma_div_t_bound(cross_z(s, f), SCALE as int, 2_000_000);
        }
        let uraw = cross(&s, &f);
        let u = Vec3Fx {
            x: div_trunc_i64(uraw.x, SCALE),
            y: div_trunc_i64(uraw.y, SCALE),
            z: div_trunc_i64(uraw.z, SCALE),
        };
        proof {
            crate::math::lemma_dot_bound(s, self.position, 1_000, 1_000_000_000_000);
            crate::math::lemma_dot_bound(u, self.position, 2_000, 1_000_000_000_000);
            crate::math::lemma_dot_bound(f, self.position, 1_000, 1_000_000_000_000);
            lemma_div_t_bound(dot_spec(s, self.position), SCALE as int, 3_000_000_000_000_000);
            lemma_div_t_bound(dot_spec(u, self.position), SCALE as int, 6_000_000_000_000_000);
            lemma_div_t_bound(dot_spec(f, self.position), SCALE as int, 3_000_000_000_000_000);
        }
        let ts = -div_trunc_i64(dot(&s, &self.position), SCALE);
        let tu = -div_trunc_i64(dot(&u, &self.position), SCALE);
        let tf = div_trunc_i64(dot(&f, &self.position), SCALE);
        Mat4Fx {
            m: [
                s.x,
                u.x,
                -f.x,
                0,
                s.y,
                u.y,
                -f.y,
                0,
                s.z,
                u.z,
                -f.z,
                0,
                ts,
                tu,
                tf,
                SCALE,
            ],
        }
    }

    /// The perspective projection matrix for a viewport of `width` by
    /// `height` milli-pixels and clip planes at `near` and `far`
    /// milli-units. The camera's field of view enters through
    /// `cot_half_fov`, the caller's [`SCALE`]d trigonometry sample of the
    /// cotangent of half the field of view.
    pub fn projection_matrix(
        &self,
        width: i64,
        height: i64,
        near: i64,
        far: i64,
        cot_half_fov: i64,
    ) -> (r: Mat4Fx)
        requires
            0 < width <= 100_000_000,
            0 < height <= 100_000_000,
            0 < near < far <= 1_000_000_000,
            0 < cot_half_fov <= 100_000_000,
        ensures
            r == projection_spec(width, height, near, far, cot_half_fov),
    {
        proof {
            assert(0 <= cot_half_fov * height <= 10_000_000_000_000_000) by (nonlinear_arith)
                requires
                    0 < cot_half_fov <= 100_000_000 && 0 < height <= 100_000_000,
            ;
            assert(0 < 2 * far * near <= 2_000_000_000_000_000_000) by (nonlinear_arith)
                requires
                    0 < near < far <= 1_000_000_000,
            ;
            vstd::arithmetic::div_mod::lemma_div_pos_is_pos(cot_half_fov * height, width as int);
            lemma_div_t_bound(cot_half_fov * height, width as int, 10_000_000_000_000_000);
            lemma_div_t_bound((far + near) * (SCALE as int), (far - near) as int, 2_000_000_000_000);
            lemma_div_t_bound(2 * far * near, (far - near) as int, 2_000_000_000_000_000_000);
        }
        let m00: i64 = div_trunc_i64(cot_half_fov * height, width);
        let m22: i64 = -div_trunc_i64((far + near) * SCALE, far - near);
        let m32: i64 = -div_trunc_i64(2 * far * near, far - near);
        Mat4Fx {
            m: [
                m00,
                0,
                0,
                0,
                0,
                cot_half_fov,
                0,
                0,
                0,
                0,
                m22,
                -SCALE,
                0,
                0,
                m32,
                0,
            ],
        }
    }
}

/// A sequence of look events folded over a camera.
pub open spec fn look_seq(c: Camera, inputs: Seq<(i64, i64)>) -> Camera
    decreases inputs.len(),
{
    if inputs.len() == 0 {
        c
    } else {
        look_seq(look_spec(c, inputs[0].0, inputs[0].1), inputs.drop_first())
    }
}

/// A sequence of scroll events folded over a camera.
pub open spec fn zoom_seq(c: Camera, inputs: Seq<i64>) -> Camera
    decreases inputs.len(),
{
    if inputs.len() == 0 {
        c
    } else {
        zoom_seq(zoom_spec(c, inputs[0]), inputs.drop_first())
    }
}

/// Pitch never leaves its clamp, however many look events of whatever size
/// arrive: any sequence of cursor samples folded over a camera whose pitch
/// is in range leaves it in range.
pub proof fn lemma_pitch_bounded_under_look(c: Camera, inputs: Seq<(i64, i64)>)
    requires
        PITCH_MIN <= c.pitch_md <= PITCH_MAX,
    ensures
        PITCH_MIN <= look_seq(c, inputs).pitch_md <= PITCH_MAX,
    decreases inputs.len(),
{
    if inputs.len() > 0 {
        lemma_pitch_bounded_under_look(look_spec(c, inputs[0].0, inputs[0].1), inputs.drop_first());
    }
}

/// The field of view never leaves its clamp, however many scroll events of
/// whatever size arrive.
pub proof fn lemma_fov_bounded_under_zoom(c: Camera, inputs: Seq<i64>)
    requires
        FOV_MIN <= c.fov_md <= FOV_MAX,
    ensures
        FOV_MIN <= zoom_seq(c, inputs).fov_md <= FOV_MAX,
    decreases inputs.len(),
{
    if inputs.len() > 0 {
        lemma_fov_bounded_under_zoom(zoom_spec(c, inputs[0]), inputs.drop_first());
    }
}

} // verus!

//! Per-frame rotation accumulation.
//!
//! Scene objects carry a fixed angular velocity about each of the three
//! world axes. Once per frame the owner's orientation is composed with an
//! incremental rotation per axis, in the fixed order x, then y, then z.
//! Sequential single-axis composition is the defined semantics: rotations
//! about different axes do not commute, so the order is part of the
//! contract.
//!
//! Angles are held exactly, in nano-turns (a full turn is one billion
//! nano-turns), and an orientation is a reduced word of axis rotations:
//! adjacent rotations about the same axis merge by adding their angles
//! modulo a full turn, and a rotation that reduces to a whole number of
//! turns is dropped. This is precisely the algebra that quaternion
//! composition obeys for axis-aligned rotations, stated without
//! floating-point error. A driver that renders the scene turns each word
//! step into a quaternion.

use vstd::prelude::*;
use vstd::arithmetic::div_mod::lemma_add_mod_noop;
use vstd::arithmetic::div_mod::lemma_fundamental_div_mod;
use vstd::arithmetic::div_mod::lemma_fundamental_div_mod_converse_mod;
use vstd::arithmetic::div_mod::lemma_mod_bound;
use vstd::arithmetic::div_mod::lemma_small_mod;
use vstd::arithmetic::mul::lemma_mul_is_distributive_add;
use vstd::arithmetic::mul::lemma_mul_upper_bound;

verus! {

/// Nano-turns in one full revolution.
pub const TURN_NANOTURNS: u64 = 1_000_000_000;

/// A world axis.
#[derive(Clone, Copy, PartialEq, Eq, Structural, Debug)]
pub enum Axis {
    X,
    Y,
    Z,
}

/// One letter of an orientation word: a rotation about a single axis by a
/// fraction of a turn, held in nano-turns.
#[derive(Clone, Copy, PartialEq, Eq, Structural, Debug)]
pub struct AxisRotation {
    /// The axis rotated about.
    pub axis: Axis,
    /// The angle in nano-turns, strictly between zero and a full turn.
    pub angle_nanoturns: u64,
}

/// Fixed angular velocity of an object, in micro-turns per second about
/// each axis. A negative component spins the other way.
#[derive(Clone, Copy, PartialEq, Eq, Structural, Debug)]
pub struct RotationSpeed {
    /// Micro-turns per second about the x axis.
    pub x: i64,
    /// Micro-turns per second about the y axis.
    pub y: i64,
    /// Micro-turns per second about the z axis.
    pub z: i64,
}

/// A reduced orientation word: every angle is strictly inside one turn and
/// no two adjacent letters share an axis.
pub open spec fn wf_word(w: Seq<AxisRotation>) -> bool {
    &&& forall|i: int|
        0 <= i < w.len() ==> 0 < (#[trigger] w[i]).angle_nanoturns < TURN_NANOTURNS
    &&& forall|i: int|
        #![trigger w[i], w[i + 1]]
        0 <= i < w.len() - 1 ==> w[i].axis != w[i + 1].axis
}

/// Composes an orientation word with one incremental axis rotation whose
/// angle is already reduced into `[0, TURN_NANOTURNS)`: a zero increment is
/// the identity, an increment about the word's last axis merges with that
/// letter modulo a full turn (vanishing entirely when the merge is a whole
/// turn), and any other increment appends a new letter.
pub open spec fn apply_rotation(w: Seq<AxisRotation>, axis: Axis, angle: int) -> Seq<
    AxisRotation,
> {
    if angle == 0 {
        w
    } else if w.len() > 0 && w.last().axis == axis {
        let merged = (w.last().angle_nanoturns + angle) % (TURN_NANOTURNS as int);
        if merged == 0 {
            w.drop_last()
        } else {
            w.update(w.len() - 1, AxisRotation { axis, angle_nanoturns: merged as u64 })
        }
    } else {
        w.push(AxisRotation { axis, angle_nanoturns: angle as u64 })
    }
}

/// The angle, in nano-turns reduced into one turn, that an axis advances by
/// over `delta_ms` milliseconds at `speed` micro-turns per second.
pub open spec fn step_angle(speed: int, delta_ms: int) -> int {
    (speed * delta_ms) % (TURN_NANOTURNS as int)
}

/// One frame's update: the orientation word after composing the increments
/// of all three axes, in the fixed order x, then y, then z.
pub open spec fn rotated(w: Seq<AxisRotation>, speed: RotationSpeed, delta_ms: int) -> Seq<
    AxisRotation,
> {
    apply_rotation(
        apply_rotation(
            apply_rotation(w, Axis::X, step_angle(speed.x as int, delta_ms)),
            Axis::Y,
            step_angle(speed.y as int, delta_ms),
        ),
        Axis::Z,
        step_angle(speed.z as int, delta_ms),
    )
}

/// Composing one reduced increment keeps the word reduced.
pub proof fn lemma_apply_rotation_wf(w: Seq<AxisRotation>, axis: Axis, angle: int)
    requires
        wf_word(w),
        0 <= angle < TURN_NANOTURNS,
    ensures
        wf_word(apply_rotation(w, axis, angle)),
{
    let t = TURN_NANOTURNS as int;
    if angle == 0 {
    } else if w.len() > 0 && w.last().axis == axis {
        let merged = (w.last().angle_nanoturns + angle) % t;
        lemma_mod_bound(w.last().angle_nanoturns + angle, t);
        if merged == 0 {
            let r = w.drop_last();
            assert forall|i: int| 0 <= i < r.len() implies 0 < (
            #[trigger] r[i]).angle_nanoturns < TURN_NANOTURNS by {
                assert(r[i] == w[i]);
            }
            assert forall|i: int| #![trigger r[i], r[i + 1]] 0 <= i < r.len() - 1 implies r[i].axis != r[i + 1].axis by {
                assert(r[i] == w[i]);
                assert(r[i + 1] == w[i + 1]);
            }
        } else {
            let nr = AxisRotation { axis, angle_nanoturns: merged as u64 };
            let r = w.update(w.len() - 1, nr);
            assert forall|i: int| 0 <= i < r.len() implies 0 < (
            #[trigger] r[i]).angle_nanoturns < TURN_NANOTURNS by {
                if i < w.len() - 1 {
                    assert(r[i] == w[i]);
                } else {
                    assert(r[i] == nr);
                }
            }
            assert forall|i: int| #![trigger r[i], r[i + 1]] 0 <= i < r.len() - 1 implies r[i].axis != r[i + 1].axis by {
                if i + 1 < w.len() - 1 {
                    assert(r[i] == w[i]);
                    assert(r[i + 1] == w[i + 1]);
                } else {
                    assert(r[i] == w[i]);
                    assert(r[i + 1] == nr);
                    assert(w[i].axis != w[i + 1].axis);
                    assert(w[i + 1].axis == axis);
                }
            }
        }
    } else {
        let nr = AxisRotation { axis, angle_nanoturns: angle as u64 };
        let r = w.push(nr);
        assert forall|i: int| 0 <= i < r.len() implies 0 < (#[trigger] r[i]).angle_nanoturns
            < TURN_NANOTURNS by {
            if i < w.len() {
                assert(r[i] == w[i]);
            } else {
                assert(r[i] == nr);
            }
        }
        assert forall|i: int| #![trigger r[i], r[i + 1]] 0 <= i < r.len() - 1 implies r[i].axis != r[i + 1].axis by {
            if i + 1 < w.len() {
                assert(r[i] == w[i]);
                assert(r[i + 1] == w[i + 1]);
            } else {
                assert(r[i] == w[i]);
                assert(r[i + 1] == nr);
                assert(w[i] == w.last());
            }
        }
    }
}

/// An orientation: the reduced word of axis rotations composed so far,
/// innermost first. The empty word is the identity orientation.
#[derive(Clone, PartialEq, Eq, Debug)]
pub struct Orientation {
    /// The reduced word, first-applied rotation first.
    pub steps: Vec<AxisRotation>,
}

impl Orientation {
    /// The orientation is a reduced word.
    pub open spec fn wf(self) -> bool {
        wf_word(self.steps@)
    }

    /// The identity orientation: no rotation at all.
    pub fn identity() -> (o: Orientation)
        ensures
            o.steps@ == Seq::<AxisRotation>::empty(),
            o.wf(),
    {
        let o = Orientation { steps: Vec::new() };
        proof {
            assert(o.steps@ =~= Seq::<AxisRotation>::empty());
        }
        o
    }

    /// Composes this orientation with one reduced axis increment.
    #[verifier::rlimit(50)]
    fn apply_axis(&mut self, axis: Axis, angle_nanoturns: u64)
        requires
            old(self).wf(),
            angle_nanoturns < TURN_NANOTURNS,
        ensures
            final(self).wf(),
            final(self).steps@ == apply_rotation(old(self).steps@, axis, angle_nanoturns as int),
    {
        proof {
            lemma_apply_rotation_wf(self.steps@, axis, angle_nanoturns as int);
        }
        if angle_nanoturns == 0 {
            return ;
        }
        let n = self.steps.len();
        if n > 0 && self.steps[n - 1].axis == axis {
            let last = self.steps[n - 1];
            assert(0 < last.angle_nanoturns < TURN_NANOTURNS);
            let merged: u64 = (last.angle_nanoturns + angle_nanoturns) % TURN_NANOTURNS;
            self.steps.pop();
            if merged != 0 {
                self.steps.push(AxisRotation { axis, angle_nanoturns: merged });
                proof {
                    assert(final(self).steps@ =~= old(self).steps@.update(
                        old(self).steps@.len() - 1,
                        AxisRotation { axis, angle_nanoturns: merged },
                    ));
                }
            } else {
                proof {
                    assert(final(self).steps@ =~= old(self).steps@.drop_last());
                }
            }
        } else {
            self.steps.push(AxisRotation { axis, angle_nanoturns });
        }
    }

    /// Advances the orientation by one frame: for each axis, in the order
    /// x, then y, then z, composes the rotation the axis's speed covers in
    /// `delta_ms` milliseconds. A zero elapsed time leaves the orientation
    /// unchanged, and a zero-speed axis contributes nothing.
    pub fn rotate(&mut self, speed: &RotationSpeed, delta_ms: u64)
        requires
            old(self).wf(),
        ensures
            final(self).wf(),
            final(self).steps@ == rotated(old(self).steps@, *speed, delta_ms as int),
    {
        let ax = axis_step_angle(speed.x, delta_ms);
        let ay = axis_step_angle(speed.y, delta_ms);
        let az = axis_step_angle(speed.z, delta_ms);
        self.apply_axis(Axis::X, ax);
        self.apply_axis(Axis::Y, ay);
        self.apply_axis(Axis::Z, az);
    }
}

/// Computes `step_angle` exactly, without overflow, for any speed and any
/// elapsed time.
fn axis_step_angle(speed: i64, delta_ms: u64) -> (angle: u64)
    ensures
        angle as int == step_angle(speed as int, delta_ms as int),
        angle < TURN_NANOTURNS,
{
    let turn: u128 = TURN_NANOTURNS as u128;
    if speed >= 0 {
        proof {
            lemma_mul_upper_bound(
                speed as int,
                0xFFFF_FFFF_FFFF_FFFF,
                delta_ms as int,
                0xFFFF_FFFF_FFFF_FFFF,
            );
            lemma_mod_bound(speed as int * delta_ms as int, TURN_NANOTURNS as int);
        }
        let m: u128 = ((speed as u128) * (delta_ms as u128)) % turn;
        m as u64
    } else {
        let mag: u128 = (-(speed as i128)) as u128;
        proof {
            lemma_mul_upper_bound(
                mag as int,
                0x8000_0000_0000_0000,
                delta_ms as int,
                0xFFFF_FFFF_FFFF_FFFF,
            );
        }
        let m: u128 = (mag * (delta_ms as u128)) % turn;
        let angle: u64 = if m == 0 {
            0
        } else {
            (turn - m) as u64
        };
        proof {
            let t = TURN_NANOTURNS as int;
            let x = mag as int * delta_ms as int;
            lemma_mod_bound(x, t);
            lemma_fundamental_div_mod(x, t);
            let q = x / t;
            let r = x % t;
            assert(speed as int * delta_ms as int == -x) by (nonlinear_arith)
                requires
                    mag as int == -(speed as int),
                    x == mag as int * delta_ms as int,
            ;
            if r == 0 {
                assert(t * (-q) == -x) by (nonlinear_arith)
                    requires
                        x == t * q + r,
                        r == 0,
                ;
                lemma_fundamental_div_mod_converse_mod(-x, t, -q, 0);
            } else {
                assert(t * (-q - 1) + (t - r) == -x) by (nonlinear_arith)
                    requires
                        x == t * q + r,
                ;
                lemma_fundamental_div_mod_converse_mod(-x, t, -q - 1, t - r);
            }
        }
        angle
    }
}

/// True when at most one of the three axis speeds is nonzero.
pub open spec fn single_axis(speed: RotationSpeed) -> bool {
    ||| speed.y == 0 && speed.z == 0
    ||| speed.x == 0 && speed.z == 0
    ||| speed.x == 0 && speed.y == 0
}

/// Composing two reduced increments about the same axis is one increment
/// by their sum modulo a full turn.
#[verifier::rlimit(100)]
proof fn lemma_apply_rotation_twice(w: Seq<AxisRotation>, axis: Axis, a1: int, a2: int)
    requires
        wf_word(w),
        0 <= a1 < TURN_NANOTURNS,
        0 <= a2 < TURN_NANOTURNS,
    ensures
        apply_rotation(apply_rotation(w, axis, a1), axis, a2) == apply_rotation(
            w,
            axis,
            (a1 + a2) % (TURN_NANOTURNS as int),
        ),
{
    let t = TURN_NANOTURNS as int;
    let m = (a1 + a2) % t;
    lemma_mod_bound(a1 + a2, t);
    if a1 + a2 < t {
        lemma_small_mod((a1 + a2) as nat, TURN_NANOTURNS as nat);
    } else {
        lemma_fundamental_div_mod_converse_mod(a1 + a2, t, 1, a1 + a2 - t);
    }
    // From here on: m == a1 + a2, or m == a1 + a2 - t when the sum wraps.
    if a1 == 0 {
        lemma_small_mod(a2 as nat, TURN_NANOTURNS as nat);
    } else if w.len() > 0 && w.last().axis == axis {
        let x = w.last().angle_nanoturns as int;
        let merged1 = (x + a1) % t;
        lemma_mod_bound(x + a1, t);
        if x + a1 < t {
            lemma_small_mod((x + a1) as nat, TURN_NANOTURNS as nat);
        } else {
            lemma_fundamental_div_mod_converse_mod(x + a1, t, 1, x + a1 - t);
        }
        if x + m < t {
            lemma_small_mod((x + m) as nat, TURN_NANOTURNS as nat);
        } else {
            lemma_fundamental_div_mod_converse_mod(x + m, t, 1, x + m - t);
        }
        let u = apply_rotation(w, axis, a1);
        if merged1 == 0 {
            assert(u == w.drop_last());
            if u.len() > 0 {
                let j = w.len() - 2;
                assert(w[j].axis != w[j + 1].axis);
                assert(u.last() == w[j]);
                assert(u.last().axis != axis);
            }
            // x + a1 == t, so the summed merge lands on a2 exactly.
            if a2 == 0 {
                assert(apply_rotation(u, axis, a2) == u);
                assert(m == a1);
                assert((x + m) % t == 0);
                assert(apply_rotation(w, axis, m) == w.drop_last());
            } else {
                assert((x + m) % t == a2);
                assert(apply_rotation(w, axis, m) == w.update(
                    w.len() - 1,
                    AxisRotation { axis, angle_nanoturns: a2 as u64 },
                ));
                assert(apply_rotation(u, axis, a2) == u.push(
                    AxisRotation { axis, angle_nanoturns: a2 as u64 },
                ));
                assert(u.push(AxisRotation { axis, angle_nanoturns: a2 as u64 }) =~= w.update(
                    w.len() - 1,
                    AxisRotation { axis, angle_nanoturns: a2 as u64 },
                ));
            }
        } else {
            assert(u == w.update(
                w.len() - 1,
                AxisRotation { axis, angle_nanoturns: merged1 as u64 },
            ));
            assert(u.len() == w.len());
            assert(u.last() == AxisRotation { axis, angle_nanoturns: merged1 as u64 });
            let merged2 = (merged1 + a2) % t;
            lemma_mod_bound(merged1 + a2, t);
            if merged1 + a2 < t {
                lemma_small_mod((merged1 + a2) as nat, TURN_NANOTURNS as nat);
            } else {
                lemma_fundamental_div_mod_converse_mod(merged1 + a2, t, 1, merged1 + a2 - t);
            }
            assert(merged2 == (x + m) % t);
            if a2 == 0 {
                assert(m == a1);
                assert(apply_rotation(u, axis, a2) == u);
            } else {
                if m == 0 {
                    assert(merged2 == x % t);
                    lemma_small_mod(x as nat, TURN_NANOTURNS as nat);
                    assert(apply_rotation(w, axis, m) == w);
                    assert(apply_rotation(u, axis, a2) == u.update(
                        u.len() - 1,
                        AxisRotation { axis, angle_nanoturns: x as u64 },
                    ));
                    assert(u.update(u.len() - 1, AxisRotation { axis, angle_nanoturns: x as u64 })
                        =~= w);
                } else if merged2 == 0 {
                    assert(apply_rotation(u, axis, a2) == u.drop_last());
                    assert(apply_rotation(w, axis, m) == w.drop_last());
                    assert(u.drop_last() =~= w.drop_last());
                } else {
                    assert(apply_rotation(u, axis, a2) == u.update(
                        u.len() - 1,
                        AxisRotation { axis, angle_nanoturns: merged2 as u64 },
                    ));
                    assert(apply_rotation(w, axis, m) == w.update(
                        w.len() - 1,
                        AxisRotation { axis, angle_nanoturns: merged2 as u64 },
                    ));
                    assert(u.update(
                        u.len() - 1,
                        AxisRotation { axis, angle_nanoturns: merged2 as u64 },
                    ) =~= w.update(
                        w.len() - 1,
                        AxisRotation { axis, angle_nanoturns: merged2 as u64 },
                    ));
                }
            }
        }
    } else {
        let u = w.push(AxisRotation { axis, angle_nanoturns: a1 as u64 });
        assert(u == apply_rotation(w, axis, a1));
        assert(u.last().axis == axis);
        assert(u.last().angle_nanoturns == a1);
        if a2 == 0 {
            assert(m == a1);
            assert(apply_rotation(u, axis, a2) == u);
        } else {
            let merged2 = (a1 + a2) % t;
            if merged2 == 0 {
                assert(apply_rotation(u, axis, a2) == u.drop_last());
                assert(u.drop_last() =~= w);
                assert(apply_rotation(w, axis, m) == w);
            } else {
                assert(apply_rotation(u, axis, a2) == u.update(
                    u.len() - 1,
                    AxisRotation { axis, angle_nanoturns: merged2 as u64 },
                ));
                assert(u.update(u.len() - 1, AxisRotation { axis, angle_nanoturns: merged2 as u64 })
                    =~= w.push(AxisRotation { axis, angle_nanoturns: merged2 as u64 }));
            }
        }
    }
}

/// Law: over any elapsed time the step angle is additive modulo a full
/// turn: the angle covered in `d1 + d2` milliseconds is the reduced sum of
/// the angles covered in `d1` and in `d2`.
pub proof fn lemma_step_angle_additive(speed: int, d1: int, d2: int)
    ensures
        step_angle(speed, d1 + d2) == (step_angle(speed, d1) + step_angle(speed, d2)) % (
        TURN_NANOTURNS as int),
{
    let t = TURN_NANOTURNS as int;
    lemma_mul_is_distributive_add(speed, d1, d2);
    lemma_add_mod_noop(speed * d1, speed * d2, t);
}

/// Law: a spin about a single axis accumulates additively. Advancing an
/// orientation by `d1` milliseconds and then by `d2` gives exactly the
/// orientation of one advance by `d1 + d2` milliseconds, with no drift:
/// many small steps and one large step agree.
pub proof fn lemma_single_axis_accumulation(
    w: Seq<AxisRotation>,
    speed: RotationSpeed,
    d1: int,
    d2: int,
)
    requires
        wf_word(w),
        single_axis(speed),
        0 <= d1,
        0 <= d2,
    ensures
        rotated(rotated(w, speed, d1), speed, d2) == rotated(w, speed, d1 + d2),
{
    let t = TURN_NANOTURNS as int;
    lemma_zero_step_angle(d1);
    lemma_zero_step_angle(d2);
    lemma_zero_step_angle(d1 + d2);
    let (axis, s) = if speed.y == 0 && speed.z == 0 {
        (Axis::X, speed.x as int)
    } else if speed.x == 0 && speed.z == 0 {
        (Axis::Y, speed.y as int)
    } else {
        (Axis::Z, speed.z as int)
    };
    let a1 = step_angle(s, d1);
    let a2 = step_angle(s, d2);
    lemma_mod_bound(s * d1, t);
    lemma_mod_bound(s * d2, t);
    assert(rotated(w, speed, d1) == apply_rotation(w, axis, a1));
    assert(rotated(apply_rotation(w, axis, a1), speed, d2) == apply_rotation(
        apply_rotation(w, axis, a1),
        axis,
        a2,
    ));
    lemma_apply_rotation_twice(w, axis, a1, a2);
    lemma_step_angle_additive(s, d1, d2);
    assert(rotated(w, speed, d1 + d2) == apply_rotation(w, axis, (a1 + a2) % t));
}

/// One frame keeps the orientation word reduced.
pub proof fn lemma_rotated_wf(w: Seq<AxisRotation>, speed: RotationSpeed, delta_ms: int)
    requires
        wf_word(w),
    ensures
        wf_word(rotated(w, speed, delta_ms)),
{
    let t = TURN_NANOTURNS as int;
    lemma_mod_bound(speed.x as int * delta_ms, t);
    lemma_mod_bound(speed.y as int * delta_ms, t);
    lemma_mod_bound(speed.z as int * delta_ms, t);
    let wx = apply_rotation(w, Axis::X, step_angle(speed.x as int, delta_ms));
    let wy = apply_rotation(wx, Axis::Y, step_angle(speed.y as int, delta_ms));
    lemma_apply_rotation_wf(w, Axis::X, step_angle(speed.x as int, delta_ms));
    lemma_apply_rotation_wf(wx, Axis::Y, step_angle(speed.y as int, delta_ms));
    lemma_apply_rotation_wf(wy, Axis::Z, step_angle(speed.z as int, delta_ms));
}

/// The orientation word after a whole run of frames, one elapsed time per
/// frame.
pub open spec fn rotated_over(
    w: Seq<AxisRotation>,
    speed: RotationSpeed,
    deltas_ms: Seq<int>,
) -> Seq<AxisRotation>
    decreases deltas_ms.len(),
{
    if deltas_ms.len() == 0 {
        w
    } else {
        rotated_over(rotated(w, speed, deltas_ms[0]), speed, deltas_ms.drop_first())
    }
}

/// The total elapsed time of a run of frames.
pub open spec fn total_time(deltas_ms: Seq<int>) -> int
    decreases deltas_ms.len(),
{
    if deltas_ms.len() == 0 {
        0int
    } else {
        deltas_ms[0] + total_time(deltas_ms.drop_first())
    }
}

proof fn lemma_total_time_nonneg(deltas_ms: Seq<int>)
    requires
        forall|i: int| 0 <= i < deltas_ms.len() ==> #[trigger] deltas_ms[i] >= 0,
    ensures
        total_time(deltas_ms) >= 0,
    decreases deltas_ms.len(),
{
    if deltas_ms.len() > 0 {
        let rest = deltas_ms.drop_first();
        assert forall|i: int| 0 <= i < rest.len() implies #[trigger] rest[i] >= 0 by {
            assert(rest[i] == deltas_ms[i + 1]);
        }
        lemma_total_time_nonneg(rest);
    }
}

/// Law: a spin about a single axis drifts not at all over a whole run of
/// frames: however the elapsed time is split into frames, the final
/// orientation is that of one frame covering the total time.
pub proof fn lemma_single_axis_run(w: Seq<AxisRotation>, speed: RotationSpeed, deltas_ms: Seq<int>)
    requires
        wf_word(w),
        single_axis(speed),
        forall|i: int| 0 <= i < deltas_ms.len() ==> #[trigger] deltas_ms[i] >= 0,
    ensures
        rotated_over(w, speed, deltas_ms) == rotated(w, speed, total_time(deltas_ms)),
    decreases deltas_ms.len(),
{
    if deltas_ms.len() == 0 {
        lemma_zero_delta_is_noop(w, speed);
    } else {
        let d0 = deltas_ms[0];
        let rest = deltas_ms.drop_first();
        assert forall|i: int| 0 <= i < rest.len() implies #[trigger] rest[i] >= 0 by {
            assert(rest[i] == deltas_ms[i + 1]);
        }
        lemma_rotated_wf(w, speed, d0);
        lemma_single_axis_run(rotated(w, speed, d0), speed, rest);
        lemma_total_time_nonneg(rest);
        lemma_single_axis_accumulation(w, speed, d0, total_time(rest));
    }
}

/// A zero-speed axis covers no angle in any elapsed time.
proof fn lemma_zero_step_angle(delta_ms: int)
    ensures
        step_angle(0, delta_ms) == 0,
{
    assert(0 * delta_ms == 0) by (nonlinear_arith);
    lemma_small_mod(0, TURN_NANOTURNS as nat);
}

/// Law: a frame with zero elapsed time changes no orientation.
pub proof fn lemma_zero_delta_is_noop(w: Seq<AxisRotation>, speed: RotationSpeed)
    ensures
        rotated(w, speed, 0) == w,
{
    assert(speed.x as int * 0 == 0) by (nonlinear_arith);
    assert(speed.y as int * 0 == 0) by (nonlinear_arith);
    assert(speed.z as int * 0 == 0) by (nonlinear_arith);
    lemma_small_mod(0, TURN_NANOTURNS as nat);
}

} // verus!

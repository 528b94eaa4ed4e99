//! Positions and the quartic easing shared by dodges and punches.
//!
//! Coordinates are in thousandths of a pixel. An easing curve is evaluated on
//! the time left in an action: with `t = 1 - remaining / duration`, the curve
//! is `x = (2t - 1)^4`, which runs from 1 down to 0 at mid-action and back to 1.
use vstd::prelude::*;

verus! {

/// Largest magnitude of a coordinate that an actor's origin may have.
pub const COORD_LIMIT: i64 = 1_000_000_000_000_000;

/// Longest action duration, in microseconds, that easing accepts.
pub const MAX_EASE_DURATION: u64 = 10_000_000;

/// Largest amplitude, in thousandths of a pixel, that easing accepts.
pub const MAX_AMPLITUDE: u64 = 1_000_000;

/// Which side an in-progress punch or dodge goes toward.
#[derive(Clone, Copy, Debug, PartialEq, Eq, Structural)]
pub enum ActionDirection {
    Neutral,
    Left,
    Right,
}

/// A position in thousandths of a pixel.
#[derive(Clone, Copy, Debug, PartialEq, Eq, Structural)]
pub struct Point {
    pub x: i64,
    pub y: i64,
    pub z: i64,
}

impl Point {
    pub open spec fn in_bounds(self) -> bool {
        &&& -COORD_LIMIT <= self.x <= COORD_LIMIT
        &&& -COORD_LIMIT <= self.y <= COORD_LIMIT
        &&& -COORD_LIMIT <= self.z <= COORD_LIMIT
    }

    /// This point moved by `dx` across and `dy` up.
    pub open spec fn shifted(self, dx: int, dy: int) -> Point {
        Point { x: (self.x + dx) as i64, y: (self.y + dy) as i64, z: self.z }
    }

    pub fn shift(&self, dx: i64, dy: i64) -> (p: Point)
        requires
            self.in_bounds(),
            -COORD_LIMIT <= dx <= COORD_LIMIT,
            -COORD_LIMIT <= dy <= COORD_LIMIT,
        ensures
            p == self.shifted(dx as int, dy as int),
    {
        Point { x: self.x + dx, y: self.y + dy, z: self.z }
    }
}

/// `magnitude` signed toward `dir`: negative to the left, positive to the
/// right, nothing without a direction.
pub open spec fn toward(dir: ActionDirection, magnitude: int) -> int {
    match dir {
        ActionDirection::Neutral => 0,
        ActionDirection::Left => -magnitude,
        ActionDirection::Right => magnitude,
    }
}

pub open spec fn pow4(n: nat) -> nat {
    n * n * n * n
}

/// `|2 * remaining - duration|`, with `remaining` clamped to `duration`: the
/// easing base `|2t - 1|` scaled by `duration`.
pub open spec fn ease_base(remaining: u64, duration: u64) -> nat {
    let r: int = if remaining <= duration {
        remaining as int
    } else {
        duration as int
    };
    if 2 * r >= duration {
        (2 * r - duration) as nat
    } else {
        (duration - 2 * r) as nat
    }
}

/// `amplitude * x` rounded down, where `x = (2t - 1)^4`.
pub open spec fn quartic_share(remaining: u64, duration: u64, amplitude: u64) -> nat {
    (pow4(ease_base(remaining, duration)) * amplitude / (pow4(duration as nat) as int)) as nat
}

/// `amplitude * (1 - x)` rounded down, where `x = (2t - 1)^4`.
pub open spec fn quartic_complement(remaining: u64, duration: u64, amplitude: u64) -> nat {
    let d4 = pow4(duration as nat) as int;
    ((d4 - pow4(ease_base(remaining, duration))) * amplitude / d4) as nat
}

proof fn lemma_pow4_monotonic(a: nat, b: nat)
    requires
        a <= b,
    ensures
        pow4(a) <= pow4(b),
{
    assert(a * a <= b * b) by (nonlinear_arith)
        requires
            a <= b,
    ;
    assert(a * a * a <= b * b * b) by (nonlinear_arith)
        requires
            a <= b,
            a * a <= b * b,
    ;
    assert(a * a * a * a <= b * b * b * b) by (nonlinear_arith)
        requires
            a <= b,
            a * a * a <= b * b * b,
    ;
}

proof fn lemma_share_bound(n4: nat, d4: nat, amplitude: nat)
    requires
        0 < d4,
        n4 <= d4,
        d4 <= pow4(MAX_EASE_DURATION as nat),
        amplitude <= MAX_AMPLITUDE,
    ensures
        n4 * amplitude <= d4 * amplitude,
        d4 * amplitude <= pow4(MAX_EASE_DURATION as nat) * MAX_AMPLITUDE,
        n4 * amplitude / d4 <= amplitude,
{
    assert(n4 * amplitude <= d4 * amplitude) by (nonlinear_arith)
        requires
            n4 <= d4,
    ;
    assert(d4 * amplitude <= pow4(MAX_EASE_DURATION as nat) * MAX_AMPLITUDE) by (nonlinear_arith)
        requires
            d4 <= pow4(MAX_EASE_DURATION as nat),
            amplitude <= MAX_AMPLITUDE,
    ;
    assert(n4 * amplitude / d4 <= amplitude) by (nonlinear_arith)
        requires
            0 < d4,
            n4 * amplitude <= d4 * amplitude,
    ;
}

fn pow4_exec(n: u64) -> (r: u128)
    requires
        n <= MAX_EASE_DURATION,
    ensures
        r == pow4(n as nat),
        r <= pow4(MAX_EASE_DURATION as nat),
{
    proof {
        lemma_pow4_monotonic(n as nat, MAX_EASE_DURATION as nat);
        assert(n * n <= MAX_EASE_DURATION * MAX_EASE_DURATION) by (nonlinear_arith)
            requires
                n <= MAX_EASE_DURATION,
        ;
        assert(n * n * n <= MAX_EASE_DURATION * MAX_EASE_DURATION * MAX_EASE_DURATION)
            by (nonlinear_arith)
            requires
                n <= MAX_EASE_DURATION,
                n * n <= MAX_EASE_DURATION * MAX_EASE_DURATION,
        ;
    }
    let n = n as u128;
    n * n * n * n
}

/// The easing base `|2 * remaining - duration|`, `remaining` clamped to `duration`.
fn ease_base_exec(remaining: u64, duration: u64) -> (r: u64)
    ensures
        r == ease_base(remaining, duration),
        r <= duration,
{
    let r: u128 = if remaining <= duration {
        remaining as u128
    } else {
        duration as u128
    };
    let d = duration as u128;
    if 2 * r >= d {
        (2 * r - d) as u64
    } else {
        (d - 2 * r) as u64
    }
}

/// `amplitude * (2t - 1)^4`, rounded down.
pub fn ease_share(remaining: u64, duration: u64, amplitude: u64) -> (r: u64)
    requires
        0 < duration <= MAX_EASE_DURATION,
        amplitude <= MAX_AMPLITUDE,
    ensures
        r == quartic_share(remaining, duration, amplitude),
        r <= amplitude,
{
    let n = ease_base_exec(remaining, duration);
    let n4 = pow4_exec(n);
    let d4 = pow4_exec(duration);
    proof {
        lemma_pow4_monotonic(n as nat, duration as nat);
        lemma_pow4_monotonic(1, duration as nat);
        lemma_share_bound(n4 as nat, d4 as nat, amplitude as nat);
    }
    (n4 * amplitude as u128 / d4) as u64
}

/// `amplitude * (1 - (2t - 1)^4)`, rounded down.
pub fn ease_complement(remaining: u64, duration: u64, amplitude: u64) -> (r: u64)
    requires
        0 < duration <= MAX_EASE_DURATION,
        amplitude <= MAX_AMPLITUDE,
    ensures
        r == quartic_complement(remaining, duration, amplitude),
        r <= amplitude,
{
    let n = ease_base_exec(remaining, duration);
    let n4 = pow4_exec(n);
    let d4 = pow4_exec(duration);
    proof {
        lemma_pow4_monotonic(n as nat, duration as nat);
        lemma_pow4_monotonic(1, duration as nat);
        lemma_share_bound((d4 - n4) as nat, d4 as nat, amplitude as nat);
    }
    ((d4 - n4) * amplitude as u128 / d4) as u64
}

} // verus!

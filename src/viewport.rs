use vstd::prelude::*;

use crate::geometry::{ScaleFactor, UVec2};

verus! {

/// A rectangle of a render target, in physical pixels.
#[derive(Clone, Copy, Debug, PartialEq, Eq, Structural)]
pub struct Viewport {
    pub physical_position: UVec2,
    pub physical_size: UVec2,
}

/// One axis of a viewport clamped to `[0, limit)`: an origin at or past the limit moves to
/// the last pixel, with a length of one (or to zero, with length zero, when the limit is
/// zero); otherwise a part that reaches past the limit is cut off.
pub open spec fn clamp_axis(pos: u32, len: u32, limit: u32) -> (u32, u32) {
    if pos >= limit {
        if limit > 0 {
            ((limit - 1) as u32, 1)
        } else {
            (0, 0)
        }
    } else if pos + len > limit {
        (pos, (limit - pos) as u32)
    } else {
        (pos, len)
    }
}

/// `round(n / d)` for a natural `n` and a positive `d`, halves rounded up.
pub open spec fn round_div(n: nat, d: nat) -> nat {
    ((2 * n + d) / (2 * d)) as nat
}

/// A pixel quantity `v` taken from scale `from` to scale `to`: `round(v * to / from)`,
/// saturated at the largest `u32`.
pub open spec fn rescale_spec(v: u32, from: ScaleFactor, to: ScaleFactor) -> u32 {
    let r = round_div(
        v as nat * to.numer() * from.denom(),
        to.denom() * from.numer(),
    );
    if r > u32::MAX {
        u32::MAX
    } else {
        r as u32
    }
}

impl Viewport {
    pub open spec fn clamped_spec(self, size: UVec2) -> Viewport {
        let (px, sx) = clamp_axis(self.physical_position.x, self.physical_size.x, size.x);
        let (py, sy) = clamp_axis(self.physical_position.y, self.physical_size.y, size.y);
        Viewport { physical_position: UVec2 { x: px, y: py }, physical_size: UVec2 { x: sx, y: sy } }
    }

    pub open spec fn rescaled_spec(self, from: ScaleFactor, to: ScaleFactor) -> Viewport {
        Viewport {
            physical_position: UVec2 {
                x: rescale_spec(self.physical_position.x, from, to),
                y: rescale_spec(self.physical_position.y, from, to),
            },
            physical_size: UVec2 {
                x: rescale_spec(self.physical_size.x, from, to),
                y: rescale_spec(self.physical_size.y, from, to),
            },
        }
    }

    /// Shrinks this viewport so that it lies within a target of physical size `size`.
    pub fn clamp_to_size(&mut self, size: UVec2)
        ensures
            *final(self) == old(self).clamped_spec(size),
    {
        let (px, sx) = clamp_axis_exec(self.physical_position.x, self.physical_size.x, size.x);
        let (py, sy) = clamp_axis_exec(self.physical_position.y, self.physical_size.y, size.y);
        self.physical_position = UVec2 { x: px, y: py };
        self.physical_size = UVec2 { x: sx, y: sy };
    }

    /// Rescales position and size from scale factor `from` to `to`, rounding to the nearest
    /// pixel.
    pub fn rescale(&mut self, from: ScaleFactor, to: ScaleFactor)
        ensures
            *final(self) == old(self).rescaled_spec(from, to),
    {
        self.physical_position = UVec2 {
            x: rescale(self.physical_position.x, from, to),
            y: rescale(self.physical_position.y, from, to),
        };
        self.physical_size = UVec2 {
            x: rescale(self.physical_size.x, from, to),
            y: rescale(self.physical_size.y, from, to),
        };
    }
}

fn clamp_axis_exec(pos: u32, len: u32, limit: u32) -> (r: (u32, u32))
    ensures
        r == clamp_axis(pos, len, limit),
{
    if pos >= limit {
        if limit > 0 {
            (limit - 1, 1)
        } else {
            (0, 0)
        }
    } else if pos as u64 + len as u64 > limit as u64 {
        (pos, limit - pos)
    } else {
        (pos, len)
    }
}

/// `v` taken from scale `from` to scale `to`, rounded to the nearest integer.
pub fn rescale(v: u32, from: ScaleFactor, to: ScaleFactor) -> (r: u32)
    ensures
        r == rescale_spec(v, from, to),
{
    let tn = to.num() as u128;
    let td = to.den() as u128;
    let fnum = from.num() as u128;
    let fd = from.den() as u128;
    let v128 = v as u128;
    proof {
        assert(v128 * tn <= 0xffff_ffffu128 * 0xffff_ffffu128) by (nonlinear_arith)
            requires
                v128 <= 0xffff_ffff,
                tn <= 0xffff_ffff,
        ;
        assert(v128 * tn * fd <= 0xffff_ffffu128 * 0xffff_ffffu128 * 0xffff_ffffu128)
            by (nonlinear_arith)
            requires
                v128 * tn <= 0xffff_ffffu128 * 0xffff_ffffu128,
                fd <= 0xffff_ffff,
        ;
        assert(td * fnum <= 0xffff_ffffu128 * 0xffff_ffffu128) by (nonlinear_arith)
            requires
                td <= 0xffff_ffff,
                fnum <= 0xffff_ffff,
        ;
        assert(td * fnum > 0) by (nonlinear_arith)
            requires
                td > 0,
                fnum > 0,
        ;
    }
    let n = v128 * tn * fd;
    let d = td * fnum;
    let q = (2 * n + d) / (2 * d);
    if q > u32::MAX as u128 {
        u32::MAX
    } else {
        q as u32
    }
}

/// A clamped viewport lies within its target: it ends at or before the target's edge, and
/// on a target that is not empty it starts inside the target.
pub proof fn lemma_clamped_within(v: Viewport, size: UVec2)
    ensures
        v.clamped_spec(size).physical_position.x + v.clamped_spec(size).physical_size.x <= size.x,
        v.clamped_spec(size).physical_position.y + v.clamped_spec(size).physical_size.y <= size.y,
        size.x > 0 ==> v.clamped_spec(size).physical_position.x < size.x,
        size.y > 0 ==> v.clamped_spec(size).physical_position.y < size.y,
        size.x == 0 ==> v.clamped_spec(size).physical_position.x == 0,
        size.y == 0 ==> v.clamped_spec(size).physical_position.y == 0,
{
}

} // verus!

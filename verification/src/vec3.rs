//! Three-component vectors of exact rationals, and the axis-aligned unit
//! normals the boundary geometry is restricted to.

use vstd::prelude::*;
use crate::rational::{Rat, spec_add, spec_mul};

verus! {

/// One of the three coordinate axes.
#[derive(Clone, Copy, PartialEq, Eq, Structural, Debug)]
pub enum Axis {
    X,
    Y,
    Z,
}

/// A vector of exact rational components.
#[derive(Clone, Copy, PartialEq, Eq, Structural, Debug)]
pub struct Vec3r {
    pub x: Rat,
    pub y: Rat,
    pub z: Rat,
}

impl Vec3r {
    /// All three components are well-formed rationals.
    pub open spec fn wf(self) -> bool {
        self.x.wf() && self.y.wf() && self.z.wf()
    }

    /// The component on the given axis, at the specification level.
    pub open spec fn spec_comp(self, a: Axis) -> Rat {
        match a {
            Axis::X => self.x,
            Axis::Y => self.y,
            Axis::Z => self.z,
        }
    }

    /// The vector with the component on the given axis replaced, at the
    /// specification level.
    pub open spec fn spec_with_comp(self, a: Axis, r: Rat) -> Vec3r {
        match a {
            Axis::X => Vec3r { x: r, ..self },
            Axis::Y => Vec3r { y: r, ..self },
            Axis::Z => Vec3r { z: r, ..self },
        }
    }

    /// Builds a vector from its components.
    pub fn new(x: Rat, y: Rat, z: Rat) -> (r: Vec3r)
        ensures
            r == (Vec3r { x, y, z }),
    {
        Vec3r { x, y, z }
    }

    /// The zero vector.
    pub fn zero() -> (r: Vec3r)
        ensures
            r == spec_zero3(),
            r.wf(),
    {
        let o = Rat::zero();
        Vec3r { x: o, y: o, z: o }
    }

    /// The component on the given axis.
    pub fn comp(&self, a: Axis) -> (r: Rat)
        ensures
            r == self.spec_comp(a),
    {
        match a {
            Axis::X => self.x,
            Axis::Y => self.y,
            Axis::Z => self.z,
        }
    }

    /// The vector with the component on the given axis replaced.
    pub fn with_comp(self, a: Axis, r: Rat) -> (v: Vec3r)
        ensures
            v == self.spec_with_comp(a, r),
    {
        match a {
            Axis::X => Vec3r { x: r, ..self },
            Axis::Y => Vec3r { y: r, ..self },
            Axis::Z => Vec3r { z: r, ..self },
        }
    }

    /// Checked component-wise sum: `Some` exactly when every component's
    /// reduced sum fits.
    pub fn checked_add(self, other: Vec3r) -> (r: Option<Vec3r>)
        requires
            self.wf(),
            other.wf(),
        ensures
            r == spec_vadd(self, other),
            r matches Some(v) ==> v.wf(),
    {
        let x = match self.x.checked_add(other.x) {
            Some(c) => c,
            None => {
                return None;
            },
        };
        let y = match self.y.checked_add(other.y) {
            Some(c) => c,
            None => {
                return None;
            },
        };
        let z = match self.z.checked_add(other.z) {
            Some(c) => c,
            None => {
                return None;
            },
        };
        Some(Vec3r { x, y, z })
    }

    /// Checked scaling by a rational factor: `Some` exactly when every
    /// component's reduced product fits.
    pub fn checked_scale(self, s: Rat) -> (r: Option<Vec3r>)
        requires
            self.wf(),
            s.wf(),
        ensures
            r == spec_vscale(self, s),
            r matches Some(v) ==> v.wf(),
    {
        let x = match self.x.checked_mul(s) {
            Some(c) => c,
            None => {
                return None;
            },
        };
        let y = match self.y.checked_mul(s) {
            Some(c) => c,
            None => {
                return None;
            },
        };
        let z = match self.z.checked_mul(s) {
            Some(c) => c,
            None => {
                return None;
            },
        };
        Some(Vec3r { x, y, z })
    }
}

/// The zero vector at the specification level.
pub open spec fn spec_zero3() -> Vec3r {
    Vec3r { x: Rat { num: 0, den: 1 }, y: Rat { num: 0, den: 1 }, z: Rat { num: 0, den: 1 } }
}

/// Component-wise reduced sum of two vectors, or `None` when a component
/// overflows.
pub open spec fn spec_vadd(a: Vec3r, b: Vec3r) -> Option<Vec3r> {
    match (spec_add(a.x, b.x), spec_add(a.y, b.y), spec_add(a.z, b.z)) {
        (Some(x), Some(y), Some(z)) => Some(Vec3r { x, y, z }),
        _ => None,
    }
}

/// Reduced scaling of a vector by a rational factor, or `None` when a
/// component overflows.
pub open spec fn spec_vscale(a: Vec3r, s: Rat) -> Option<Vec3r> {
    match (spec_mul(a.x, s), spec_mul(a.y, s), spec_mul(a.z, s)) {
        (Some(x), Some(y), Some(z)) => Some(Vec3r { x, y, z }),
        _ => None,
    }
}

} // verus!

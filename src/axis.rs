use vstd::prelude::*;

verus! {

/// One of the three coordinate axes, about which a rotation is composed.
///
/// The numbering is fixed: 0 is x, 1 is y, 2 is z.
#[derive(Clone, Copy, Debug, PartialEq, Eq, Structural)]
pub enum Axis {
    X,
    Y,
    Z,
}

/// The number of an axis.
pub open spec fn axis_index(a: Axis) -> nat {
    match a {
        Axis::X => 0,
        Axis::Y => 1,
        Axis::Z => 2,
    }
}

/// The two rows `(p, q)` of a rotation matrix that a rotation about `a`
/// blends, in the order that makes the rotation follow the right-hand rule:
/// the rotation by `t` about `a` maps row `p` to `cos t * p - sin t * q`
/// and row `q` to `sin t * p + cos t * q`, and leaves every other row alone.
/// About x that turns y toward z, about y z toward x, about z x toward y.
pub open spec fn plane_rows(a: Axis) -> (nat, nat) {
    match a {
        Axis::X => (1, 2),
        Axis::Y => (2, 0),
        Axis::Z => (0, 1),
    }
}

impl Axis {
    /// The axis with the given number, if there is one.
    pub fn from_index(i: usize) -> (r: Option<Axis>)
        ensures
            r is Some <==> i < 3,
            r matches Some(a) ==> axis_index(a) == i,
    {
        if i == 0 {
            Some(Axis::X)
        } else if i == 1 {
            Some(Axis::Y)
        } else if i == 2 {
            Some(Axis::Z)
        } else {
            None
        }
    }

    /// The number of this axis.
    pub fn index(self) -> (r: usize)
        ensures
            r == axis_index(self),
    {
        match self {
            Axis::X => 0,
            Axis::Y => 1,
            Axis::Z => 2,
        }
    }

    /// The two matrix rows that a rotation about this axis rewrites; see
    /// [`plane_rows`].
    pub fn rotation_rows(self) -> (r: (usize, usize))
        ensures
            r.0 == plane_rows(self).0,
            r.1 == plane_rows(self).1,
            r.0 < 3 && r.1 < 3,
            r.0 != r.1,
            r.0 != axis_index(self) && r.1 != axis_index(self),
    {
        match self {
            Axis::X => (1, 2),
            Axis::Y => (2, 0),
            Axis::Z => (0, 1),
        }
    }
}

} // verus!

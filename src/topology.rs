use vstd::prelude::*;

verus! {

/// How a shape's vertex list is assembled into primitives.
#[derive(Clone, Copy, Debug, PartialEq, Eq, Structural)]
pub enum Topology {
    Points,
    LinesList,
    LineStrip,
    LineLoop,
    TrianglesList,
    TriangleStrip,
    TriangleFan,
}

/// The fewest vertices that make one primitive of `t`.
pub open spec fn min_vertices(t: Topology) -> nat {
    match t {
        Topology::Points => 1,
        Topology::LinesList | Topology::LineStrip | Topology::LineLoop => 2,
        Topology::TrianglesList | Topology::TriangleStrip | Topology::TriangleFan => 3,
    }
}

/// The number of vertices that each primitive of `t` takes on its own: a
/// list is made of whole primitives, a strip, loop or fan shares vertices.
pub open spec fn group_size(t: Topology) -> nat {
    match t {
        Topology::LinesList => 2,
        Topology::TrianglesList => 3,
        _ => 1,
    }
}

/// A vertex list of length `len` is compatible with `t`: it makes at least one
/// primitive, and a list holds whole primitives only.
pub open spec fn accepts(t: Topology, len: nat) -> bool {
    len >= min_vertices(t) && len % group_size(t) == 0
}

impl Topology {
    /// Whether a vertex list of length `len` is compatible with this topology.
    pub fn accepts(self, len: usize) -> (r: bool)
        ensures
            r == accepts(self, len as nat),
    {
        match self {
            Topology::Points => len >= 1,
            Topology::LinesList => len >= 2 && len % 2 == 0,
            Topology::LineStrip | Topology::LineLoop => len >= 2,
            Topology::TrianglesList => len >= 3 && len % 3 == 0,
            Topology::TriangleStrip | Topology::TriangleFan => len >= 3,
        }
    }
}

} // verus!

//! The wireframe cube as a table: eight corners and the twelve edges
//! that join them. Turning and projecting it is left to the drawing side.

use vstd::prelude::*;

verus! {

/// The corners of the cube.
pub const CORNERS: usize = 8;

/// The edges of the cube.
pub const EDGES: usize = 12;

/// A corner of the cube that spans from -1 to 1 on every axis.
#[derive(Clone, Copy, Debug, PartialEq, Eq, Structural)]
pub struct Corner {
    pub x: i8,
    pub y: i8,
    pub z: i8,
}

/// The corner with the number `i`: the front face first, counted round
/// from the corner at -1 on every axis, then the back face likewise.
pub open spec fn corner_at(i: int) -> Corner {
    Corner {
        x: if i % 4 == 1 || i % 4 == 2 {
            1i8
        } else {
            -1i8
        },
        y: if i % 4 >= 2 {
            1i8
        } else {
            -1i8
        },
        z: if i >= 4 {
            1i8
        } else {
            -1i8
        },
    }
}

/// The edge with the number `k`, as the numbers of its two corners: the
/// four edges of the front face, the four of the back face, then the
/// four that join the faces.
pub open spec fn edge_at(k: int) -> (int, int) {
    if k < 4 {
        (k, (k + 1) % 4)
    } else if k < 8 {
        (k, 4 + (k + 1) % 4)
    } else {
        (k - 8, k - 4)
    }
}

/// The number of axes on which two corners differ.
pub open spec fn axes_apart(a: Corner, b: Corner) -> int {
    (if a.x != b.x {
        1int
    } else {
        0
    }) + (if a.y != b.y {
        1int
    } else {
        0
    }) + (if a.z != b.z {
        1int
    } else {
        0
    })
}

/// The corner with the number `i`.
pub fn corner(i: usize) -> (c: Corner)
    requires
        i < CORNERS,
    ensures
        c == corner_at(i as int),
        (c.x == 1 || c.x == -1) && (c.y == 1 || c.y == -1) && (c.z == 1 || c.z == -1),
{
    let round = i % 4;
    Corner {
        x: if round == 1 || round == 2 {
            1
        } else {
            -1
        },
        y: if round >= 2 {
            1
        } else {
            -1
        },
        z: if i >= 4 {
            1
        } else {
            -1
        },
    }
}

/// The edge with the number `k`, as the numbers of its two corners.
pub fn edge(k: usize) -> (e: (usize, usize))
    requires
        k < EDGES,
    ensures
        (e.0 as int, e.1 as int) == edge_at(k as int),
        e.0 < CORNERS,
        e.1 < CORNERS,
        e.0 != e.1,
{
    if k < 4 {
        (k, (k + 1) % 4)
    } else if k < 8 {
        (k, 4 + (k + 1) % 4)
    } else {
        (k - 8, k - 4)
    }
}

/// The eight corners are the eight points with a coordinate of 1 or -1
/// on every axis, each of them once.
pub proof fn lemma_corners_are_distinct(i: int, j: int)
    requires
        0 <= i < CORNERS,
        0 <= j < CORNERS,
        i != j,
    ensures
        corner_at(i) != corner_at(j),
{
}

/// The edges are exactly the pairs of corners that differ on one axis:
/// every edge joins two such corners, and any two such corners are
/// joined by an edge.
pub proof fn lemma_edges_join_neighbours()
    ensures
        forall|k: int|
            0 <= k < EDGES ==> axes_apart(
                corner_at((#[trigger] edge_at(k)).0),
                corner_at(edge_at(k).1),
            ) == 1,
        forall|i: int, j: int|
            0 <= i < CORNERS && 0 <= j < CORNERS && axes_apart(
                #[trigger] corner_at(i),
                #[trigger] corner_at(j),
            ) == 1 ==> exists|k: int|
                0 <= k < EDGES && (#[trigger] edge_at(k) == (i, j) || edge_at(k) == (j, i)),
{
    assert forall|i: int, j: int|
        0 <= i < CORNERS && 0 <= j < CORNERS && axes_apart(
            #[trigger] corner_at(i),
            #[trigger] corner_at(j),
        ) == 1 implies exists|k: int|
        0 <= k < EDGES && (#[trigger] edge_at(k) == (i, j) || edge_at(k) == (j, i)) by {
        let lo = if i < j {
            i
        } else {
            j
        };
        let hi = if i < j {
            j
        } else {
            i
        };
        let k = if hi == lo + 4 {
            lo + 8
        } else if hi == lo + 1 {
            lo
        } else if lo < 4 {
            3
        } else {
            7
        };
        assert(0 <= k < EDGES);
        assert(edge_at(k) == (i, j) || edge_at(k) == (j, i));
    }
}

} // verus!

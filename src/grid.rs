//! Dense storage of node values, and the four corners around a query point.

use vstd::prelude::*;
use crate::axis::{locate, located, Bracket, Ratio};

verus! {

/// `iy * nx + ix` addresses a node of an `nx` by `ny` grid, and no two nodes
/// share an address.
proof fn lemma_row_major(nx: int, ny: int, ix: int, iy: int, jx: int, jy: int)
    requires
        0 <= ix < nx,
        0 <= iy < ny,
        0 <= jx < nx,
        0 <= jy < ny,
    ensures
        0 <= iy * nx + ix < nx * ny,
        (ix != jx || iy != jy) ==> iy * nx + ix != jy * nx + jx,
{
    assert(0 <= iy * nx + ix < nx * ny) by (nonlinear_arith)
        requires
            0 <= ix < nx,
            0 <= iy < ny,
    ;
    if iy < jy {
        assert(iy * nx + ix < jy * nx + jx) by (nonlinear_arith)
            requires
                0 <= ix < nx,
                0 <= jx,
                iy < jy,
        ;
    } else if jy < iy {
        assert(jy * nx + jx < iy * nx + ix) by (nonlinear_arith)
            requires
                0 <= jx < nx,
                0 <= ix,
                jy < iy,
        ;
    }
}

/// The values at the nodes of a regular grid of `nx` by `ny` nodes, stored in
/// one row-major array: node `(ix, iy)` sits at `iy * nx + ix`.
pub struct Grid<V> {
    nx: usize,
    ny: usize,
    data: Vec<V>,
}

/// The four node values around a query point, with the brackets they came
/// from. The first digit names the x side, the second the y side; `1` is the
/// low index of a bracket, `2` the high one.
#[derive(Debug, PartialEq)]
pub struct Cell<V> {
    pub x: Bracket,
    pub y: Bracket,
    pub f11: V,
    pub f12: V,
    pub f21: V,
    pub f22: V,
}

impl<V: Copy> Grid<V> {
    /// Nodes along x.
    pub closed spec fn width(&self) -> nat {
        self.nx as nat
    }

    /// Nodes along y.
    pub closed spec fn height(&self) -> nat {
        self.ny as nat
    }

    /// The value stored at node `(ix, iy)`.
    pub closed spec fn at(&self, ix: int, iy: int) -> V {
        self.data@[iy * self.nx + ix]
    }

    /// At least one node on each axis, and one stored value per node.
    pub closed spec fn wf(&self) -> bool {
        &&& self.nx >= 1
        &&& self.ny >= 1
        &&& self.nx * self.ny <= usize::MAX
        &&& self.data@.len() == self.nx * self.ny
    }

    /// Whether `(ix, iy)` is a node of the grid.
    pub open spec fn in_grid(&self, ix: int, iy: int) -> bool {
        0 <= ix < self.width() && 0 <= iy < self.height()
    }

    /// `self` is `prev` with `v` written at node `(ix, iy)`: same extents,
    /// that node holds `v`, every other node is as it was.
    pub open spec fn is_write_of(&self, prev: &Self, ix: int, iy: int, v: V) -> bool {
        &&& self.width() == prev.width()
        &&& self.height() == prev.height()
        &&& self.at(ix, iy) == v
        &&& forall|jx: int, jy: int|
            #![trigger self.at(jx, jy)]
            self.in_grid(jx, jy) && (jx != ix || jy != iy) ==> self.at(jx, jy) == prev.at(jx, jy)
    }

    /// The corners around the point whose positions on the two axes are `rx`
    /// and `ry`; `None` when either position is undefined or off the grid.
    pub open spec fn cell_of(&self, rx: Option<Ratio>, ry: Option<Ratio>) -> Option<Cell<V>> {
        match (located(rx, self.width() as int), located(ry, self.height() as int)) {
            (Some(bx), Some(by)) => Some(
                Cell {
                    x: bx,
                    y: by,
                    f11: self.at(bx.lo as int, by.lo as int),
                    f12: self.at(bx.lo as int, by.hi as int),
                    f21: self.at(bx.hi as int, by.lo as int),
                    f22: self.at(bx.hi as int, by.hi as int),
                },
            ),
            _ => None,
        }
    }

    /// A grid of `nx` by `ny` nodes, each holding `fill`.
    pub fn new(nx: usize, ny: usize, fill: V) -> (g: Self)
        requires
            nx >= 1,
            ny >= 1,
            nx * ny <= usize::MAX,
        ensures
            g.wf(),
            g.width() == nx,
            g.height() == ny,
            forall|ix: int, iy: int| #![trigger g.at(ix, iy)] g.in_grid(ix, iy) ==> g.at(ix, iy) == fill,
    {
        let total: usize = nx * ny;
        let mut data: Vec<V> = Vec::new();
        let mut i: usize = 0;
        while i < total
            invariant
                i <= total,
                data@.len() == i,
                forall|k: int| 0 <= k < i ==> data@[k] == fill,
            decreases total - i,
        {
            data.push(fill);
            i = i + 1;
        }
        let g = Grid { nx, ny, data };
        assert forall|ix: int, iy: int| #![trigger g.at(ix, iy)] g.in_grid(ix, iy) implies g.at(ix, iy) == fill by {
            lemma_row_major(nx as int, ny as int, ix, iy, ix, iy);
        }
        g
    }

    /// The extents `(nx, ny)`.
    pub fn dimensions(&self) -> (r: (usize, usize))
        ensures
            r.0 == self.width(),
            r.1 == self.height(),
    {
        (self.nx, self.ny)
    }

    fn index(&self, ix: usize, iy: usize) -> (r: usize)
        requires
            self.wf(),
            self.in_grid(ix as int, iy as int),
        ensures
            r == iy * self.nx + ix,
            r < self.data@.len(),
    {
        proof {
            lemma_row_major(self.nx as int, self.ny as int, ix as int, iy as int, ix as int, iy as int);
        }
        iy * self.nx + ix
    }

    /// The value stored at node `(ix, iy)`.
    pub fn get(&self, ix: usize, iy: usize) -> (v: V)
        requires
            self.wf(),
            self.in_grid(ix as int, iy as int),
        ensures
            v == self.at(ix as int, iy as int),
    {
        self.data[self.index(ix, iy)]
    }

    /// Writes `value` at node `(ix, iy)`; a later write to the node replaces it.
    pub fn insert(&mut self, ix: usize, iy: usize, value: V)
        requires
            old(self).wf(),
            old(self).in_grid(ix as int, iy as int),
        ensures
            final(self).wf(),
            final(self).is_write_of(old(self), ix as int, iy as int, value),
    {
        let idx = self.index(ix, iy);
        self.data.set(idx, value);
        proof {
            let g = &*self;
            assert forall|jx: int, jy: int|
                #![trigger g.at(jx, jy)]
                g.in_grid(jx, jy) && (jx != ix || jy != iy) implies g.at(jx, jy) == old(self).at(jx, jy) by {
                lemma_row_major(g.nx as int, g.ny as int, jx, jy, ix as int, iy as int);
            }
        }
    }

    /// The corners around the point whose positions on the two axes are `rx`
    /// and `ry`, or `None` when the point is not covered by the grid.
    pub fn cell(&self, rx: Option<Ratio>, ry: Option<Ratio>) -> (res: Option<Cell<V>>)
        requires
            self.wf(),
        ensures
            res == self.cell_of(rx, ry),
    {
        let bx = match locate(rx, self.nx) {
            Some(b) => b,
            None => return None,
        };
        let by = match locate(ry, self.ny) {
            Some(b) => b,
            None => return None,
        };
        Some(Cell {
            x: bx,
            y: by,
            f11: self.get(bx.lo, by.lo),
            f12: self.get(bx.lo, by.hi),
            f21: self.get(bx.hi, by.lo),
            f22: self.get(bx.hi, by.hi),
        })
    }
}

/// A node that was written is read back exactly: at the position of node
/// `(ix, iy)` on both axes the cell is that node alone, and all four corners
/// hold the value written there.
pub proof fn lemma_written_node_exact<V: Copy>(prev: Grid<V>, g: Grid<V>, ix: int, iy: int, v: V)
    requires
        g.wf(),
        g.is_write_of(&prev, ix, iy, v),
        g.in_grid(ix, iy),
        ix <= i64::MAX,
        iy <= i64::MAX,
    ensures
        g.cell_of(Some(Ratio { floor: ix as i64, exact: true }), Some(Ratio { floor: iy as i64, exact: true }))
            == Some(
            Cell {
                x: Bracket { lo: ix as usize, hi: ix as usize },
                y: Bracket { lo: iy as usize, hi: iy as usize },
                f11: v,
                f12: v,
                f21: v,
                f22: v,
            },
        ),
{
}

/// A point below the origin or beyond the last node on either axis has no
/// cell.
pub proof fn lemma_off_grid<V: Copy>(g: Grid<V>, rx: Ratio, ry: Ratio)
    requires
        rx.floor < 0 || rx.floor > g.width() - 1 || (rx.floor == g.width() - 1 && !rx.exact)
            || ry.floor < 0 || ry.floor > g.height() - 1 || (ry.floor == g.height() - 1 && !ry.exact),
    ensures
        g.cell_of(Some(rx), Some(ry)) == None::<Cell<V>>,
{
}

/// A point whose position on either axis is undefined (as when that axis's
/// step is degenerate) has no cell.
pub proof fn lemma_undefined_position<V: Copy>(g: Grid<V>, rx: Option<Ratio>, ry: Option<Ratio>)
    requires
        rx is None || ry is None,
    ensures
        g.cell_of(rx, ry) == None::<Cell<V>>,
{
}

} // verus!

//! Bracketing of a position on one axis between two grid nodes.

use vstd::prelude::*;

verus! {

/// Where a coordinate lies on one axis, in units of the step and measured
/// from the origin: the floor of that ratio, and whether the ratio is a whole
/// number (the coordinate sits exactly on a node).
#[derive(Clone, Copy, Debug, PartialEq, Eq)]
pub struct Ratio {
    pub floor: i64,
    pub exact: bool,
}

/// The two node indices on one axis that enclose a coordinate, `lo <= hi`.
/// On a node both are that node's index; between nodes `hi == lo + 1`.
#[derive(Clone, Copy, Debug, PartialEq, Eq)]
pub struct Bracket {
    pub lo: usize,
    pub hi: usize,
}

/// A ratio lies within an axis of `n` nodes when `0 <= ratio <= n - 1`.
/// Both ends are inclusive.
pub open spec fn covers(r: Ratio, n: int) -> bool {
    &&& 0 <= r.floor
    &&& (r.floor < n - 1 || (r.floor == n - 1 && r.exact))
}

/// The nodes that enclose a covered ratio: the node itself when the ratio is
/// exact, else the node below and the one above.
pub open spec fn bracket_of(r: Ratio) -> Bracket {
    Bracket {
        lo: r.floor as usize,
        hi: (if r.exact { r.floor as int } else { r.floor + 1 }) as usize,
    }
}

/// The bracket of a position on an axis of `n` nodes; `None` when the position
/// is undefined (no ratio) or lies outside the axis.
pub open spec fn located(ratio: Option<Ratio>, n: int) -> Option<Bracket> {
    match ratio {
        Some(r) => if covers(r, n) {
            Some(bracket_of(r))
        } else {
            None
        },
        None => None,
    }
}

/// Brackets a position between the nodes of an axis of `n` nodes.
pub fn locate(ratio: Option<Ratio>, n: usize) -> (res: Option<Bracket>)
    ensures
        res == located(ratio, n as int),
        res matches Some(b) ==> b.lo <= b.hi < n && b.hi <= b.lo + 1,
{
    match ratio {
        None => None,
        Some(r) => {
            if r.floor < 0 || n == 0 {
                return None;
            }
            let k: u64 = r.floor as u64;
            let last: u64 = (n - 1) as u64;
            if k < last {
                let lo: usize = k as usize;
                if r.exact {
                    Some(Bracket { lo, hi: lo })
                } else {
                    Some(Bracket { lo, hi: lo + 1 })
                }
            } else if k == last && r.exact {
                let lo: usize = k as usize;
                Some(Bracket { lo, hi: lo })
            } else {
                None
            }
        },
    }
}

/// The last node of an axis is covered, and resolves to itself; one step
/// beyond it nothing is.
pub proof fn lemma_last_node_covered(n: usize)
    requires
        1 <= n < i64::MAX,
    ensures
        located(Some(Ratio { floor: (n - 1) as i64, exact: true }), n as int)
            == Some(Bracket { lo: (n - 1) as usize, hi: (n - 1) as usize }),
        located(Some(Ratio { floor: n as i64, exact: true }), n as int) == None::<Bracket>,
{
}

} // verus!

use vstd::prelude::*;

use crate::geom::Coord;
use crate::geom::Quadric;

verus! {

/// A queue entry: the id of a pair and a snapshot of its heap key at the
/// time it was pushed. The key is the monotone integer image of the
/// pair's cost (see [`crate::geom::spec_order_key`]); the queue pops the
/// smallest key first.
#[derive(Clone, Copy, PartialEq, Eq, Structural, Debug)]
pub struct PairInfo {
    pub id: usize,
    pub value: u64,
}

/// One evaluation of a candidate pair, computed by the caller: the summed
/// quadric of the two endpoints, the optimal contraction point, and the
/// cost's bit pattern.
#[derive(Clone, Copy, PartialEq, Eq, Debug)]
pub struct PairEval {
    pub q_matrix: Quadric,
    pub best_point: Coord,
    pub shrink_value: u64,
}

/// A candidate contraction: two distinct vertex ids, the cached summed
/// quadric, optimal point and cost of their merge, a validity flag, and
/// an access flag that marks the cached values stale after an endpoint
/// was rewritten.
pub struct Pair {
    pub valid: bool,
    pub access: bool,
    pub first: usize,
    pub second: usize,
    pub shrink_value: u64,
    pub q_matrix: Quadric,
    pub best_point: Coord,
}

impl Pair {
    pub fn new(first: usize, second: usize) -> (r: Pair)
        ensures
            r.valid,
            !r.access,
            r.first == first,
            r.second == second,
            r.shrink_value == 0u64,
            forall|i: int| 0 <= i < 16 ==> r.q_matrix.m@[i] == 0u64,
            r.best_point == (Coord { x: 0u64, y: 0u64, z: 0u64 }),
    {
        Pair {
            valid: true,
            access: false,
            first,
            second,
            shrink_value: 0,
            q_matrix: Quadric::zero(),
            best_point: Coord::zero(),
        }
    }

    pub fn get_vertex(&self) -> (r: (usize, usize))
        ensures
            r.0 == self.first,
            r.1 == self.second,
    {
        (self.first, self.second)
    }

    pub fn get_value(&self) -> (r: u64)
        ensures
            r == self.shrink_value,
    {
        self.shrink_value
    }

    pub fn get_best_point(&self) -> (r: Coord)
        ensures
            r == self.best_point,
    {
        self.best_point
    }

    /// Install a caller-computed evaluation: the summed quadric, the best
    /// point and the cost, and mark the cache fresh.
    pub fn set_eval(&mut self, eval: &PairEval)
        ensures
            final(self).valid == old(self).valid,
            !final(self).access,
            final(self).first == old(self).first,
            final(self).second == old(self).second,
            final(self).q_matrix == eval.q_matrix,
            final(self).best_point == eval.best_point,
            final(self).shrink_value == eval.shrink_value,
    {
        self.q_matrix = eval.q_matrix;
        self.best_point = eval.best_point;
        self.shrink_value = eval.shrink_value;
        self.access = false;
    }

    pub fn destroy(&mut self)
        ensures
            !final(self).valid,
            final(self).access == old(self).access,
            final(self).first == old(self).first,
            final(self).second == old(self).second,
            final(self).shrink_value == old(self).shrink_value,
            final(self).q_matrix == old(self).q_matrix,
            final(self).best_point == old(self).best_point,
    {
        self.valid = false;
    }

    /// Rewrite the endpoint in slot `pos` (1 for `first`, 2 for `second`)
    /// to the vertex id `code`, marking the cached values stale. Returns
    /// whether the two endpoints are still distinct; a pair whose
    /// endpoints coincide must be destroyed by the caller.
    pub fn set_vertex(&mut self, pos: &usize, code: usize) -> (r: bool)
        requires
            *pos == 1 || *pos == 2,
        ensures
            final(self).access,
            final(self).valid == old(self).valid,
            final(self).shrink_value == old(self).shrink_value,
            final(self).q_matrix == old(self).q_matrix,
            final(self).best_point == old(self).best_point,
            *pos == 1 ==> final(self).first == code && final(self).second == old(self).second,
            *pos == 2 ==> final(self).second == code && final(self).first == old(self).first,
            r == (final(self).first != final(self).second),
    {
        self.access = true;
        if *pos == 1 {
            self.first = code;
            if self.second != code {
                return true;
            }
        } else {
            self.second = code;
            if self.first != code {
                return true;
            }
        }
        false
    }

    pub fn access(&self) -> (r: bool)
        ensures
            r == self.access,
    {
        self.access
    }

    pub fn valid(&self) -> (r: bool)
        ensures
            r == self.valid,
    {
        self.valid
    }

    pub fn clear_access(&mut self)
        ensures
            !final(self).access,
            final(self).valid == old(self).valid,
            final(self).first == old(self).first,
            final(self).second == old(self).second,
            final(self).shrink_value == old(self).shrink_value,
            final(self).q_matrix == old(self).q_matrix,
            final(self).best_point == old(self).best_point,
    {
        self.access = false;
    }
}

} // verus!

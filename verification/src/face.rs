use vstd::prelude::*;

use crate::geom::Quadric;

verus! {

/// A triangle of the mesh: three vertex ids, the face's fundamental
/// quadric, and a validity flag. A face dies when a contraction collapses
/// two of its corners.
pub struct Face {
    pub valid: bool,
    pub indices: [usize; 3],
    pub k_p: Quadric,
}

impl Face {
    pub fn new(a: usize, b: usize, c: usize, k_p: Quadric) -> (r: Face)
        ensures
            r.valid,
            r.indices@ == seq![a, b, c],
            r.k_p == k_p,
    {
        Face { valid: true, indices: [a, b, c], k_p }
    }

    pub fn destroy(&mut self)
        ensures
            !final(self).valid,
            final(self).indices == old(self).indices,
            final(self).k_p == old(self).k_p,
    {
        self.valid = false;
    }

    /// Rewrite the corner `slot` to the vertex id `id`.
    pub fn set_index(&mut self, slot: usize, id: usize)
        requires
            slot < 3,
        ensures
            final(self).indices@ == old(self).indices@.update(slot as int, id),
            final(self).valid == old(self).valid,
            final(self).k_p == old(self).k_p,
    {
        let i0 = if slot == 0 {
            id
        } else {
            self.indices[0]
        };
        let i1 = if slot == 1 {
            id
        } else {
            self.indices[1]
        };
        let i2 = if slot == 2 {
            id
        } else {
            self.indices[2]
        };
        self.indices = [i0, i1, i2];
        proof {
            assert(self.indices@ =~= old(self).indices@.update(slot as int, id));
        }
    }

    pub fn valid(&self) -> (r: bool)
        ensures
            r == self.valid,
    {
        self.valid
    }

    /// Whether one of the two corners other than `except` holds the vertex
    /// id `idx`: the test for a triangle that a contraction degenerates.
    pub fn both_in(&self, except: &usize, idx: &usize) -> (r: bool)
        requires
            *except < 3,
        ensures
            r == (self.indices@[((*except + 1) % 3) as int] == *idx || self.indices@[((*except + 2)
                % 3) as int] == *idx),
    {
        if self.indices[(*except + 1) % 3] == *idx {
            return true;
        }
        if self.indices[(*except + 2) % 3] == *idx {
            return true;
        }
        false
    }
}

} // verus!

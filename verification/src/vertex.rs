use vstd::prelude::*;

use crate::geom::Coord;
use crate::geom::Quadric;

verus! {

/// A vertex of the mesh: its position, its accumulated quadric, the faces
/// and pairs it takes part in (each with the slot this vertex occupies
/// there), and a validity flag. A vertex dies when a contraction consumes
/// it.
pub struct Vertex {
    pub valid: bool,
    pub coord: Coord,
    pub q_v: Quadric,
    /// Incident faces as `(face_id, corner_slot)` with the slot in `0..3`.
    pub faces: Vec<(usize, usize)>,
    /// Incident pairs as `(pair_id, endpoint_slot)` with the slot 1 or 2.
    pub pairs: Vec<(usize, usize)>,
}

impl Vertex {
    pub fn new(x: u64, y: u64, z: u64) -> (r: Vertex)
        ensures
            r.valid,
            r.coord == (Coord { x, y, z }),
            forall|i: int| 0 <= i < 16 ==> r.q_v.m@[i] == 0u64,
            r.faces@ == Seq::<(usize, usize)>::empty(),
            r.pairs@ == Seq::<(usize, usize)>::empty(),
    {
        Vertex {
            valid: true,
            coord: Coord::new(x, y, z),
            q_v: Quadric::zero(),
            faces: Vec::new(),
            pairs: Vec::new(),
        }
    }

    pub fn add_face(&mut self, index: usize, position: usize)
        ensures
            final(self).faces@ == old(self).faces@.push((index, position)),
            final(self).valid == old(self).valid,
            final(self).coord == old(self).coord,
            final(self).q_v == old(self).q_v,
            final(self).pairs@ == old(self).pairs@,
    {
        self.faces.push((index, position));
    }

    pub fn add_pair(&mut self, index: usize, position: usize)
        ensures
            final(self).pairs@ == old(self).pairs@.push((index, position)),
            final(self).valid == old(self).valid,
            final(self).coord == old(self).coord,
            final(self).q_v == old(self).q_v,
            final(self).faces@ == old(self).faces@,
    {
        self.pairs.push((index, position));
    }

    pub fn destroy(&mut self)
        ensures
            !final(self).valid,
            final(self).coord == old(self).coord,
            final(self).q_v == old(self).q_v,
            final(self).faces@ == old(self).faces@,
            final(self).pairs@ == old(self).pairs@,
    {
        self.valid = false;
    }

    /// Reset to a fresh, valid vertex with empty incidence lists: the
    /// scratch slot is prepared this way before it stages a merge.
    pub fn renew_state(&mut self)
        ensures
            final(self).valid,
            final(self).coord == old(self).coord,
            final(self).q_v == old(self).q_v,
            final(self).faces@ == Seq::<(usize, usize)>::empty(),
            final(self).pairs@ == Seq::<(usize, usize)>::empty(),
    {
        self.valid = true;
        self.faces.clear();
        self.pairs.clear();
    }

    pub fn valid(&self) -> (r: bool)
        ensures
            r == self.valid,
    {
        self.valid
    }
}

} // verus!

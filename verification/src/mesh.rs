use vstd::prelude::*;

use crate::face::Face;
use crate::geom::Coord;
use crate::geom::Quadric;
use crate::geom::order_key;
use crate::geom::spec_order_key;
use crate::heap::PairHeap;
use crate::heap::is_first_min;
use crate::pair::Pair;
use crate::pair::PairEval;
use crate::pair::PairInfo;
use crate::vertex::Vertex;

verus! {

/// One input triangle: three distinct vertex ids and the face's
/// fundamental quadric, computed by the caller from the three positions.
#[derive(Clone, Copy)]
pub struct Triangle {
    pub a: usize,
    pub b: usize,
    pub c: usize,
    pub k_p: Quadric,
}

/// What the queue would serve next, classified against the pair store.
#[derive(Clone, Copy, PartialEq, Eq, Debug)]
pub enum TopState {
    /// The queue is empty.
    Empty,
    /// The top entry's pair was destroyed: pop and discard it.
    Stale,
    /// The top entry's pair survived an endpoint rewrite: its cached cost
    /// is stale, so it must be re-evaluated and re-queued.
    Dirty,
    /// The top entry's pair is current: it is the next contraction.
    Clean,
}

/// The number of valid faces in the store.
pub open spec fn count_valid_faces(s: Seq<Face>) -> int
    decreases s.len(),
{
    if s.len() == 0 {
        0
    } else {
        count_valid_faces(s.drop_last()) + if s.last().valid {
            1int
        } else {
            0int
        }
    }
}

proof fn lemma_count_nonneg(s: Seq<Face>)
    ensures
        count_valid_faces(s) >= 0,
    decreases s.len(),
{
    if s.len() > 0 {
        lemma_count_nonneg(s.drop_last());
    }
}

proof fn lemma_count_push(s: Seq<Face>, f: Face)
    ensures
        count_valid_faces(s.push(f)) == count_valid_faces(s) + if f.valid {
            1int
        } else {
            0int
        },
{
    assert(s.push(f).drop_last() =~= s);
    assert(s.push(f).last() == f);
}

proof fn lemma_count_update(s: Seq<Face>, k: int, f: Face)
    requires
        0 <= k < s.len(),
    ensures
        count_valid_faces(s.update(k, f)) == count_valid_faces(s) - (if s[k].valid {
            1int
        } else {
            0int
        }) + (if f.valid {
            1int
        } else {
            0int
        }),
    decreases s.len(),
{
    if k == s.len() - 1 {
        assert(s.update(k, f).drop_last() =~= s.drop_last());
        assert(s.update(k, f).last() == f);
    } else {
        assert(s.update(k, f).drop_last() =~= s.drop_last().update(k, f));
        assert(s.update(k, f).last() == s.last());
        lemma_count_update(s.drop_last(), k, f);
    }
}

proof fn lemma_count_pos(s: Seq<Face>, k: int)
    requires
        0 <= k < s.len(),
        s[k].valid,
    ensures
        count_valid_faces(s) >= 1,
    decreases s.len(),
{
    lemma_count_nonneg(s.drop_last());
    if k < s.len() - 1 {
        lemma_count_pos(s.drop_last(), k);
    }
}

/// The number of valid vertices among the first `n` slots.
pub open spec fn count_valid_vertices(s: Seq<Vertex>, n: int) -> int
    decreases n,
{
    if n <= 0 {
        0
    } else {
        count_valid_vertices(s, n - 1) + if s[n - 1].valid {
            1int
        } else {
            0int
        }
    }
}

proof fn lemma_cvv_bounds(s: Seq<Vertex>, n: int)
    requires
        0 <= n,
    ensures
        0 <= count_valid_vertices(s, n) <= n,
    decreases n,
{
    if n > 0 {
        lemma_cvv_bounds(s, n - 1);
    }
}

proof fn lemma_cvv_mono(s: Seq<Vertex>, a: int, b: int)
    requires
        0 <= a <= b,
    ensures
        count_valid_vertices(s, a) <= count_valid_vertices(s, b),
    decreases b - a,
{
    if a < b {
        lemma_cvv_mono(s, a, b - 1);
    }
}

/// The coordinates of the valid vertices, in store order.
pub open spec fn valid_coords(s: Seq<Vertex>) -> Seq<Coord>
    decreases s.len(),
{
    if s.len() == 0 {
        Seq::empty()
    } else {
        valid_coords(s.drop_last()) + if s.last().valid {
            seq![s.last().coord]
        } else {
            Seq::empty()
        }
    }
}

/// The corner triples of the valid faces, in store order.
pub open spec fn valid_face_triples(s: Seq<Face>) -> Seq<(usize, usize, usize)>
    decreases s.len(),
{
    if s.len() == 0 {
        Seq::empty()
    } else {
        valid_face_triples(s.drop_last()) + if s.last().valid {
            seq![(s.last().indices@[0], s.last().indices@[1], s.last().indices@[2])]
        } else {
            Seq::empty()
        }
    }
}

proof fn lemma_push_contains<T>(s: Seq<T>, x: T, y: T)
    ensures
        s.push(x).contains(y) <==> (s.contains(y) || x == y),
{
    if s.contains(y) {
        let i = choose|i: int| 0 <= i < s.len() && s[i] == y;
        assert(s.push(x)[i] == y);
    }
    assert(s.push(x)[s.len() as int] == x);
    if s.push(x).contains(y) {
        let i = choose|i: int| 0 <= i < s.push(x).len() && s.push(x)[i] == y;
        if i < s.len() {
            assert(s[i] == y);
        }
    }
}

proof fn lemma_push_no_duplicates<T>(s: Seq<T>, x: T)
    requires
        s.no_duplicates(),
        !s.contains(x),
    ensures
        s.push(x).no_duplicates(),
{
    assert forall|i: int, j: int|
        0 <= i < s.push(x).len() && 0 <= j < s.push(x).len() && i != j implies s.push(x)[i]
        != s.push(x)[j] by {
        if i < s.len() && j < s.len() {
        } else if i < s.len() {
            assert(s[i] == s.push(x)[i]);
        } else {
            assert(s[j] == s.push(x)[j]);
        }
    }
}

/// Whether a list holds a value.
fn list_contains(v: &Vec<usize>, x: usize) -> (r: bool)
    ensures
        r == v@.contains(x),
{
    let mut i: usize = 0;
    while i < v.len()
        invariant
            0 <= i <= v@.len(),
            forall|j: int| 0 <= j < i ==> v@[j] != x,
        decreases v@.len() - i,
    {
        if v[i] == x {
            return true;
        }
        i = i + 1;
    }
    false
}

/// A copy of an incidence list, so that the store it belongs to can be
/// mutated while the list is walked.
fn copy_list(v: &Vec<(usize, usize)>) -> (r: Vec<(usize, usize)>)
    ensures
        r@ == v@,
{
    let mut r: Vec<(usize, usize)> = Vec::new();
    let mut i: usize = 0;
    while i < v.len()
        invariant
            0 <= i <= v@.len(),
            r@ == v@.take(i as int),
        decreases v@.len() - i,
    {
        proof {
            assert(v@.take(i + 1).drop_last() =~= v@.take(i as int));
        }
        r.push(v[i]);
        i = i + 1;
    }
    proof {
        assert(v@.take(v@.len() as int) =~= v@);
    }
    r
}

/// The smaller endpoint of an edge.
pub open spec fn edge_lo(x: usize, y: usize) -> int {
    if x < y {
        x as int
    } else {
        y as int
    }
}

/// The larger endpoint of an edge.
pub open spec fn edge_hi(x: usize, y: usize) -> usize {
    if x < y {
        y
    } else {
        x
    }
}

/// The triangle `tr` has `{lo, hi}` (with `lo` the smaller id) among its
/// three edges.
pub open spec fn tri_has_edge(tr: Triangle, lo: int, hi: usize) -> bool {
    ||| (edge_lo(tr.a, tr.b) == lo && edge_hi(tr.a, tr.b) == hi)
    ||| (edge_lo(tr.a, tr.c) == lo && edge_hi(tr.a, tr.c) == hi)
    ||| (edge_lo(tr.b, tr.c) == lo && edge_hi(tr.b, tr.c) == hi)
}

/// The corner `(f, s)` occurs among the first `j` entries of the list.
pub open spec fn in_prefix(lst: Seq<(usize, usize)>, j: int, f: int, s: int) -> bool {
    exists|jj: int| 0 <= jj < j && (#[trigger] lst[jj]).0 == f && lst[jj].1 == s
}

/// The vertex's incidence list records the corner `(f, s)`.
pub open spec fn lists_corner(v: Vertex, f: int, s: int) -> bool {
    in_prefix(v.faces@, v.faces@.len() as int, f, s)
}

/// The vertex records some corner of face `f` in its incidence list.
pub open spec fn lists_face(v: Vertex, f: int) -> bool {
    exists|j: int| 0 <= j < v.faces@.len() && (#[trigger] v.faces@[j]).0 == f
}

/// The vertex records some slot of pair `p` in its incidence list.
pub open spec fn lists_pair(v: Vertex, p: int) -> bool {
    exists|j: int| 0 <= j < v.pairs@.len() && (#[trigger] v.pairs@[j]).0 == p
}

/// Pair `p` occurs among the first `j` entries of the list.
pub open spec fn pair_in_prefix(lst: Seq<(usize, usize)>, j: int, p: int) -> bool {
    exists|jj: int| 0 <= jj < j && (#[trigger] lst[jj]).0 == p
}

/// The mesh under simplification: flat stores for vertices, faces and
/// pairs, all cross-references by id; the candidate queue; the free list
/// of recycled vertex ids; and the live-face counter. The last vertex
/// slot is the scratch slot that stages each merge.
pub struct Mesh {
    pub vertices: Vec<Vertex>,
    pub faces: Vec<Face>,
    pub pairs: Vec<Pair>,
    pub heap: PairHeap,
    /// During load: for each vertex `u`, the recorded neighbours `v > u`,
    /// each once.
    pub pre_pairs: Vec<Vec<usize>>,
    pub trash: Vec<usize>,
    pub total: u32,
}

impl Mesh {
    /// The scratch slot: the last position of the vertex store.
    pub open spec fn scratch(self) -> int {
        self.vertices@.len() - 1
    }

    /// Every face references vertex slots.
    pub open spec fn wf_faces(self) -> bool {
        forall|i: int|
            0 <= i < self.faces@.len() ==> (#[trigger] self.faces@[i]).indices@[0]
                < self.vertices@.len() && self.faces@[i].indices@[1] < self.vertices@.len()
                && self.faces@[i].indices@[2] < self.vertices@.len()
    }

    /// Every incidence entry references a face or pair slot, with a slot
    /// number in range.
    pub open spec fn wf_vertex_lists(self) -> bool {
        &&& forall|i: int, j: int|
            0 <= i < self.vertices@.len() && 0 <= j < self.vertices@[i].faces@.len() ==> ((
            #[trigger] self.vertices@[i].faces@[j]).0 < self.faces@.len()
                && self.vertices@[i].faces@[j].1 < 3)
        &&& forall|i: int, j: int|
            0 <= i < self.vertices@.len() && 0 <= j < self.vertices@[i].pairs@.len() ==> ((
            #[trigger] self.vertices@[i].pairs@[j]).0 < self.pairs@.len() && (
            self.vertices@[i].pairs@[j].1 == 1 || self.vertices@[i].pairs@[j].1 == 2))
    }

    /// Every valid pair has two distinct endpoints, both below the
    /// scratch slot.
    pub open spec fn wf_pairs(self) -> bool {
        forall|p: int|
            0 <= p < self.pairs@.len() && (#[trigger] self.pairs@[p]).valid ==> self.pairs@[p].first
                != self.pairs@[p].second && self.pairs@[p].first < self.scratch()
                && self.pairs@[p].second < self.scratch()
    }

    /// Every queue entry references a pair slot.
    pub open spec fn wf_heap(self) -> bool {
        forall|i: int|
            0 <= i < self.heap.entries@.len() ==> (#[trigger] self.heap.entries@[i]).id
                < self.pairs@.len()
    }

    /// Every recycled id is below the scratch slot.
    pub open spec fn wf_trash(self) -> bool {
        forall|i: int| 0 <= i < self.trash@.len() ==> (#[trigger] self.trash@[i]) < self.scratch()
    }

    /// Well-formedness of the whole store. The last clause is the
    /// live-face-count invariant: the counter always equals the number of
    /// valid faces.
    pub open spec fn wf(self) -> bool {
        &&& self.vertices@.len() >= 1
        &&& self.wf_faces()
        &&& self.wf_vertex_lists()
        &&& self.wf_pairs()
        &&& self.wf_heap()
        &&& self.wf_trash()
        &&& self.total as int == count_valid_faces(self.faces@)
    }

    /// Every valid face's corners are recorded in the owning vertices'
    /// incidence lists. `load` establishes this; the contraction keeps it
    /// by re-recording every rewritten corner on the merged vertex.
    pub open spec fn faces_linked(self) -> bool {
        forall|f: int, s: int|
            0 <= f < self.faces@.len() && 0 <= s < 3 && self.faces@[f].valid ==> lists_corner(
                self.vertices@[(#[trigger] self.faces@[f].indices@[s]) as int],
                f,
                s,
            )
    }

    /// Every corner a valid vertex lists points back at it for as long as
    /// the face is valid. Entries to faces that died stay behind and are
    /// filtered on use, as in the contraction itself.
    pub open spec fn lists_point_back(self) -> bool {
        forall|i: int, j: int|
            0 <= i < self.vertices@.len() && self.vertices@[i].valid && 0 <= j
                < self.vertices@[i].faces@.len() && self.faces@[(
            #[trigger] self.vertices@[i].faces@[j]).0 as int].valid ==> self.faces@[self.vertices@[
                i
            ].faces@[j].0 as int].indices@[self.vertices@[i].faces@[j].1 as int] == i
    }

    /// Every valid face's corners reference valid vertices.
    pub open spec fn faces_alive(self) -> bool {
        forall|f: int, s: int|
            0 <= f < self.faces@.len() && 0 <= s < 3 && self.faces@[f].valid ==> self.vertices@[(
            #[trigger] self.faces@[f].indices@[s]) as int].valid
    }

    pub fn new() -> (r: Mesh)
        ensures
            r.vertices@.len() == 0,
            r.faces@.len() == 0,
            r.pairs@.len() == 0,
            r.heap.entries@.len() == 0,
            r.pre_pairs@.len() == 0,
            r.trash@.len() == 0,
            r.total == 0,
    {
        Mesh {
            vertices: Vec::new(),
            faces: Vec::new(),
            pairs: Vec::new(),
            heap: PairHeap::new(),
            pre_pairs: Vec::new(),
            trash: Vec::new(),
            total: 0,
        }
    }

    /// Record the edge `{x, y}` for pair enumeration, keyed by its
    /// smaller endpoint, once.
    ///
    /// `edge_lo` and `edge_hi` below order an edge's two endpoints.
    fn record_edge(&mut self, x: usize, y: usize)
        requires
            x != y,
            x < old(self).pre_pairs@.len(),
            y < old(self).pre_pairs@.len(),
        ensures
            final(self).pre_pairs@.len() == old(self).pre_pairs@.len(),
            forall|u: int|
                0 <= u < old(self).pre_pairs@.len() && u != edge_lo(x, y) ==> (
                #[trigger] final(self).pre_pairs@[u])@ == old(self).pre_pairs@[u]@,
            final(self).pre_pairs@[edge_lo(x, y)]@ == (if old(self).pre_pairs@[edge_lo(
                x,
                y,
            )]@.contains(edge_hi(x, y)) {
                old(self).pre_pairs@[edge_lo(x, y)]@
            } else {
                old(self).pre_pairs@[edge_lo(x, y)]@.push(edge_hi(x, y))
            }),
            final(self).vertices@ == old(self).vertices@,
            final(self).faces@ == old(self).faces@,
            final(self).pairs@ == old(self).pairs@,
            final(self).heap.entries@ == old(self).heap.entries@,
            final(self).trash@ == old(self).trash@,
            final(self).total == old(self).total,
    {
        let lo = if x < y {
            x
        } else {
            y
        };
        let hi = if x < y {
            y
        } else {
            x
        };
        if !list_contains(&self.pre_pairs[lo], hi) {
            self.pre_pairs[lo].push(hi);
        }
    }

    /// Build the stores from parsed input: one vertex per coordinate
    /// triple, one face per triangle, the vertex-face links, and the
    /// deduplicated edge set for pair enumeration. A trailing scratch
    /// vertex is appended invalid, so that it never reaches the output.
    pub fn load(&mut self, coords: &Vec<Coord>, tris: &Vec<Triangle>)
        requires
            old(self).vertices@.len() == 0,
            old(self).faces@.len() == 0,
            old(self).pairs@.len() == 0,
            old(self).heap.entries@.len() == 0,
            old(self).pre_pairs@.len() == 0,
            old(self).trash@.len() == 0,
            tris@.len() <= u32::MAX,
            coords@.len() < usize::MAX,
            forall|t: int|
                0 <= t < tris@.len() ==> (#[trigger] tris@[t]).a < coords@.len() && tris@[t].b
                    < coords@.len() && tris@[t].c < coords@.len() && tris@[t].a != tris@[t].b
                    && tris@[t].a != tris@[t].c && tris@[t].b != tris@[t].c,
        ensures
            final(self).wf(),
            final(self).vertices@.len() == coords@.len() + 1,
            forall|i: int|
                0 <= i < coords@.len() ==> (#[trigger] final(self).vertices@[i]).valid && final(self).vertices@[i].coord == coords@[i] && (forall|e: int|
                    0 <= e < 16 ==> final(self).vertices@[i].q_v.m@[e] == 0u64),
            !final(self).vertices@[coords@.len() as int].valid,
            final(self).faces@.len() == tris@.len(),
            forall|t: int|
                0 <= t < tris@.len() ==> (#[trigger] final(self).faces@[t]).valid && final(self).faces@[t].indices@ == seq![tris@[t].a, tris@[t].b, tris@[t].c] && final(self).faces@[t].k_p == tris@[t].k_p,
            final(self).pairs@.len() == 0,
            final(self).heap.entries@.len() == 0,
            final(self).trash@.len() == 0,
            final(self).total == tris@.len(),
            final(self).pre_pairs@.len() == coords@.len(),
            forall|u: int, j: int|
                0 <= u < final(self).pre_pairs@.len() && 0 <= j < final(self).pre_pairs@[u]@.len()
                    ==> u < (#[trigger] final(self).pre_pairs@[u]@[j]) && final(self).pre_pairs@[u]@[j] < coords@.len(),
            forall|lo: int, hi: usize|
                0 <= lo < coords@.len() ==> ((#[trigger] final(self).pre_pairs@[lo]@.contains(hi))
                    <==> exists|t: int| 0 <= t < tris@.len() && tri_has_edge(#[trigger] tris@[t], lo, hi)),
            forall|u: int| 0 <= u < coords@.len() ==> (#[trigger] final(self).pre_pairs@[u])@.no_duplicates(),
            forall|i: int, j: int|
                0 <= i < final(self).vertices@.len() && 0 <= j < final(self).vertices@[i].faces@.len()
                    ==> {
                    let e = #[trigger] final(self).vertices@[i].faces@[j];
                    e.0 < tris@.len() && e.1 < 3 && final(self).faces@[e.0 as int].indices@[e.1 as int] == i
                },
            forall|t: int|
                0 <= t < tris@.len() ==> final(self).vertices@[(#[trigger] tris@[t]).a as int].faces@.contains((t as usize, 0usize))
                    && final(self).vertices@[tris@[t].b as int].faces@.contains((t as usize, 1usize))
                    && final(self).vertices@[tris@[t].c as int].faces@.contains((t as usize, 2usize)),
            final(self).faces_linked(),
            final(self).lists_point_back(),
            final(self).faces_alive(),
    {
        let n = coords.len();
        let mut i: usize = 0;
        while i < n
            invariant
                0 <= i <= n,
                n == coords@.len(),
                self.vertices@.len() == i,
                self.pre_pairs@.len() == i,
                forall|k: int|
                    0 <= k < i ==> (#[trigger] self.vertices@[k]).valid && self.vertices@[k].coord
                        == coords@[k] && (forall|e: int|
                        0 <= e < 16 ==> self.vertices@[k].q_v.m@[e] == 0u64)
                        && self.vertices@[k].faces@.len() == 0 && self.vertices@[k].pairs@.len()
                        == 0,
                forall|k: int| 0 <= k < i ==> (#[trigger] self.pre_pairs@[k])@.len() == 0,
                self.faces@.len() == 0,
                self.pairs@.len() == 0,
                self.heap.entries@.len() == 0,
                self.trash@.len() == 0,
            decreases n - i,
        {
            let c = coords[i];
            self.vertices.push(Vertex::new(c.x, c.y, c.z));
            self.pre_pairs.push(Vec::new());
            i = i + 1;
        }
        let mut t: usize = 0;
        while t < tris.len()
            invariant
                0 <= t <= tris@.len(),
                n == coords@.len(),
                self.vertices@.len() == n,
                self.pre_pairs@.len() == n,
                tris@.len() <= u32::MAX,
                forall|tt: int|
                    0 <= tt < tris@.len() ==> (#[trigger] tris@[tt]).a < n && tris@[tt].b < n
                        && tris@[tt].c < n && tris@[tt].a != tris@[tt].b && tris@[tt].a
                        != tris@[tt].c && tris@[tt].b != tris@[tt].c,
                forall|k: int|
                    0 <= k < n ==> (#[trigger] self.vertices@[k]).valid && self.vertices@[k].coord
                        == coords@[k] && (forall|e: int|
                        0 <= e < 16 ==> self.vertices@[k].q_v.m@[e] == 0u64)
                        && self.vertices@[k].pairs@.len() == 0,
                forall|k: int, j: int|
                    0 <= k < n && 0 <= j < self.vertices@[k].faces@.len() ==> {
                        let e = #[trigger] self.vertices@[k].faces@[j];
                        e.0 < self.faces@.len() && e.1 < 3 && self.faces@[e.0 as int].indices@[e.1 as int] == k
                    },
                forall|tt: int|
                    0 <= tt < t ==> self.vertices@[(#[trigger] tris@[tt]).a as int].faces@.contains(
                        (tt as usize, 0usize),
                    ) && self.vertices@[tris@[tt].b as int].faces@.contains((tt as usize, 1usize))
                        && self.vertices@[tris@[tt].c as int].faces@.contains((tt as usize, 2usize)),
                self.faces@.len() == t,
                forall|tt: int|
                    0 <= tt < t ==> (#[trigger] self.faces@[tt]).valid && self.faces@[tt].indices@
                        == seq![tris@[tt].a, tris@[tt].b, tris@[tt].c] && self.faces@[tt].k_p
                        == tris@[tt].k_p,
                count_valid_faces(self.faces@) == t as int,
                forall|u: int, j: int|
                    0 <= u < n && 0 <= j < self.pre_pairs@[u]@.len() ==> u < (
                    #[trigger] self.pre_pairs@[u]@[j]) && self.pre_pairs@[u]@[j] < n,
                forall|lo: int, hi: usize|
                    0 <= lo < n ==> ((#[trigger] self.pre_pairs@[lo]@.contains(hi)) <==> exists|tt: int|
                        0 <= tt < t && tri_has_edge(#[trigger] tris@[tt], lo, hi)),
                forall|u: int| 0 <= u < n ==> (#[trigger] self.pre_pairs@[u])@.no_duplicates(),
                self.pairs@.len() == 0,
                self.heap.entries@.len() == 0,
                self.trash@.len() == 0,
            decreases tris@.len() - t,
        {
            let tr = tris[t];
            let ghost vprev = self.vertices@;
            let ghost pp_a = self.pre_pairs@;
            self.record_edge(tr.a, tr.b);
            let ghost pp_b = self.pre_pairs@;
            self.record_edge(tr.a, tr.c);
            let ghost pp_c = self.pre_pairs@;
            self.record_edge(tr.b, tr.c);
            proof {
                assert forall|lo: int, hi: usize| 0 <= lo < n implies ((
                #[trigger] self.pre_pairs@[lo]@.contains(hi)) <==> (pp_a[lo]@.contains(hi)
                    || tri_has_edge(tris@[t as int], lo, hi))) by {
                    if lo == edge_lo(tr.a, tr.b) {
                        lemma_push_contains(pp_a[lo]@, edge_hi(tr.a, tr.b), hi);
                    }
                    if lo == edge_lo(tr.a, tr.c) {
                        lemma_push_contains(pp_b[lo]@, edge_hi(tr.a, tr.c), hi);
                    }
                    if lo == edge_lo(tr.b, tr.c) {
                        lemma_push_contains(pp_c[lo]@, edge_hi(tr.b, tr.c), hi);
                    }
                }
                assert forall|u: int| 0 <= u < n implies (
                #[trigger] self.pre_pairs@[u])@.no_duplicates() by {
                    if u == edge_lo(tr.a, tr.b) && !pp_a[u]@.contains(edge_hi(tr.a, tr.b)) {
                        lemma_push_no_duplicates(pp_a[u]@, edge_hi(tr.a, tr.b));
                    }
                    if u == edge_lo(tr.a, tr.c) && !pp_b[u]@.contains(edge_hi(tr.a, tr.c)) {
                        lemma_push_no_duplicates(pp_b[u]@, edge_hi(tr.a, tr.c));
                    }
                    if u == edge_lo(tr.b, tr.c) && !pp_c[u]@.contains(edge_hi(tr.b, tr.c)) {
                        lemma_push_no_duplicates(pp_c[u]@, edge_hi(tr.b, tr.c));
                    }
                }
            }
            self.vertices[tr.a].add_face(t, 0);
            self.vertices[tr.b].add_face(t, 1);
            self.vertices[tr.c].add_face(t, 2);
            let f = Face::new(tr.a, tr.b, tr.c, tr.k_p);
            proof {
                lemma_count_push(self.faces@, f);
            }
            self.faces.push(f);
            proof {
                assert(self.vertices@[tr.a as int].faces@.last() == (t, 0usize));
                assert(self.vertices@[tr.a as int].faces@.contains((t, 0usize)));
                assert(self.vertices@[tr.b as int].faces@.last() == (t, 1usize));
                assert(self.vertices@[tr.b as int].faces@.contains((t, 1usize)));
                assert(self.vertices@[tr.c as int].faces@.last() == (t, 2usize));
                assert(self.vertices@[tr.c as int].faces@.contains((t, 2usize)));
                assert forall|tt: int| 0 <= tt < t implies self.vertices@[(
                #[trigger] tris@[tt]).a as int].faces@.contains((tt as usize, 0usize))
                    && self.vertices@[tris@[tt].b as int].faces@.contains((tt as usize, 1usize))
                    && self.vertices@[tris@[tt].c as int].faces@.contains((
                    tt as usize,
                    2usize,
                )) by {
                    let av = tris@[tt].a as int;
                    let bv = tris@[tt].b as int;
                    let cv = tris@[tt].c as int;
                    if vprev[av].faces@ != self.vertices@[av].faces@ {
                        lemma_push_contains(
                            vprev[av].faces@,
                            self.vertices@[av].faces@.last(),
                            (tt as usize, 0usize),
                        );
                    }
                    if vprev[bv].faces@ != self.vertices@[bv].faces@ {
                        lemma_push_contains(
                            vprev[bv].faces@,
                            self.vertices@[bv].faces@.last(),
                            (tt as usize, 1usize),
                        );
                    }
                    if vprev[cv].faces@ != self.vertices@[cv].faces@ {
                        lemma_push_contains(
                            vprev[cv].faces@,
                            self.vertices@[cv].faces@.last(),
                            (tt as usize, 2usize),
                        );
                    }
                }
            }
            t = t + 1;
        }
        self.total = tris.len() as u32;
        let mut scratch = Vertex::new(0, 0, 0);
        scratch.destroy();
        self.vertices.push(scratch);
        proof {
            assert forall|f: int, si: int|
                0 <= f < self.faces@.len() && 0 <= si < 3 && self.faces@[f].valid implies lists_corner(
                self.vertices@[(#[trigger] self.faces@[f].indices@[si]) as int],
                f,
                si,
            ) by {
                let tr = tris@[f];
                let vi = self.faces@[f].indices@[si] as int;
                let lstv = self.vertices@[vi].faces@;
                assert(lstv.contains((f as usize, si as usize)));
                let j = choose|j: int| 0 <= j < lstv.len() && lstv[j] == (f as usize, si as usize);
                assert(lstv[j].0 == f && lstv[j].1 == si);
            }
        }
    }

    /// Install the accumulated vertex quadrics, one per vertex slot: the
    /// caller sums each vertex's incident fundamental quadrics (the
    /// floating-point work) and the store records the results.
    pub fn cal_q_v(&mut self, quadrics: &Vec<Quadric>)
        requires
            old(self).quadrics_len_ok(quadrics@),
        ensures
            final(self).vertices@.len() == old(self).vertices@.len(),
            forall|i: int|
                0 <= i < old(self).vertices@.len() ==> (#[trigger] final(self).vertices@[i]).q_v
                    == quadrics@[i] && final(self).vertices@[i].valid == old(self).vertices@[i].valid && final(self).vertices@[i].coord == old(self).vertices@[i].coord && final(self).vertices@[i].faces@ == old(self).vertices@[i].faces@ && final(self).vertices@[i].pairs@ == old(self).vertices@[i].pairs@,
            final(self).faces@ == old(self).faces@,
            final(self).pairs@ == old(self).pairs@,
            final(self).heap.entries@ == old(self).heap.entries@,
            final(self).trash@ == old(self).trash@,
            final(self).pre_pairs@ == old(self).pre_pairs@,
            final(self).total == old(self).total,
            old(self).wf() ==> final(self).wf(),
    {
        let mut i: usize = 0;
        let n = self.vertices.len();
        while i < n
            invariant
                i <= n,
                n == self.vertices@.len(),
                n == old(self).vertices@.len(),
                quadrics@.len() == n,
                forall|k: int|
                    0 <= k < i ==> (#[trigger] self.vertices@[k]).q_v == quadrics@[k],
                forall|k: int|
                    0 <= k < n ==> (#[trigger] self.vertices@[k]).valid == old(self).vertices@[k].valid && self.vertices@[k].coord == old(self).vertices@[k].coord && self.vertices@[k].faces@ == old(self).vertices@[k].faces@ && self.vertices@[k].pairs@ == old(self).vertices@[k].pairs@,
                self.faces@ == old(self).faces@,
                self.pairs@ == old(self).pairs@,
                self.heap.entries@ == old(self).heap.entries@,
                self.trash@ == old(self).trash@,
                self.pre_pairs@ == old(self).pre_pairs@,
                self.total == old(self).total,
            decreases n - i,
        {
            self.vertices[i].q_v = quadrics[i];
            i = i + 1;
        }
    }

    /// One accumulated quadric is supplied for every vertex slot.
    pub open spec fn quadrics_len_ok(self, quadrics: Seq<Quadric>) -> bool {
        quadrics.len() == self.vertices@.len()
    }

    /// Whether the contraction loop still has work: the live-face count
    /// is above the target.
    pub fn above_target(&self, target: u32) -> (r: bool)
        ensures
            r == (self.total > target),
    {
        self.total > target
    }

    /// Hand out the candidate edges recorded during load — exactly the
    /// pairs `(u, v)` with `v` in `u`'s record, each once, `u < v` and
    /// both below the scratch slot — and clear the record. The caller
    /// applies the distance threshold and evaluates each surviving edge
    /// before seeding it with `add_pair`.
    pub fn init_pairs(&mut self) -> (r: Vec<(usize, usize)>)
        requires
            old(self).pre_pairs@.len() < old(self).vertices@.len(),
            forall|u: int, j: int|
                0 <= u < old(self).pre_pairs@.len() && 0 <= j < old(self).pre_pairs@[u]@.len()
                    ==> u < (#[trigger] old(self).pre_pairs@[u]@[j]) && old(self).pre_pairs@[u]@[j]
                    < old(self).pre_pairs@.len(),
            forall|u: int|
                0 <= u < old(self).pre_pairs@.len() ==> (
                #[trigger] old(self).pre_pairs@[u])@.no_duplicates(),
        ensures
            final(self).pre_pairs@.len() == 0,
            forall|k: int|
                0 <= k < r@.len() ==> (#[trigger] r@[k]).0 < r@[k].1 && r@[k].1 < old(self).pre_pairs@.len(),
            forall|u: usize, x: usize|
                (#[trigger] r@.contains((u, x))) <==> (u < old(self).pre_pairs@.len() && old(self).pre_pairs@[u as int]@.contains(x)),
            r@.no_duplicates(),
            final(self).vertices@ == old(self).vertices@,
            final(self).faces@ == old(self).faces@,
            final(self).pairs@ == old(self).pairs@,
            final(self).heap.entries@ == old(self).heap.entries@,
            final(self).trash@ == old(self).trash@,
            final(self).total == old(self).total,
    {
        let mut r: Vec<(usize, usize)> = Vec::new();
        let mut u: usize = 0;
        let n = self.pre_pairs.len();
        while u < n
            invariant
                u <= n,
                n == self.pre_pairs@.len(),
                self.pre_pairs@ == old(self).pre_pairs@,
                n < self.vertices@.len(),
                forall|uu: int, j: int|
                    0 <= uu < n && 0 <= j < self.pre_pairs@[uu]@.len() ==> uu < (
                    #[trigger] self.pre_pairs@[uu]@[j]) && self.pre_pairs@[uu]@[j] < n,
                forall|uu: int|
                    0 <= uu < n ==> (#[trigger] self.pre_pairs@[uu])@.no_duplicates(),
                forall|k: int| 0 <= k < r@.len() ==> (#[trigger] r@[k]).0 < r@[k].1 && r@[k].1 < n,
                forall|a: usize, x: usize|
                    (#[trigger] r@.contains((a, x))) <==> (a < u && self.pre_pairs@[a as int]@.contains(x)),
                r@.no_duplicates(),
                self.vertices@ == old(self).vertices@,
                self.faces@ == old(self).faces@,
                self.pairs@ == old(self).pairs@,
                self.heap.entries@ == old(self).heap.entries@,
                self.trash@ == old(self).trash@,
                self.total == old(self).total,
            decreases n - u,
        {
            let m = self.pre_pairs[u].len();
            let mut j: usize = 0;
            while j < m
                invariant
                    u < n,
                    j <= m,
                    n == self.pre_pairs@.len(),
                    m == self.pre_pairs@[u as int]@.len(),
                    self.pre_pairs@ == old(self).pre_pairs@,
                    forall|uu: int, jj: int|
                        0 <= uu < n && 0 <= jj < self.pre_pairs@[uu]@.len() ==> uu < (
                        #[trigger] self.pre_pairs@[uu]@[jj]) && self.pre_pairs@[uu]@[jj] < n,
                    forall|uu: int|
                        0 <= uu < n ==> (#[trigger] self.pre_pairs@[uu])@.no_duplicates(),
                    forall|k: int|
                        0 <= k < r@.len() ==> (#[trigger] r@[k]).0 < r@[k].1 && r@[k].1 < n,
                    forall|a: usize, x: usize|
                        (#[trigger] r@.contains((a, x))) <==> ((a < u && self.pre_pairs@[a as int]@.contains(x)) || (a == u && exists|jj: int|
                            0 <= jj < j && self.pre_pairs@[u as int]@[jj] == x)),
                    r@.no_duplicates(),
                    self.vertices@ == old(self).vertices@,
                    self.faces@ == old(self).faces@,
                    self.pairs@ == old(self).pairs@,
                    self.heap.entries@ == old(self).heap.entries@,
                    self.trash@ == old(self).trash@,
                    self.total == old(self).total,
                decreases m - j,
            {
                let v = self.pre_pairs[u][j];
                proof {
                    assert(!r@.contains((u, v))) by {
                        if r@.contains((u, v)) {
                            assert(exists|jj: int|
                                0 <= jj < j && self.pre_pairs@[u as int]@[jj] == v);
                        }
                    }
                    lemma_push_no_duplicates(r@, (u, v));
                    let ghost rr = r@;
                    assert forall|a: usize, x: usize| #[trigger]
                        rr.push((u, v)).contains((a, x)) <==> ((a < u
                        && self.pre_pairs@[a as int]@.contains(x)) || (a == u && exists|jj: int|
                        0 <= jj < j + 1 && self.pre_pairs@[u as int]@[jj] == x)) by {
                        lemma_push_contains(rr, (u, v), (a, x));
                        if a == u && (exists|jj: int|
                            0 <= jj < j + 1 && self.pre_pairs@[u as int]@[jj] == x) {
                            let jj = choose|jj: int|
                                0 <= jj < j + 1 && self.pre_pairs@[u as int]@[jj] == x;
                            if jj == j {
                                assert((a, x) == (u, v));
                            }
                        }
                    }
                }
                r.push((u, v));
                j = j + 1;
            }
            proof {
                assert forall|a: usize, x: usize| (#[trigger] r@.contains((a, x))) <==> (a < u + 1
                    && self.pre_pairs@[a as int]@.contains(x)) by {
                    if a == u && self.pre_pairs@[a as int]@.contains(x) {
                        let jj = choose|jj: int|
                            0 <= jj < m && self.pre_pairs@[u as int]@[jj] == x;
                        assert(exists|jjj: int|
                            0 <= jjj < m && self.pre_pairs@[u as int]@[jjj] == x);
                    }
                }
            }
            u = u + 1;
        }
        self.pre_pairs.clear();
        r
    }

    /// Seed one candidate pair whose endpoints the caller has already
    /// evaluated: create the pair with its cached quadric, best point and
    /// cost, push a queue entry keyed by the cost's order key, and link
    /// the pair into both endpoints' incidence lists.
    pub fn add_pair(&mut self, id1: usize, id2: usize, eval: &PairEval)
        requires
            old(self).wf(),
            id1 < id2,
            id2 < old(self).vertices@.len() - 1,
        ensures
            final(self).wf(),
            final(self).pairs@.len() == old(self).pairs@.len() + 1,
            forall|p: int|
                0 <= p < old(self).pairs@.len() ==> final(self).pairs@[p] == old(self).pairs@[p],
            final(self).pairs@.last().valid,
            !final(self).pairs@.last().access,
            final(self).pairs@.last().first == id1,
            final(self).pairs@.last().second == id2,
            final(self).pairs@.last().q_matrix == eval.q_matrix,
            final(self).pairs@.last().best_point == eval.best_point,
            final(self).pairs@.last().shrink_value == eval.shrink_value,
            final(self).heap.entries@ == old(self).heap.entries@.push(
                PairInfo {
                    id: old(self).pairs@.len() as usize,
                    value: spec_order_key(eval.shrink_value),
                },
            ),
            final(self).vertices@.len() == old(self).vertices@.len(),
            forall|i: int|
                0 <= i < old(self).vertices@.len() && i != id1 && i != id2 ==> final(self).vertices@[i] == old(self).vertices@[i],
            final(self).vertices@[id1 as int].pairs@ == old(self).vertices@[id1 as int].pairs@.push(
                (old(self).pairs@.len() as usize, 1usize),
            ),
            final(self).vertices@[id2 as int].pairs@ == old(self).vertices@[id2 as int].pairs@.push(
                (old(self).pairs@.len() as usize, 2usize),
            ),
            final(self).vertices@[id1 as int].valid == old(self).vertices@[id1 as int].valid,
            final(self).vertices@[id2 as int].valid == old(self).vertices@[id2 as int].valid,
            final(self).faces@ == old(self).faces@,
            final(self).trash@ == old(self).trash@,
            final(self).pre_pairs@ == old(self).pre_pairs@,
            final(self).total == old(self).total,
    {
        let idx = self.pairs.len();
        let mut pair = Pair::new(id1, id2);
        pair.set_eval(eval);
        self.pairs.push(pair);
        let key = order_key(eval.shrink_value);
        self.heap.push(PairInfo { id: idx, value: key });
        self.vertices[id1].add_pair(idx, 1);
        self.vertices[id2].add_pair(idx, 2);
    }

    /// Classify what the queue would serve next against the pair store.
    pub fn top_state(&self) -> (r: TopState)
        requires
            self.wf(),
        ensures
            match r {
                TopState::Empty => self.heap.entries@.len() == 0,
                TopState::Stale => exists|k: int|
                    #[trigger] is_first_min(self.heap.entries@, k) && !self.pairs@[self.heap.entries@[k].id as int].valid,
                TopState::Dirty => exists|k: int|
                    #[trigger] is_first_min(self.heap.entries@, k) && self.pairs@[self.heap.entries@[k].id as int].valid
                        && self.pairs@[self.heap.entries@[k].id as int].access,
                TopState::Clean => exists|k: int|
                    #[trigger] is_first_min(self.heap.entries@, k) && self.pairs@[self.heap.entries@[k].id as int].valid
                        && !self.pairs@[self.heap.entries@[k].id as int].access,
            },
    {
        match self.heap.peek() {
            None => TopState::Empty,
            Some(e) => {
                proof {
                    assert(e.id < self.pairs@.len());
                }
                let valid = self.pairs[e.id].valid();
                let access = self.pairs[e.id].access();
                if !valid {
                    TopState::Stale
                } else if access {
                    TopState::Dirty
                } else {
                    TopState::Clean
                }
            },
        }
    }

    /// Remove and return the queue's next entry: the first entry holding
    /// the minimal key. The stores themselves are untouched.
    pub fn pop_top(&mut self) -> (r: PairInfo)
        requires
            old(self).wf(),
            old(self).heap.entries@.len() > 0,
        ensures
            final(self).wf(),
            r.id < old(self).pairs@.len(),
            exists|k: int|
                #[trigger] is_first_min(old(self).heap.entries@, k) && r == old(self).heap.entries@[k] && final(self).heap.entries@ == old(self).heap.entries@.remove(
                    k,
                ),
            final(self).vertices@ == old(self).vertices@,
            final(self).faces@ == old(self).faces@,
            final(self).pairs@ == old(self).pairs@,
            final(self).trash@ == old(self).trash@,
            final(self).pre_pairs@ == old(self).pre_pairs@,
            final(self).total == old(self).total,
    {
        let r = self.heap.pop();
        match r {
            Some(e) => {
                proof {
                    let k = choose|k: int|
                        is_first_min(old(self).heap.entries@, k) && e == old(self).heap.entries@[k]
                            && self.heap.entries@ == old(self).heap.entries@.remove(k);
                    old(self).heap.entries@.remove_ensures(k);
                    assert forall|i: int|
                        0 <= i < self.heap.entries@.len() implies (
                    #[trigger] self.heap.entries@[i]).id < self.pairs@.len() by {
                        if i < k {
                            assert(self.heap.entries@[i] == old(self).heap.entries@[i]);
                        } else {
                            assert(self.heap.entries@[i] == old(self).heap.entries@[i + 1]);
                        }
                    }
                }
                e
            },
            None => {
                proof {
                    assert(false);
                }
                PairInfo { id: 0, value: 0 }
            },
        }
    }

    /// Install a fresh caller-computed evaluation on the pair `id` —
    /// clearing its stale mark — and re-queue it under its new cost.
    /// This is the lazy refresh a dirty queue top receives.
    pub fn renew_pair(&mut self, id: usize, eval: &PairEval)
        requires
            old(self).wf(),
            id < old(self).pairs@.len(),
        ensures
            final(self).wf(),
            final(self).pairs@.len() == old(self).pairs@.len(),
            forall|p: int|
                0 <= p < old(self).pairs@.len() && p != id ==> final(self).pairs@[p] == old(self).pairs@[p],
            final(self).pairs@[id as int].valid == old(self).pairs@[id as int].valid,
            !final(self).pairs@[id as int].access,
            final(self).pairs@[id as int].first == old(self).pairs@[id as int].first,
            final(self).pairs@[id as int].second == old(self).pairs@[id as int].second,
            final(self).pairs@[id as int].q_matrix == eval.q_matrix,
            final(self).pairs@[id as int].best_point == eval.best_point,
            final(self).pairs@[id as int].shrink_value == eval.shrink_value,
            final(self).heap.entries@ == old(self).heap.entries@.push(
                PairInfo { id: id, value: spec_order_key(eval.shrink_value) },
            ),
            final(self).vertices@ == old(self).vertices@,
            final(self).faces@ == old(self).faces@,
            final(self).trash@ == old(self).trash@,
            final(self).pre_pairs@ == old(self).pre_pairs@,
            final(self).total == old(self).total,
    {
        self.pairs[id].set_eval(eval);
        let key = order_key(eval.shrink_value);
        self.heap.push(PairInfo { id, value: key });
    }

    /// Contract the pair `id`: destroy it, stage the merged vertex in the
    /// scratch slot with the pair's cached best point and summed quadric,
    /// rewrite the faces incident to either endpoint (marking degenerate
    /// triangles invalid and decrementing the live-face count), rewrite
    /// the incident pairs (marking survivors stale, destroying collapsed
    /// ones), invalidate both endpoints, and swap the merged vertex into
    /// the recycled slot. Returns the merged vertex's id.
    ///
    /// The live-face count never increases here, and the merged vertex
    /// carries exactly the quadric cached on the contracted pair — the
    /// sum of its two endpoints' quadrics at its last evaluation.
    #[verifier::loop_isolation(false)]
    pub fn del_pair(&mut self, id: usize) -> (w: usize)
        requires
            old(self).wf(),
            id < old(self).pairs@.len(),
            old(self).pairs@[id as int].valid,
        ensures
            final(self).wf(),
            final(self).vertices@.len() == old(self).vertices@.len(),
            final(self).faces@.len() == old(self).faces@.len(),
            final(self).pairs@.len() == old(self).pairs@.len(),
            final(self).heap.entries@ == old(self).heap.entries@,
            final(self).total <= old(self).total,
            !final(self).pairs@[id as int].valid,
            w == old(self).pairs@[id as int].second,
            w < old(self).vertices@.len() - 1,
            final(self).vertices@[w as int].valid,
            final(self).vertices@[w as int].coord == old(self).pairs@[id as int].best_point,
            final(self).vertices@[w as int].q_v == old(self).pairs@[id as int].q_matrix,
            !final(self).vertices@[old(self).pairs@[id as int].first as int].valid,
            !final(self).vertices@[final(self).vertices@.len() - 1].valid,
            final(self).trash@ == old(self).trash@.push(old(self).pairs@[id as int].first),
            forall|f: int|
                0 <= f < old(self).faces@.len() && !(#[trigger] old(self).faces@[f]).valid
                    ==> !final(self).faces@[f].valid,
            forall|f: int|
                0 <= f < old(self).faces@.len() && !lists_face(
                    old(self).vertices@[old(self).pairs@[id as int].first as int],
                    f,
                ) && !lists_face(
                    old(self).vertices@[old(self).pairs@[id as int].second as int],
                    f,
                ) ==> (#[trigger] final(self).faces@[f]) == old(self).faces@[f],
            forall|p: int|
                0 <= p < old(self).pairs@.len() && p != id && !lists_pair(
                    old(self).vertices@[old(self).pairs@[id as int].first as int],
                    p,
                ) && !lists_pair(
                    old(self).vertices@[old(self).pairs@[id as int].second as int],
                    p,
                ) ==> (#[trigger] final(self).pairs@[p]) == old(self).pairs@[p],
            forall|i: int|
                0 <= i < old(self).vertices@.len() && i != old(self).pairs@[id as int].first && i
                    != old(self).pairs@[id as int].second && i != old(self).vertices@.len() - 1
                    ==> (#[trigger] final(self).vertices@[i]) == old(self).vertices@[i],
            forall|p: int|
                0 <= p < old(self).pairs@.len() && p != id && (lists_pair(
                    old(self).vertices@[old(self).pairs@[id as int].first as int],
                    p,
                ) || lists_pair(
                    old(self).vertices@[old(self).pairs@[id as int].second as int],
                    p,
                )) ==> (#[trigger] final(self).pairs@[p]).access,
            forall|f: int, s: int|
                0 <= f < old(self).faces@.len() && 0 <= s < 3 && (in_prefix(
                    old(self).vertices@[old(self).pairs@[id as int].first as int].faces@,
                    old(self).vertices@[old(self).pairs@[id as int].first as int].faces@.len() as int,
                    f,
                    s,
                ) || in_prefix(
                    old(self).vertices@[old(self).pairs@[id as int].second as int].faces@,
                    old(self).vertices@[old(self).pairs@[id as int].second as int].faces@.len() as int,
                    f,
                    s,
                )) && final(self).faces@[f].valid ==> (#[trigger] final(self).faces@[f].indices@[s])
                    == old(self).pairs@[id as int].second,
    {
        let (first, second) = self.pairs[id].get_vertex();
        self.pairs[id].destroy();
        self.trash.push(first);
        self.trash.push(second);
        let new_pos = self.trash.pop().unwrap();
        let temp_pos = self.vertices.len() - 1;
        self.vertices[temp_pos].renew_state();
        let best = self.pairs[id].get_best_point();
        let qm = self.pairs[id].q_matrix;
        self.vertices[temp_pos].coord = best;
        self.vertices[temp_pos].q_v = qm;

        let ghost vs1 = self.vertices@;
        let ghost fs0 = self.faces@;
        let ghost ps0 = self.pairs@;
        let ghost hs0 = self.heap.entries@;
        let ghost ts0 = self.trash@;
        let ghost pp0 = self.pre_pairs@;
        let ghost t0 = self.total;
        proof {
            assert(forall|i: int|
                0 <= i < vs1.len() && i != temp_pos ==> vs1[i] == old(self).vertices@[i]);
            assert(second < temp_pos);
            assert(vs1[second as int] == old(self).vertices@[second as int]);
            assert(vs1[first as int] == old(self).vertices@[first as int]);
        }

        let u_faces = copy_list(&self.vertices[first].faces);
        let mut k: usize = 0;
        while k < u_faces.len()
            invariant
                k <= u_faces@.len(),
                new_pos == second,
                first != second,
                first < temp_pos,
                second < temp_pos,
                temp_pos == vs1.len() - 1,
                self.vertices@.len() == vs1.len(),
                self.faces@.len() == fs0.len(),
                self.pairs@ == ps0,
                self.heap.entries@ == hs0,
                self.trash@ == ts0,
                self.pre_pairs@ == pp0,
                forall|j: int|
                    0 <= j < u_faces@.len() ==> (#[trigger] u_faces@[j]).0 < fs0.len()
                        && u_faces@[j].1 < 3,
                forall|i: int| 0 <= i < vs1.len() && i != temp_pos ==> self.vertices@[i] == vs1[i],
                self.vertices@[temp_pos as int].valid,
                self.vertices@[temp_pos as int].coord == vs1[temp_pos as int].coord,
                self.vertices@[temp_pos as int].q_v == vs1[temp_pos as int].q_v,
                self.vertices@[temp_pos as int].pairs@.len() == 0,
                forall|j: int|
                    0 <= j < self.vertices@[temp_pos as int].faces@.len() ==> (
                    #[trigger] self.vertices@[temp_pos as int].faces@[j]).0 < fs0.len()
                        && self.vertices@[temp_pos as int].faces@[j].1 < 3,
                forall|f: int|
                    0 <= f < fs0.len() ==> (#[trigger] self.faces@[f]).indices@[0] < vs1.len()
                        && self.faces@[f].indices@[1] < vs1.len() && self.faces@[f].indices@[2]
                        < vs1.len(),
                forall|f: int|
                    0 <= f < fs0.len() && !(#[trigger] fs0[f]).valid ==> !self.faces@[f].valid,
                forall|f: int|
                    0 <= f < fs0.len() && !lists_face(old(self).vertices@[first as int], f)
                        ==> (#[trigger] self.faces@[f]) == fs0[f],
                forall|f: int, s: int|
                    0 <= f < fs0.len() && 0 <= s < 3 && in_prefix(u_faces@, k as int, f, s)
                        && self.faces@[f].valid ==> (#[trigger] self.faces@[f].indices@[s])
                        == new_pos,
                self.total as int == count_valid_faces(self.faces@),
                self.total <= t0,
            decreases u_faces@.len() - k,
        {
            let (f_idx, pos) = u_faces[k];
            if self.faces[f_idx].valid() {
                if self.faces[f_idx].both_in(&pos, &second) {
                    let ghost before = self.faces@;
                    proof {
                        lemma_count_pos(before, f_idx as int);
                    }
                    self.faces[f_idx].destroy();
                    proof {
                        lemma_count_update(before, f_idx as int, self.faces@[f_idx as int]);
                    }
                    self.total = self.total - 1;
                } else {
                    let ghost before = self.faces@;
                    self.faces[f_idx].set_index(pos, new_pos);
                    proof {
                        lemma_count_update(before, f_idx as int, self.faces@[f_idx as int]);
                    }
                    self.vertices[temp_pos].add_face(f_idx, pos);
                }
            }
            k = k + 1;
        }

        let v_faces = copy_list(&self.vertices[second].faces);
        proof {
            assert(second < temp_pos);
            assert(self.vertices@[second as int] == vs1[second as int]);
            assert(vs1[second as int] == old(self).vertices@[second as int]);
            assert(self.vertices@[second as int] == old(self).vertices@[second as int]);
            assert forall|j: int| 0 <= j < v_faces@.len() implies (#[trigger] v_faces@[j]).0
                < fs0.len() && v_faces@[j].1 < 3 by {
                assert(v_faces@[j] == old(self).vertices@[second as int].faces@[j]);
            }
        }
        let mut k2: usize = 0;
        while k2 < v_faces.len()
            invariant
                k2 <= v_faces@.len(),
                new_pos == second,
                first != second,
                first < temp_pos,
                second < temp_pos,
                temp_pos == vs1.len() - 1,
                self.vertices@.len() == vs1.len(),
                self.faces@.len() == fs0.len(),
                self.pairs@ == ps0,
                self.heap.entries@ == hs0,
                self.trash@ == ts0,
                self.pre_pairs@ == pp0,
                forall|j: int|
                    0 <= j < v_faces@.len() ==> (#[trigger] v_faces@[j]).0 < fs0.len()
                        && v_faces@[j].1 < 3,
                forall|i: int| 0 <= i < vs1.len() && i != temp_pos ==> self.vertices@[i] == vs1[i],
                self.vertices@[temp_pos as int].valid,
                self.vertices@[temp_pos as int].coord == vs1[temp_pos as int].coord,
                self.vertices@[temp_pos as int].q_v == vs1[temp_pos as int].q_v,
                self.vertices@[temp_pos as int].pairs@.len() == 0,
                forall|j: int|
                    0 <= j < self.vertices@[temp_pos as int].faces@.len() ==> (
                    #[trigger] self.vertices@[temp_pos as int].faces@[j]).0 < fs0.len()
                        && self.vertices@[temp_pos as int].faces@[j].1 < 3,
                forall|f: int|
                    0 <= f < fs0.len() ==> (#[trigger] self.faces@[f]).indices@[0] < vs1.len()
                        && self.faces@[f].indices@[1] < vs1.len() && self.faces@[f].indices@[2]
                        < vs1.len(),
                forall|f: int|
                    0 <= f < fs0.len() && !(#[trigger] fs0[f]).valid ==> !self.faces@[f].valid,
                forall|f: int|
                    0 <= f < fs0.len() && !lists_face(old(self).vertices@[first as int], f)
                        && !lists_face(old(self).vertices@[second as int], f) ==> (
                    #[trigger] self.faces@[f]) == fs0[f],
                forall|f: int, s: int|
                    0 <= f < fs0.len() && 0 <= s < 3 && (in_prefix(
                        u_faces@,
                        u_faces@.len() as int,
                        f,
                        s,
                    ) || in_prefix(v_faces@, k2 as int, f, s)) && self.faces@[f].valid ==> (
                    #[trigger] self.faces@[f].indices@[s]) == new_pos,
                self.total as int == count_valid_faces(self.faces@),
                self.total <= t0,
            decreases v_faces@.len() - k2,
        {
            let (f_idx, pos) = v_faces[k2];
            if self.faces[f_idx].valid() {
                let ghost before = self.faces@;
                self.faces[f_idx].set_index(pos, new_pos);
                proof {
                    lemma_count_update(before, f_idx as int, self.faces@[f_idx as int]);
                }
                self.vertices[temp_pos].add_face(f_idx, pos);
            }
            k2 = k2 + 1;
        }

        let ghost fs2 = self.faces@;
        let u_pairs = copy_list(&self.vertices[first].pairs);
        let mut k3: usize = 0;
        while k3 < u_pairs.len()
            invariant
                k3 <= u_pairs@.len(),
                new_pos == second,
                first != second,
                first < temp_pos,
                second < temp_pos,
                temp_pos == vs1.len() - 1,
                self.vertices@.len() == vs1.len(),
                self.faces@ == fs2,
                self.heap.entries@ == hs0,
                self.trash@ == ts0,
                self.pre_pairs@ == pp0,
                self.total <= t0,
                self.total as int == count_valid_faces(self.faces@),
                self.pairs@.len() == ps0.len(),
                id < ps0.len(),
                !self.pairs@[id as int].valid,
                forall|p: int|
                    0 <= p < ps0.len() && p != id && !lists_pair(
                        old(self).vertices@[first as int],
                        p,
                    ) ==> (#[trigger] self.pairs@[p]) == old(self).pairs@[p],
                forall|p: int|
                    0 <= p < ps0.len() && p != id && pair_in_prefix(u_pairs@, k3 as int, p) ==> (
                    #[trigger] self.pairs@[p]).access,
                forall|p: int|
                    0 <= p < self.pairs@.len() && (#[trigger] self.pairs@[p]).valid
                        ==> self.pairs@[p].first != self.pairs@[p].second && self.pairs@[p].first
                        < temp_pos && self.pairs@[p].second < temp_pos,
                forall|j: int|
                    0 <= j < u_pairs@.len() ==> (#[trigger] u_pairs@[j]).0 < ps0.len() && (
                    u_pairs@[j].1 == 1 || u_pairs@[j].1 == 2),
                forall|i: int| 0 <= i < vs1.len() && i != temp_pos ==> self.vertices@[i] == vs1[i],
                self.vertices@[temp_pos as int].valid,
                self.vertices@[temp_pos as int].coord == vs1[temp_pos as int].coord,
                self.vertices@[temp_pos as int].q_v == vs1[temp_pos as int].q_v,
                forall|j: int|
                    0 <= j < self.vertices@[temp_pos as int].faces@.len() ==> (
                    #[trigger] self.vertices@[temp_pos as int].faces@[j]).0
                        < self.faces@.len() && self.vertices@[temp_pos as int].faces@[j].1 < 3,
                forall|j: int|
                    0 <= j < self.vertices@[temp_pos as int].pairs@.len() ==> (
                    #[trigger] self.vertices@[temp_pos as int].pairs@[j]).0 < ps0.len() && (
                    self.vertices@[temp_pos as int].pairs@[j].1 == 1 || self.vertices@[
                        temp_pos as int
                    ].pairs@[j].1 == 2),
            decreases u_pairs@.len() - k3,
        {
            let (p_idx, pos) = u_pairs[k3];
            if p_idx != id {
                if self.pairs[p_idx].set_vertex(&pos, new_pos) {
                    self.vertices[temp_pos].add_pair(p_idx, pos);
                } else {
                    self.pairs[p_idx].destroy();
                }
            }
            k3 = k3 + 1;
        }

        let v_pairs = copy_list(&self.vertices[second].pairs);
        proof {
            assert(self.vertices@[second as int] == old(self).vertices@[second as int]);
            assert forall|j: int| 0 <= j < v_pairs@.len() implies (#[trigger] v_pairs@[j]).0
                < ps0.len() && (v_pairs@[j].1 == 1 || v_pairs@[j].1 == 2) by {
                assert(v_pairs@[j] == old(self).vertices@[second as int].pairs@[j]);
            }
        }
        let mut k4: usize = 0;
        while k4 < v_pairs.len()
            invariant
                k4 <= v_pairs@.len(),
                new_pos == second,
                first != second,
                first < temp_pos,
                second < temp_pos,
                temp_pos == vs1.len() - 1,
                self.vertices@.len() == vs1.len(),
                self.faces@ == fs2,
                self.heap.entries@ == hs0,
                self.trash@ == ts0,
                self.pre_pairs@ == pp0,
                self.total <= t0,
                self.total as int == count_valid_faces(self.faces@),
                self.pairs@.len() == ps0.len(),
                id < ps0.len(),
                !self.pairs@[id as int].valid,
                forall|p: int|
                    0 <= p < ps0.len() && p != id && !lists_pair(
                        old(self).vertices@[first as int],
                        p,
                    ) && !lists_pair(old(self).vertices@[second as int], p) ==> (
                    #[trigger] self.pairs@[p]) == old(self).pairs@[p],
                forall|p: int|
                    0 <= p < ps0.len() && p != id && (pair_in_prefix(
                        u_pairs@,
                        u_pairs@.len() as int,
                        p,
                    ) || pair_in_prefix(v_pairs@, k4 as int, p)) ==> (
                    #[trigger] self.pairs@[p]).access,
                forall|p: int|
                    0 <= p < self.pairs@.len() && (#[trigger] self.pairs@[p]).valid
                        ==> self.pairs@[p].first != self.pairs@[p].second && self.pairs@[p].first
                        < temp_pos && self.pairs@[p].second < temp_pos,
                forall|j: int|
                    0 <= j < v_pairs@.len() ==> (#[trigger] v_pairs@[j]).0 < ps0.len() && (
                    v_pairs@[j].1 == 1 || v_pairs@[j].1 == 2),
                forall|i: int| 0 <= i < vs1.len() && i != temp_pos ==> self.vertices@[i] == vs1[i],
                self.vertices@[temp_pos as int].valid,
                self.vertices@[temp_pos as int].coord == vs1[temp_pos as int].coord,
                self.vertices@[temp_pos as int].q_v == vs1[temp_pos as int].q_v,
                forall|j: int|
                    0 <= j < self.vertices@[temp_pos as int].faces@.len() ==> (
                    #[trigger] self.vertices@[temp_pos as int].faces@[j]).0
                        < self.faces@.len() && self.vertices@[temp_pos as int].faces@[j].1 < 3,
                forall|j: int|
                    0 <= j < self.vertices@[temp_pos as int].pairs@.len() ==> (
                    #[trigger] self.vertices@[temp_pos as int].pairs@[j]).0 < ps0.len() && (
                    self.vertices@[temp_pos as int].pairs@[j].1 == 1 || self.vertices@[
                        temp_pos as int
                    ].pairs@[j].1 == 2),
            decreases v_pairs@.len() - k4,
        {
            let (p_idx, pos) = v_pairs[k4];
            if p_idx != id {
                if self.pairs[p_idx].set_vertex(&pos, new_pos) {
                    self.vertices[temp_pos].add_pair(p_idx, pos);
                } else {
                    self.pairs[p_idx].destroy();
                }
            }
            k4 = k4 + 1;
        }

        let ghost vloop = self.vertices@;
        self.vertices[first].destroy();
        self.vertices[second].destroy();
        let ghost vpre = self.vertices@;
        let moved = self.vertices.swap_remove(new_pos);
        self.vertices.push(moved);
        proof {
            assert(self.vertices@ =~= vpre.update(new_pos as int, vpre[temp_pos as int]).update(
                temp_pos as int,
                vpre[new_pos as int],
            ));
            let ghost fin = self.vertices@;
            assert(fin[new_pos as int] == vpre[temp_pos as int]);
            assert(fin[temp_pos as int] == vpre[new_pos as int]);
            assert forall|p: int|
                0 <= p < ps0.len() && p != id && (lists_pair(
                    old(self).vertices@[first as int],
                    p,
                ) || lists_pair(old(self).vertices@[second as int], p)) implies (
            #[trigger] self.pairs@[p]).access by {
                if lists_pair(old(self).vertices@[first as int], p) {
                    let j = choose|j: int|
                        0 <= j < old(self).vertices@[first as int].pairs@.len() && (
                        #[trigger] old(self).vertices@[first as int].pairs@[j]).0 == p;
                    assert(u_pairs@[j].0 == p);
                    assert(pair_in_prefix(u_pairs@, u_pairs@.len() as int, p));
                } else {
                    let j = choose|j: int|
                        0 <= j < old(self).vertices@[second as int].pairs@.len() && (
                        #[trigger] old(self).vertices@[second as int].pairs@[j]).0 == p;
                    assert(v_pairs@[j].0 == p);
                    assert(pair_in_prefix(v_pairs@, v_pairs@.len() as int, p));
                }
            }
            assert forall|i: int|
                0 <= i < fin.len() && i != first && i != new_pos && i != temp_pos implies (
            #[trigger] fin[i]) == old(self).vertices@[i] by {
                assert(fin[i] == vpre[i]);
                assert(vpre[i] == vloop[i]);
                assert(vloop[i] == vs1[i]);
                assert(vs1[i] == old(self).vertices@[i]);
            }
            assert(vpre[temp_pos as int] == vloop[temp_pos as int]);
            assert(vpre[new_pos as int].faces@ == old(self).vertices@[second as int].faces@);
            assert(vpre[new_pos as int].pairs@ == old(self).vertices@[second as int].pairs@);
            assert(vpre[first as int].faces@ == old(self).vertices@[first as int].faces@);
            assert(vpre[first as int].pairs@ == old(self).vertices@[first as int].pairs@);
            assert forall|i: int, j: int|
                0 <= i < fin.len() && 0 <= j < fin[i].faces@.len() implies ((
            #[trigger] fin[i].faces@[j]).0 < self.faces@.len() && fin[i].faces@[j].1 < 3) by {
                if i == new_pos {
                    assert(fin[i] == vloop[temp_pos as int]);
                } else if i == temp_pos {
                    assert(fin[i].faces@ == old(self).vertices@[second as int].faces@);
                } else if i == first {
                    assert(fin[i].faces@ == old(self).vertices@[first as int].faces@);
                } else {
                    assert(fin[i] == vloop[i]);
                    assert(vloop[i] == vs1[i]);
                    assert(vs1[i] == old(self).vertices@[i]);
                }
            }
            assert forall|i: int, j: int|
                0 <= i < fin.len() && 0 <= j < fin[i].pairs@.len() implies ((
            #[trigger] fin[i].pairs@[j]).0 < self.pairs@.len() && (fin[i].pairs@[j].1 == 1 || fin[
                i
            ].pairs@[j].1 == 2)) by {
                if i == new_pos {
                    assert(fin[i] == vloop[temp_pos as int]);
                } else if i == temp_pos {
                    assert(fin[i].pairs@ == old(self).vertices@[second as int].pairs@);
                } else if i == first {
                    assert(fin[i].pairs@ == old(self).vertices@[first as int].pairs@);
                } else {
                    assert(fin[i] == vloop[i]);
                    assert(vloop[i] == vs1[i]);
                    assert(vs1[i] == old(self).vertices@[i]);
                }
            }
        }
        new_pos
    }

    /// Rewrite every face corner recorded in a surviving vertex's
    /// incidence list to that vertex's final 1-based output position, in
    /// store order, and return the number of surviving vertices. Face
    /// validity, quadrics and all other stores are untouched; afterwards
    /// every rewritten corner addresses the output order, so the store's
    /// well-formedness is deliberately left behind.
    #[verifier::loop_isolation(false)]
    pub fn finalize_indices(&mut self) -> (count: usize)
        requires
            old(self).wf(),
            old(self).faces_linked(),
            old(self).lists_point_back(),
            old(self).faces_alive(),
            old(self).vertices@.len() < usize::MAX,
        ensures
            count as int == count_valid_vertices(
                old(self).vertices@,
                old(self).vertices@.len() as int,
            ),
            final(self).vertices@ == old(self).vertices@,
            final(self).pairs@ == old(self).pairs@,
            final(self).heap.entries@ == old(self).heap.entries@,
            final(self).trash@ == old(self).trash@,
            final(self).pre_pairs@ == old(self).pre_pairs@,
            final(self).total == old(self).total,
            final(self).faces@.len() == old(self).faces@.len(),
            forall|f: int|
                0 <= f < old(self).faces@.len() ==> (#[trigger] final(self).faces@[f]).valid == old(self).faces@[f].valid && final(self).faces@[f].k_p == old(self).faces@[f].k_p,
            forall|f: int, s: int|
                0 <= f < old(self).faces@.len() && 0 <= s < 3 ==> ((#[trigger] final(self).faces@[f].indices@[s]) == old(self).faces@[f].indices@[s] || (1 <= final(self).faces@[f].indices@[s] <= count as int)),
            forall|f: int, s: int|
                0 <= f < old(self).faces@.len() && 0 <= s < 3 && old(self).faces@[f].valid ==> (
                #[trigger] final(self).faces@[f].indices@[s]) as int == count_valid_vertices(
                    old(self).vertices@,
                    old(self).faces@[f].indices@[s] as int,
                ) + 1 && 1 <= final(self).faces@[f].indices@[s] <= count as int,
    {
        let n = self.vertices.len();
        let mut real_idx: usize = 1;
        let mut i: usize = 0;
        while i < n
            invariant
                i <= n,
                self.vertices@ == old(self).vertices@,
                self.pairs@ == old(self).pairs@,
                self.heap.entries@ == old(self).heap.entries@,
                self.trash@ == old(self).trash@,
                self.pre_pairs@ == old(self).pre_pairs@,
                self.total == old(self).total,
                self.faces@.len() == old(self).faces@.len(),
                real_idx as int == 1 + count_valid_vertices(self.vertices@, i as int),
                real_idx <= n + 1,
                forall|f: int|
                    0 <= f < old(self).faces@.len() ==> (#[trigger] self.faces@[f]).valid == old(self).faces@[f].valid && self.faces@[f].k_p == old(self).faces@[f].k_p,
                forall|f: int, s: int|
                    0 <= f < old(self).faces@.len() && 0 <= s < 3 ==> ((
                    #[trigger] self.faces@[f].indices@[s]) == old(self).faces@[f].indices@[s] || (1
                        <= self.faces@[f].indices@[s] < real_idx as int)),
                forall|f: int, s: int|
                    0 <= f < old(self).faces@.len() && 0 <= s < 3 && old(self).faces@[f].valid
                        && old(self).faces@[f].indices@[s] < i ==> (
                    #[trigger] self.faces@[f].indices@[s]) as int == count_valid_vertices(
                        old(self).vertices@,
                        old(self).faces@[f].indices@[s] as int,
                    ) + 1,
                forall|f: int, s: int|
                    0 <= f < old(self).faces@.len() && 0 <= s < 3 && old(self).faces@[f].valid
                        && old(self).faces@[f].indices@[s] >= i ==> (
                    #[trigger] self.faces@[f].indices@[s]) == old(self).faces@[f].indices@[s],
            decreases n - i,
        {
            proof {
                lemma_cvv_bounds(self.vertices@, i as int);
            }
            if self.vertices[i].valid() {
                let lst = copy_list(&self.vertices[i].faces);
                let mut j: usize = 0;
                while j < lst.len()
                    invariant
                        j <= lst@.len(),
                        self.vertices@ == old(self).vertices@,
                        self.pairs@ == old(self).pairs@,
                        self.heap.entries@ == old(self).heap.entries@,
                        self.trash@ == old(self).trash@,
                        self.pre_pairs@ == old(self).pre_pairs@,
                        self.total == old(self).total,
                        lst@ == self.vertices@[i as int].faces@,
                        i < n,
                        self.faces@.len() == old(self).faces@.len(),
                        forall|f: int|
                            0 <= f < old(self).faces@.len() ==> (#[trigger] self.faces@[f]).valid
                                == old(self).faces@[f].valid && self.faces@[f].k_p == old(self).faces@[f].k_p,
                        forall|f: int, s: int|
                            0 <= f < old(self).faces@.len() && 0 <= s < 3 ==> ((
                            #[trigger] self.faces@[f].indices@[s]) == old(self).faces@[f].indices@[s] || (1 <= self.faces@[f].indices@[s]
                                <= real_idx as int)),
                        forall|f: int, s: int|
                            0 <= f < old(self).faces@.len() && 0 <= s < 3 && old(self).faces@[f].valid
                                && old(self).faces@[f].indices@[s] < i ==> (
                            #[trigger] self.faces@[f].indices@[s]) as int == count_valid_vertices(
                                old(self).vertices@,
                                old(self).faces@[f].indices@[s] as int,
                            ) + 1,
                        forall|f: int, s: int|
                            0 <= f < old(self).faces@.len() && 0 <= s < 3 && old(self).faces@[f].valid
                                && old(self).faces@[f].indices@[s] > i ==> (
                            #[trigger] self.faces@[f].indices@[s]) == old(self).faces@[f].indices@[s],
                        forall|f: int, s: int|
                            0 <= f < old(self).faces@.len() && 0 <= s < 3 && old(self).faces@[f].valid
                                && old(self).faces@[f].indices@[s] == i ==> (
                            #[trigger] self.faces@[f].indices@[s]) as int == (if in_prefix(
                                lst@,
                                j as int,
                                f,
                                s,
                            ) {
                                real_idx as int
                            } else {
                                old(self).faces@[f].indices@[s] as int
                            }),
                    decreases lst@.len() - j,
                {
                    let (f_idx, pos) = lst[j];
                    proof {
                        assert(lst@[j as int] == old(self).vertices@[i as int].faces@[j as int]);
                    }
                    let ghost fprev = self.faces@;
                    self.faces[f_idx].set_index(pos, real_idx);
                    proof {
                        assert forall|f: int, s: int|
                            0 <= f < old(self).faces@.len() && 0 <= s < 3 && old(
                                self,
                            ).faces@[f].valid && old(self).faces@[f].indices@[s] == i implies (
                        #[trigger] self.faces@[f].indices@[s]) as int == (if in_prefix(
                            lst@,
                            j + 1,
                            f,
                            s,
                        ) {
                            real_idx as int
                        } else {
                            old(self).faces@[f].indices@[s] as int
                        }) by {
                            assert(f_idx == lst@[j as int].0);
                            assert(pos == lst@[j as int].1);
                            if f == f_idx as int && s == pos as int {
                                assert(in_prefix(lst@, j + 1, f, s));
                            } else {
                                assert(self.faces@[f].indices@[s] == fprev[f].indices@[s]);
                                if in_prefix(lst@, j + 1, f, s) {
                                    let jj = choose|jj: int|
                                        0 <= jj < j + 1 && (#[trigger] lst@[jj]).0 == f
                                            && lst@[jj].1 == s;
                                    if jj == j {
                                        assert(false);
                                    }
                                    assert(in_prefix(lst@, j as int, f, s));
                                }
                            }
                        }
                    }
                    j = j + 1;
                }
                proof {
                    assert forall|f: int, s: int|
                        0 <= f < old(self).faces@.len() && 0 <= s < 3 && old(self).faces@[f].valid
                            && old(self).faces@[f].indices@[s] == i implies (
                    #[trigger] self.faces@[f].indices@[s]) == real_idx by {
                        assert(lists_corner(old(self).vertices@[i as int], f, s));
                        assert(in_prefix(lst@, lst@.len() as int, f, s));
                    }
                }
                real_idx = real_idx + 1;
            }
            i = i + 1;
        }
        proof {
            lemma_cvv_bounds(self.vertices@, n as int);
            assert forall|f: int, s: int|
                0 <= f < old(self).faces@.len() && 0 <= s < 3 && old(self).faces@[f].valid implies 1
                <= (#[trigger] self.faces@[f].indices@[s]) && self.faces@[f].indices@[s] as int
                <= count_valid_vertices(old(self).vertices@, n as int) by {
                let vi = old(self).faces@[f].indices@[s] as int;
                lemma_cvv_bounds(old(self).vertices@, vi);
                lemma_cvv_mono(old(self).vertices@, vi + 1, n as int);
            }
        }
        real_idx - 1
    }

    /// The positions of the surviving vertices, in store order: what the
    /// output lists as its vertex records.
    pub fn output_vertices(&self) -> (r: Vec<Coord>)
        ensures
            r@ == valid_coords(self.vertices@),
    {
        let mut r: Vec<Coord> = Vec::new();
        let mut i: usize = 0;
        while i < self.vertices.len()
            invariant
                i <= self.vertices@.len(),
                r@ == valid_coords(self.vertices@.take(i as int)),
            decreases self.vertices@.len() - i,
        {
            proof {
                assert(self.vertices@.take(i + 1).drop_last() =~= self.vertices@.take(i as int));
                assert(self.vertices@.take(i + 1).last() == self.vertices@[i as int]);
            }
            if self.vertices[i].valid() {
                let c = self.vertices[i].coord;
                r.push(c);
            }
            i = i + 1;
        }
        proof {
            assert(self.vertices@.take(self.vertices@.len() as int) =~= self.vertices@);
        }
        r
    }

    /// The corner triples of the surviving faces, in store order: what
    /// the output lists as its face records.
    pub fn output_faces(&self) -> (r: Vec<(usize, usize, usize)>)
        ensures
            r@ == valid_face_triples(self.faces@),
    {
        let mut r: Vec<(usize, usize, usize)> = Vec::new();
        let mut i: usize = 0;
        while i < self.faces.len()
            invariant
                i <= self.faces@.len(),
                r@ == valid_face_triples(self.faces@.take(i as int)),
            decreases self.faces@.len() - i,
        {
            proof {
                assert(self.faces@.take(i + 1).drop_last() =~= self.faces@.take(i as int));
                assert(self.faces@.take(i + 1).last() == self.faces@[i as int]);
            }
            if self.faces[i].valid() {
                let t = (self.faces[i].indices[0], self.faces[i].indices[1], self.faces[i].indices[2]);
                r.push(t);
            }
            i = i + 1;
        }
        proof {
            assert(self.faces@.take(self.faces@.len() as int) =~= self.faces@);
        }
        r
    }
}

impl Default for Mesh {
    /// An empty mesh, ready for `load`.
    fn default() -> (r: Mesh)
        ensures
            r.vertices@.len() == 0,
            r.faces@.len() == 0,
            r.pairs@.len() == 0,
            r.heap.entries@.len() == 0,
            r.pre_pairs@.len() == 0,
            r.trash@.len() == 0,
            r.total == 0,
    {
        Mesh::new()
    }
}

} // verus!

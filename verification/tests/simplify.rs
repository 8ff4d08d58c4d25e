use nalgebra::base::Matrix4;
use ordered_float::OrderedFloat;
use nalgebra::base::Vector3;
use nalgebra::base::Vector4;

use qem_simplify::geom::Coord;
use qem_simplify::geom::Quadric;
use qem_simplify::geom::order_key;
use qem_simplify::geom::within_pair_threshold;
use qem_simplify::mesh::Mesh;
use qem_simplify::mesh::TopState;
use qem_simplify::mesh::Triangle;
use qem_simplify::heap::PairHeap;
use qem_simplify::pair::PairEval;
use qem_simplify::pair::PairInfo;

fn coord(x: f64, y: f64, z: f64) -> Coord {
    Coord { x: x.to_bits(), y: y.to_bits(), z: z.to_bits() }
}

fn coord_vec(c: &Coord) -> Vector3<f64> {
    Vector3::new(f64::from_bits(c.x), f64::from_bits(c.y), f64::from_bits(c.z))
}

fn quad_to_matrix(q: &Quadric) -> Matrix4<f64> {
    Matrix4::from_fn(|r, c| f64::from_bits(q.m[r * 4 + c]))
}

fn matrix_to_quad(m: &Matrix4<f64>) -> Quadric {
    let mut a = [0u64; 16];
    for r in 0..4 {
        for c in 0..4 {
            a[r * 4 + c] = m[(r, c)].to_bits();
        }
    }
    Quadric { m: a }
}

fn plane_quadric(p1: &Vector3<f64>, p2: &Vector3<f64>, p3: &Vector3<f64>) -> Matrix4<f64> {
    let n = (p2 - p1).cross(&(p3 - p1)).normalize();
    let d = -n.dot(p1);
    Matrix4::from_fn(|r, c| {
        let s1 = if r > 2 { d } else { n[r] };
        let s2 = if c > 2 { d } else { n[c] };
        s1 * s2
    })
}

fn build(coords: &[(f64, f64, f64)], tris: &[(usize, usize, usize)]) -> Mesh {
    let cs: Vec<Coord> = coords.iter().map(|&(x, y, z)| coord(x, y, z)).collect();
    let ts: Vec<Triangle> = tris
        .iter()
        .map(|&(a, b, c)| {
            let kp = plane_quadric(
                &coord_vec(&cs[a]),
                &coord_vec(&cs[b]),
                &coord_vec(&cs[c]),
            );
            Triangle { a, b, c, k_p: matrix_to_quad(&kp) }
        })
        .collect();
    let mut mesh = Mesh::default();
    mesh.load(&cs, &ts);
    let sums: Vec<Quadric> = (0..mesh.vertices.len())
        .map(|i| {
            let mut q = Matrix4::<f64>::zeros();
            for &(f, _) in mesh.vertices[i].faces.iter() {
                q += quad_to_matrix(&mesh.faces[f].k_p);
            }
            matrix_to_quad(&q)
        })
        .collect();
    mesh.cal_q_v(&sums);
    let edges = mesh.init_pairs();
    for &(u, v) in edges.iter() {
        let d = (coord_vec(&mesh.vertices[u].coord) - coord_vec(&mesh.vertices[v].coord)).norm();
        if !within_pair_threshold(d.to_bits()) {
            continue;
        }
        let eval = evaluate(&mesh, u, v);
        mesh.add_pair(u, v, &eval);
    }
    mesh
}

fn evaluate(mesh: &Mesh, u: usize, v: usize) -> PairEval {
    let q = quad_to_matrix(&mesh.vertices[u].q_v) + quad_to_matrix(&mesh.vertices[v].q_v);
    let p1 = coord_vec(&mesh.vertices[u].coord);
    let p2 = coord_vec(&mesh.vertices[v].coord);
    let qq = matrix_to_quad(&q);
    let finite = q.iter().all(|x| x.is_finite());
    let best = if finite {
        match quad_to_matrix(&qq.optimisation_matrix()).pseudo_inverse(1e-30) {
            Ok(inv) => {
                let col = inv.column(3);
                Vector3::new(col.x, col.y, col.z)
            }
            Err(_) => (p1 + p2) / 2.0f64,
        }
    } else {
        (p1 + p2) / 2.0f64
    };
    let hom = Vector4::new(best.x, best.y, best.z, 1.0);
    let cost = hom.dot(&(q * hom));
    PairEval {
        q_matrix: qq,
        best_point: coord(best.x, best.y, best.z),
        shrink_value: cost.to_bits(),
    }
}

fn clean_top(mesh: &mut Mesh) {
    loop {
        match mesh.top_state() {
            TopState::Empty => break,
            TopState::Clean => break,
            TopState::Stale => {
                mesh.pop_top();
            }
            TopState::Dirty => {
                let e = mesh.pop_top();
                let u = mesh.pairs[e.id].first;
                let v = mesh.pairs[e.id].second;
                let eval = evaluate(mesh, u, v);
                mesh.renew_pair(e.id, &eval);
            }
        }
    }
}

/// Returns true when the queue drained before the target was reached.
fn run(mesh: &mut Mesh, target: u32, check: bool) -> bool {
    while mesh.above_target(target) {
        if mesh.heap.entries.is_empty() {
            return true;
        }
        let victim = mesh.pop_top();
        assert!(mesh.pairs[victim.id].valid);
        mesh.del_pair(victim.id);
        if check {
            check_invariants(mesh);
        }
        clean_top(mesh);
    }
    false
}

fn check_invariants(mesh: &Mesh) {
    let n = mesh.vertices.len();
    // valid faces: three distinct corners, all referencing valid vertices
    let mut live = 0u32;
    for f in mesh.faces.iter() {
        if f.valid {
            live += 1;
            let [a, b, c] = f.indices;
            assert!(a != b && a != c && b != c);
            assert!(a < n && b < n && c < n);
            assert!(mesh.vertices[a].valid && mesh.vertices[b].valid && mesh.vertices[c].valid);
        }
    }
    // the live-face counter matches the store
    assert_eq!(live, mesh.total);
    // valid vertices: every listed corner that is still valid points back
    for (vid, v) in mesh.vertices.iter().enumerate() {
        if v.valid {
            for &(f, s) in v.faces.iter() {
                assert!(f < mesh.faces.len() && s < 3);
                if mesh.faces[f].valid {
                    assert_eq!(mesh.faces[f].indices[s], vid);
                }
            }
        }
    }
    // valid pairs: distinct, valid endpoints
    for p in mesh.pairs.iter() {
        if p.valid {
            assert!(p.first != p.second);
            assert!(mesh.vertices[p.first].valid && mesh.vertices[p.second].valid);
        }
    }
    // the free list holds only ids of invalid vertices
    for &t in mesh.trash.iter() {
        assert!(t < n - 1);
        assert!(!mesh.vertices[t].valid);
    }
}

fn tetra() -> (Vec<(f64, f64, f64)>, Vec<(usize, usize, usize)>) {
    (
        vec![(0.0, 0.0, 0.0), (1.0, 0.0, 0.0), (0.0, 1.0, 0.0), (0.0, 0.0, 1.0)],
        vec![(0, 1, 2), (0, 1, 3), (0, 2, 3), (1, 2, 3)],
    )
}

fn cube() -> (Vec<(f64, f64, f64)>, Vec<(usize, usize, usize)>) {
    (
        vec![
            (0.0, 0.0, 0.0),
            (1.0, 0.0, 0.0),
            (1.0, 1.0, 0.0),
            (0.0, 1.0, 0.0),
            (0.0, 0.0, 1.0),
            (1.0, 0.0, 1.0),
            (1.0, 1.0, 1.0),
            (0.0, 1.0, 1.0),
        ],
        vec![
            (0, 1, 2),
            (0, 2, 3),
            (4, 5, 6),
            (4, 6, 7),
            (0, 1, 5),
            (0, 5, 4),
            (3, 2, 6),
            (3, 6, 7),
            (0, 3, 7),
            (0, 7, 4),
            (1, 2, 6),
            (1, 6, 5),
        ],
    )
}

#[test]
fn order_key_is_monotone_on_costs() {
    let samples = [-3.5f64, -1.0, -0.0, 0.0, 1e-30, 0.25, 1.0, 7.5, 1e30];
    for w in samples.windows(2) {
        assert!(order_key(w[0].to_bits()) <= order_key(w[1].to_bits()));
    }
    assert!(order_key((-1.0f64).to_bits()) < order_key(1.0f64.to_bits()));
    assert!(order_key(f64::NAN.to_bits()) > order_key(1e300f64.to_bits()));
}

#[test]
fn order_key_agrees_with_ordered_float() {
    let samples = [-7.25f64, -1.0, -0.0, 0.0, 1e-300, 0.5, 1.0, 42.0, 1e300, f64::NAN];
    for &a in samples.iter() {
        for &b in samples.iter() {
            let by_float = OrderedFloat(a).cmp(&OrderedFloat(b));
            let by_key = order_key(a.to_bits()).cmp(&order_key(b.to_bits()));
            if a == -0.0 && b == 0.0 || a == 0.0 && b == -0.0 {
                // the key tells the two zero patterns apart; their
                // relative order among themselves is free
                continue;
            }
            assert_eq!(by_float, by_key);
        }
    }
}

#[test]
fn optimisation_matrix_mirrors_upper_triangle() {
    let mut a = [0u64; 16];
    for (i, slot) in a.iter_mut().enumerate() {
        *slot = (i as f64).to_bits();
    }
    let q = Quadric { m: a };
    let m = q.optimisation_matrix();
    assert_eq!(m.m[4], q.m[1]);
    assert_eq!(m.m[8], q.m[2]);
    assert_eq!(m.m[9], q.m[6]);
    assert_eq!(m.m[12], 0);
    assert_eq!(m.m[13], 0);
    assert_eq!(m.m[14], 0);
    assert_eq!(f64::from_bits(m.m[15]), 1.0);
}

#[test]
fn load_builds_stores_and_edges() {
    let (cs, ts) = cube();
    let cs2: Vec<Coord> = cs.iter().map(|&(x, y, z)| coord(x, y, z)).collect();
    let ts2: Vec<Triangle> = ts
        .iter()
        .map(|&(a, b, c)| Triangle { a, b, c, k_p: Quadric::zero() })
        .collect();
    let mut mesh = Mesh::default();
    mesh.load(&cs2, &ts2);
    assert_eq!(mesh.vertices.len(), 9);
    assert!(!mesh.vertices[8].valid);
    assert_eq!(mesh.faces.len(), 12);
    assert_eq!(mesh.total, 12);
    let edges = mesh.init_pairs();
    // 12 cube edges plus one face diagonal per cube face
    assert_eq!(edges.len(), 18);
    for &(u, v) in edges.iter() {
        assert!(u < v && v < 8);
    }
}

#[test]
fn tetra_scale_one_is_identity() {
    let (cs, ts) = tetra();
    let mut mesh = build(&cs, &ts);
    let target = (mesh.total as f32 * 1.0f32) as u32;
    let drained = run(&mut mesh, target, true);
    assert!(!drained);
    assert_eq!(mesh.total, 4);
    let count = mesh.finalize_indices();
    assert_eq!(count, 4);
    let vs = mesh.output_vertices();
    let fs = mesh.output_faces();
    assert_eq!(vs.len(), 4);
    for (i, &(x, y, z)) in cs.iter().enumerate() {
        assert_eq!(vs[i], coord(x, y, z));
    }
    assert_eq!(fs.len(), 4);
    for (i, &(a, b, c)) in ts.iter().enumerate() {
        assert_eq!(fs[i], (a + 1, b + 1, c + 1));
    }
}

#[test]
fn tetra_scale_half_degenerates() {
    let (cs, ts) = tetra();
    let mut mesh = build(&cs, &ts);
    let target = (mesh.total as f32 * 0.5f32) as u32;
    let drained = run(&mut mesh, target, true);
    assert!(!drained);
    assert_eq!(mesh.total, 2);
    let count = mesh.finalize_indices();
    let fs = mesh.output_faces();
    assert_eq!(fs.len(), 2);
    for &(a, b, c) in fs.iter() {
        assert!(1 <= a && a <= count);
        assert!(1 <= b && b <= count);
        assert!(1 <= c && c <= count);
    }
}

#[test]
fn cube_scale_half_keeps_six_faces() {
    let (cs, ts) = cube();
    let mut mesh = build(&cs, &ts);
    let target = (mesh.total as f32 * 0.5f32) as u32;
    let drained = run(&mut mesh, target, true);
    assert!(!drained);
    assert_eq!(mesh.total, 6);
    let count = mesh.finalize_indices();
    let vs = mesh.output_vertices();
    assert_eq!(vs.len(), count);
    let fs = mesh.output_faces();
    assert_eq!(fs.len(), 6);
    for &(a, b, c) in fs.iter() {
        assert!(1 <= a && a <= count);
        assert!(1 <= b && b <= count);
        assert!(1 <= c && c <= count);
    }
}

#[test]
fn collinear_quadric_falls_back_to_midpoint() {
    // three collinear vertices: the triangle has no plane, so its quadric
    // degenerates and the evaluation must guard it with the midpoint
    let cs = vec![(0.0, 0.0, 0.0), (1.0, 0.0, 0.0), (2.0, 0.0, 0.0)];
    let ts = vec![(0, 1, 2)];
    let mesh = build(&cs, &ts);
    let eval = evaluate(&mesh, 0, 1);
    let best = coord_vec(&eval.best_point);
    assert_eq!(best, Vector3::new(0.5, 0.0, 0.0));
    // the cost's key still orders: a degenerate cost lands at the top of
    // the key range instead of poisoning the queue
    let k = order_key(eval.shrink_value);
    assert!(k >= order_key(0.0f64.to_bits()) || f64::from_bits(eval.shrink_value) < 0.0);
}

#[test]
fn far_components_simplify_independently() {
    let (mut cs, mut ts) = tetra();
    let (cs2, ts2) = tetra();
    for &(x, y, z) in cs2.iter() {
        cs.push((x + 100.0, y, z));
    }
    for &(a, b, c) in ts2.iter() {
        ts.push((a + 4, b + 4, c + 4));
    }
    let mut mesh = build(&cs, &ts);
    // no candidate pair crosses the two components
    for p in mesh.pairs.iter() {
        assert_eq!(p.first < 4, p.second < 4);
    }
    let target = 4;
    let drained = run(&mut mesh, target, true);
    assert!(!drained);
    assert_eq!(mesh.total, 4);
}

#[test]
fn scale_zero_drains_heap() {
    let (cs, ts) = tetra();
    let mut mesh = build(&cs, &ts);
    let drained = run(&mut mesh, 0, true);
    // either the queue emptied first (residual faces remain) or the count
    // reached zero
    assert!(drained || mesh.total == 0);
    mesh.finalize_indices();
    let fs = mesh.output_faces();
    assert_eq!(fs.len(), mesh.total as usize);
}

#[test]
fn merged_vertex_carries_summed_quadric() {
    let (cs, ts) = tetra();
    let mut mesh = build(&cs, &ts);
    let victim = mesh.pop_top();
    let id = victim.id;
    assert!(mesh.pairs[id].valid && !mesh.pairs[id].access);
    let u = mesh.pairs[id].first;
    let v = mesh.pairs[id].second;
    let expected = quad_to_matrix(&mesh.vertices[u].q_v) + quad_to_matrix(&mesh.vertices[v].q_v);
    let w = mesh.del_pair(id);
    assert_eq!(quad_to_matrix(&mesh.vertices[w].q_v), expected);
    assert!(!mesh.vertices[u].valid || w == u);
    assert!(mesh.vertices[w].valid);
}

#[test]
fn vertex_on_its_planes_has_zero_error() {
    let (cs, ts) = tetra();
    let mesh = build(&cs, &ts);
    // vertex 0 lies on each incident face's plane, so its accumulated
    // quadric evaluates to zero there
    let q = quad_to_matrix(&mesh.vertices[0].q_v);
    let p = coord_vec(&mesh.vertices[0].coord);
    let hom = Vector4::new(p.x, p.y, p.z, 1.0);
    let err = hom.dot(&(q * hom));
    assert!(err.abs() < 1e-12);
}

#[test]
fn queue_serves_cheapest_first() {
    let mut h = PairHeap::new();
    let costs = [4.0f64, -1.0, 2.5, 0.0, 2.5];
    for (i, c) in costs.iter().enumerate() {
        h.push(PairInfo { id: i, value: order_key(c.to_bits()) });
    }
    let mut popped: Vec<u64> = Vec::new();
    while h.len() > 0 {
        popped.push(h.pop().unwrap().value);
    }
    for w in popped.windows(2) {
        assert!(w[0] <= w[1]);
    }
    assert_eq!(popped.len(), 5);
}

#[test]
fn trash_recycles_the_second_endpoint() {
    let (cs, ts) = tetra();
    let mut mesh = build(&cs, &ts);
    let victim = mesh.pop_top();
    let first = mesh.pairs[victim.id].first;
    let second = mesh.pairs[victim.id].second;
    let w = mesh.del_pair(victim.id);
    assert_eq!(w, second);
    assert!(!mesh.vertices[first].valid);
    assert_eq!(mesh.trash, vec![first]);
    check_invariants(&mesh);
}

use vstd::prelude::*;

verus! {

/// Which of the three extents (width along x, height along y, depth along
/// z) corner `k` of a box adds to the box's origin.
pub open spec fn spec_prism_corner(k: usize) -> (bool, bool, bool) {
    if k == 0 {
        (false, false, false)
    } else if k == 1 {
        (true, false, false)
    } else if k == 2 {
        (true, true, false)
    } else if k == 3 {
        (false, true, false)
    } else if k == 4 {
        (false, false, true)
    } else if k == 5 {
        (true, false, true)
    } else if k == 6 {
        (true, true, true)
    } else {
        (false, true, true)
    }
}

/// The extents that corner `k` (of eight) adds to the box's origin.
#[verifier::when_used_as_spec(spec_prism_corner)]
pub fn prism_corner(k: usize) -> (c: (bool, bool, bool))
    requires
        k < 8,
    ensures
        c == spec_prism_corner(k),
{
    match k {
        0 => (false, false, false),
        1 => (true, false, false),
        2 => (true, true, false),
        3 => (false, true, false),
        4 => (false, false, true),
        5 => (true, false, true),
        6 => (true, true, true),
        _ => (false, true, true),
    }
}

/// The six faces of a box, each as four corners in order around it:
/// front, back, bottom, top, left, right.
pub open spec fn prism_faces() -> Seq<(usize, usize, usize, usize)> {
    seq![(0usize, 1usize, 2usize, 3usize), (4, 5, 6, 7), (0, 1, 5, 4), (3, 2, 6, 7), (0, 3, 7, 4), (1, 2, 6, 5)]
}

/// Triangle `i` of a box: face `i / 2` split along its diagonal from its
/// first corner, the even triangle taking corners one to three of the face,
/// the odd one corners three to four.
pub open spec fn prism_triangle(i: int) -> (usize, usize, usize) {
    let f = prism_faces()[i / 2];
    if i % 2 == 0 {
        (f.0, f.1, f.2)
    } else {
        (f.0, f.2, f.3)
    }
}

/// The twelve triangles that cover the faces of a box, as corner indices.
pub fn prism_triangles() -> (ts: Vec<(usize, usize, usize)>)
    ensures
        ts@.len() == 12,
        forall|i: int| 0 <= i < 12 ==> #[trigger] ts@[i] == prism_triangle(i),
{
    let faces: [(usize, usize, usize, usize); 6] = [
        (0, 1, 2, 3),
        (4, 5, 6, 7),
        (0, 1, 5, 4),
        (3, 2, 6, 7),
        (0, 3, 7, 4),
        (1, 2, 6, 5),
    ];
    let mut ts: Vec<(usize, usize, usize)> = Vec::new();
    let mut f: usize = 0;
    while f < 6
        invariant
            f <= 6,
            faces@ == prism_faces(),
            ts@.len() == 2 * f,
            forall|i: int| 0 <= i < 2 * f ==> #[trigger] ts@[i] == prism_triangle(i),
        decreases 6 - f,
    {
        let (a, b, c, d) = faces[f];
        ts.push((a, b, c));
        ts.push((a, c, d));
        proof {
            assert((2 * f as int) / 2 == f as int && (2 * f as int) % 2 == 0);
            assert((2 * f as int + 1) / 2 == f as int && (2 * f as int + 1) % 2 == 1);
        }
        f = f + 1;
    }
    ts
}

/// The three corners of a triangle share one coordinate: they lie on one
/// face of the box.
pub open spec fn on_one_face(t: (usize, usize, usize)) -> bool {
    let (a, b, c) = (spec_prism_corner(t.0), spec_prism_corner(t.1), spec_prism_corner(t.2));
    ||| a.0 == b.0 && b.0 == c.0
    ||| a.1 == b.1 && b.1 == c.1
    ||| a.2 == b.2 && b.2 == c.2
}

/// Every triangle of a box has three distinct corners out of the eight, and
/// all three lie on one face.
pub proof fn lemma_prism_triangles_on_faces()
    ensures
        forall|i: int|
            0 <= i < 12 ==> {
                let t = #[trigger] prism_triangle(i);
                &&& t.0 < 8 && t.1 < 8 && t.2 < 8
                &&& t.0 != t.1 && t.1 != t.2 && t.0 != t.2
                &&& on_one_face(t)
            },
{
    assert forall|i: int| 0 <= i < 12 implies {
        let t = #[trigger] prism_triangle(i);
        &&& t.0 < 8 && t.1 < 8 && t.2 < 8
        &&& t.0 != t.1 && t.1 != t.2 && t.0 != t.2
        &&& on_one_face(t)
    } by {
        assert(0 <= i / 2 < 6);
    }
}

} // verus!

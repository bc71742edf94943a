use raytracer::prism::{prism_corner, prism_triangles};

#[test]
fn corners_cover_the_box() {
    assert_eq!(prism_corner(0), (false, false, false));
    assert_eq!(prism_corner(2), (true, true, false));
    assert_eq!(prism_corner(6), (true, true, true));
    assert_eq!(prism_corner(7), (false, true, true));
    let mut seen = vec![];
    for k in 0..8 {
        let c = prism_corner(k);
        assert!(!seen.contains(&c));
        seen.push(c);
    }
}

#[test]
fn twelve_triangles_two_per_face() {
    let ts = prism_triangles();
    assert_eq!(ts.len(), 12);
    assert_eq!(ts[0], (0, 1, 2));
    assert_eq!(ts[1], (0, 2, 3));
    assert_eq!(ts[2], (4, 5, 6));
    assert_eq!(ts[3], (4, 6, 7));
    assert_eq!(ts[11], (1, 6, 5));
}

#[test]
fn each_triangle_lies_on_a_face() {
    for (a, b, c) in prism_triangles() {
        let (pa, pb, pc) = (prism_corner(a), prism_corner(b), prism_corner(c));
        let shared = (pa.0 == pb.0 && pb.0 == pc.0) || (pa.1 == pb.1 && pb.1 == pc.1) || (pa.2 == pb.2 && pb.2 == pc.2);
        assert!(shared);
    }
}

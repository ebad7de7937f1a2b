use litcube::vertex::cube_vertices;

#[test]
fn cube_has_36_vertices() {
    assert_eq!(cube_vertices().len(), 36);
}

#[test]
fn every_vertex_sits_on_a_cube_corner_with_the_shared_color() {
    for v in cube_vertices() {
        assert!(v.position.x == 1000 || v.position.x == -1000);
        assert!(v.position.y == 1000 || v.position.y == -1000);
        assert!(v.position.z == 1000 || v.position.z == -1000);
        assert_eq!((v.color.r, v.color.g, v.color.b), (1000, 350, 137));
    }
}

#[test]
fn faces_carry_their_outward_normals() {
    let v = cube_vertices();
    let normals = [
        (0, 0, 1000),
        (0, 0, -1000),
        (0, -1000, 0),
        (0, 1000, 0),
        (-1000, 0, 0),
        (1000, 0, 0),
    ];
    for (face, expected) in normals.iter().enumerate() {
        for i in 0..6 {
            let n = v[face * 6 + i].normal;
            assert_eq!((n.x, n.y, n.z), *expected);
        }
    }
}

#[test]
fn first_triangle_matches_the_front_face() {
    let v = cube_vertices();
    let p0 = v[0].position;
    let p1 = v[1].position;
    let p2 = v[2].position;
    assert_eq!((p0.x, p0.y, p0.z), (-1000, -1000, 1000));
    assert_eq!((p1.x, p1.y, p1.z), (-1000, 1000, 1000));
    assert_eq!((p2.x, p2.y, p2.z), (1000, 1000, 1000));
}

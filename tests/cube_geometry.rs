use lit_cube::geometry::{
    cube_colors, cube_indices, cube_normals, cube_positions, normal_component, FACE_COUNT,
    INDEX_COUNT, VERTEX_COUNT, VERTICES_PER_FACE,
};

#[test]
fn stream_lengths_describe_twenty_four_vertices() {
    assert_eq!(cube_positions().len(), 3 * VERTEX_COUNT);
    assert_eq!(cube_colors().len(), 4 * VERTEX_COUNT);
    assert_eq!(cube_normals().len(), 3 * VERTEX_COUNT);
    assert_eq!(cube_indices().len(), INDEX_COUNT);
    assert_eq!(VERTEX_COUNT, 24);
    assert_eq!(INDEX_COUNT, 36);
    assert_eq!(FACE_COUNT * VERTICES_PER_FACE, VERTEX_COUNT);
}

#[test]
fn indices_follow_the_face_pattern() {
    let indices = cube_indices();
    assert_eq!(&indices[0..6], &[0, 1, 2, 0, 2, 3]);
    assert_eq!(&indices[6..12], &[4, 5, 6, 4, 6, 7]);
    assert_eq!(&indices[30..36], &[20, 21, 22, 20, 22, 23]);
    assert!(indices.iter().all(|&i| (i as usize) < VERTEX_COUNT));
    assert_eq!(indices.len() % 3, 0);
}

#[test]
fn each_face_has_one_axis_aligned_normal() {
    let normals = cube_normals();
    let expected = [[0, 0, 1], [0, 0, -1], [0, 1, 0], [0, -1, 0], [1, 0, 0], [-1, 0, 0]];
    for face in 0..6 {
        for corner in 0..4 {
            let v = 4 * face + corner;
            assert_eq!(&normals[3 * v..3 * v + 3], &expected[face]);
        }
        let n = &expected[face];
        assert_eq!(n.iter().map(|c: &i8| (*c as i32) * (*c as i32)).sum::<i32>(), 1);
    }
    assert_eq!(normal_component(3, 1), -1);
    assert_eq!(normal_component(4, 0), 1);
    assert_eq!(normal_component(4, 2), 0);
}

#[test]
fn palette_repeats_every_four_vertices() {
    let colors = cube_colors();
    assert_eq!(&colors[0..16], &[255, 0, 0, 255, 0, 255, 0, 255, 0, 0, 255, 255, 255, 255, 0, 255]);
    for i in 0..colors.len() - 16 {
        assert_eq!(colors[i], colors[i + 16]);
    }
}

#[test]
fn positions_are_corners_on_their_own_face() {
    let positions = cube_positions();
    let normals = cube_normals();
    assert_eq!(&positions[0..12], &[-1, -1, 1, 1, -1, 1, 1, 1, 1, -1, 1, 1]);
    assert_eq!(&positions[60..72], &[-1, -1, -1, -1, -1, 1, -1, 1, 1, -1, 1, -1]);
    for v in 0..VERTEX_COUNT {
        assert!(positions[3 * v..3 * v + 3].iter().all(|&c| c == 1 || c == -1));
        let dot: i32 = (0..3).map(|c| normals[3 * v + c] as i32 * positions[3 * v + c] as i32).sum();
        assert_eq!(dot, 1);
    }
}

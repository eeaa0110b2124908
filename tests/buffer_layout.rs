use lit_cube::geometry::{cube_colors, cube_indices, cube_normals, cube_positions, VERTEX_COUNT};
use lit_cube::layout::{plan_geometry, AttributeLayout, LayoutError};

#[test]
fn cube_plan_binds_three_tightly_packed_streams() {
    let lens = vec![cube_positions().len(), cube_colors().len(), cube_normals().len()];
    let plan = plan_geometry(&lens, &vec![0, 1, 2], &cube_indices(), VERTEX_COUNT).unwrap();
    assert_eq!(
        plan.attributes,
        vec![
            AttributeLayout { slot: 0, components: 3 },
            AttributeLayout { slot: 1, components: 4 },
            AttributeLayout { slot: 2, components: 3 },
        ]
    );
    assert_eq!(plan.index_count, 36);
}

#[test]
fn zero_vertices_are_refused() {
    let r = plan_geometry(&vec![3], &vec![0], &vec![0, 0, 0], 0);
    assert_eq!(r.err(), Some(LayoutError::NoVertices));
}

#[test]
fn slot_count_must_match_streams() {
    let r = plan_geometry(&vec![9, 9], &vec![0], &vec![0, 1, 2], 3);
    assert_eq!(r.err(), Some(LayoutError::SlotCountMismatch));
}

#[test]
fn first_uneven_stream_is_named() {
    let r = plan_geometry(&vec![9, 10, 7], &vec![0, 1, 2], &vec![0, 1, 2], 3);
    assert_eq!(r.err(), Some(LayoutError::UnevenStream(1)));
    let r = plan_geometry(&vec![15], &vec![0], &vec![0, 1, 2], 3);
    assert_eq!(r.err(), Some(LayoutError::UnevenStream(0)));
    let r = plan_geometry(&vec![9, 0], &vec![0, 1], &vec![0, 1, 2], 3);
    assert_eq!(r.err(), Some(LayoutError::UnevenStream(1)));
}

#[test]
fn indices_must_make_whole_triangles() {
    let r = plan_geometry(&vec![9], &vec![0], &vec![0, 1, 2, 0], 3);
    assert_eq!(r.err(), Some(LayoutError::IncompleteTriangle));
}

#[test]
fn first_out_of_range_index_is_named() {
    let r = plan_geometry(&vec![9], &vec![0], &vec![0, 1, 2, 2, 3, 7], 3);
    assert_eq!(r.err(), Some(LayoutError::IndexOutOfRange(4)));
}

#[test]
fn empty_stream_list_plans_no_bindings() {
    let plan = plan_geometry(&vec![], &vec![], &vec![], 1).unwrap();
    assert!(plan.attributes.is_empty());
    assert_eq!(plan.index_count, 0);
}

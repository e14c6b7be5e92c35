use pulsar::mesh::{cube_indices, vertex_layout, CUBE_INDEX_COUNT, CUBE_VERTEX_COUNT};

#[test]
fn cube_index_list_is_the_quad_pattern() {
    let idx = cube_indices();
    assert_eq!(idx.len(), CUBE_INDEX_COUNT);
    for f in 0..6u16 {
        let base = 4 * f;
        let face = &idx[(6 * f as usize)..(6 * f as usize + 6)];
        assert_eq!(face, &[base, base + 1, base + 2, base + 2, base + 3, base]);
    }
    assert!(idx.iter().all(|&i| i < CUBE_VERTEX_COUNT));
}

#[test]
fn vertex_layout_is_tightly_packed() {
    let l = vertex_layout();
    assert_eq!(l.position_offset, 0);
    assert_eq!(l.color_offset, 12);
    assert_eq!(l.stride, 24);
    assert_eq!(l.position_location, 0);
    assert_eq!(l.color_location, 1);
}

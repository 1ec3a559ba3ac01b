use compute_vk::geom::append_triangles;

#[test]
fn triangles_are_shifted_and_padded() {
    let mut out = vec![[9, 9, 9, 0]];
    append_triangles(&vec![0, 1, 2, 2, 1, 3], 4, &mut out);
    assert_eq!(out, vec![[9, 9, 9, 0], [4, 5, 6, 0], [6, 5, 7, 0]]);
}

#[test]
fn no_indices_add_no_triangles() {
    let mut out = Vec::new();
    append_triangles(&Vec::new(), 7, &mut out);
    assert!(out.is_empty());
}

#[test]
fn largest_index_fits() {
    let mut out = Vec::new();
    append_triangles(&vec![0, 1, u32::MAX - 10], 10, &mut out);
    assert_eq!(out, vec![[10, 11, u32::MAX, 0]]);
}

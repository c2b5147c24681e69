use shapes::polygon::wrap_index;

#[test]
fn last_vertex_wraps_to_the_first() {
    assert_eq!(wrap_index(3, 4), 0);
}

#[test]
fn inner_vertices_step_to_their_successor() {
    assert_eq!(wrap_index(0, 4), 1);
    assert_eq!(wrap_index(1, 4), 2);
    assert_eq!(wrap_index(2, 4), 3);
}

#[test]
fn single_vertex_is_its_own_successor() {
    assert_eq!(wrap_index(0, 1), 0);
}

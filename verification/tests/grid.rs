use bevy_spicy_ldtk::reverse_row_wise;

#[test]
fn rows_swap_in_a_two_by_two_grid() {
    assert_eq!(reverse_row_wise(vec![1, 0, 0, 1], 2), vec![0, 1, 1, 0]);
}

#[test]
fn rows_keep_their_inner_order() {
    assert_eq!(
        reverse_row_wise(vec![1, 2, 3, 4, 5, 6], 3),
        vec![4, 5, 6, 1, 2, 3]
    );
    assert_eq!(
        reverse_row_wise(vec![1, 2, 3, 4, 5, 6], 2),
        vec![5, 6, 3, 4, 1, 2]
    );
}

#[test]
fn a_single_row_is_left_alone() {
    assert_eq!(reverse_row_wise(vec![7, 8, 9], 3), vec![7, 8, 9]);
    assert_eq!(reverse_row_wise(vec![7, 8, 9], 10), vec![7, 8, 9]);
}

#[test]
fn an_empty_grid_stays_empty() {
    assert_eq!(reverse_row_wise(Vec::<i64>::new(), 4), Vec::<i64>::new());
}

#[test]
fn reversing_twice_gives_the_grid_back() {
    let grid = vec![1, 2, 3, 4, 5, 6, 7, 8, 9, 10, 11, 12];
    let once = reverse_row_wise(grid.clone(), 4);
    assert_eq!(once, vec![9, 10, 11, 12, 5, 6, 7, 8, 1, 2, 3, 4]);
    assert_eq!(reverse_row_wise(once, 4), grid);
}

#[test]
fn a_short_last_row_comes_out_first() {
    assert_eq!(reverse_row_wise(vec![1, 2, 3], 2), vec![3, 1, 2]);
    assert_eq!(
        reverse_row_wise(vec!["a", "b", "c", "d", "e"], 2),
        vec!["e", "c", "d", "a", "b"]
    );
}

#[test]
fn rows_of_one_cell_reverse_the_list() {
    assert_eq!(reverse_row_wise(vec![1, 2, 3, 4], 1), vec![4, 3, 2, 1]);
}

#[test]
fn rows_of_no_cells_leave_the_grid_alone() {
    assert_eq!(reverse_row_wise(vec![1, 2, 3], 0), vec![1, 2, 3]);
}

use plandb::layout::{gather_rows, shape_size, transpose_data};

#[test]
fn shape_sizes() {
    assert_eq!(shape_size(&[2, 3]), 6);
    assert_eq!(shape_size(&[4, 5]), 20);
    assert_eq!(shape_size(&[]), 1);
    assert_eq!(shape_size(&[7, 0, 3]), 0);
}

#[test]
fn transpose_two_by_three() {
    let data = vec![1, 2, 3, 4, 5, 6];
    assert_eq!(transpose_data(&data, 2, 3), vec![1, 4, 2, 5, 3, 6]);
}

#[test]
fn transpose_twice_is_identity() {
    let data = vec!['a', 'b', 'c', 'd', 'e', 'f', 'g', 'h'];
    let t = transpose_data(&data, 4, 2);
    assert_eq!(transpose_data(&t, 2, 4), data);
}

#[test]
fn gather_selected_rows() {
    let data = vec![1, 2, 3, 4, 5, 6];
    assert_eq!(gather_rows(&data, 3, 2, &[0, 2]), vec![1, 2, 5, 6]);
    assert_eq!(gather_rows(&data, 3, 2, &[2, 2, 1]), vec![5, 6, 5, 6, 3, 4]);
    assert_eq!(gather_rows(&data, 3, 2, &[]), Vec::<i32>::new());
}

#[test]
fn entries_past_the_matrix_are_not_read() {
    let data = vec![1, 2, 3, 4, 99, 100];
    assert_eq!(transpose_data(&data, 2, 2), vec![1, 3, 2, 4]);
    assert_eq!(gather_rows(&data, 2, 2, &[1, 0]), vec![3, 4, 1, 2]);
}

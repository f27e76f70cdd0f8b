use plandb::model::{checked_count_params, context_start, count_params, param_sizes, Config};

fn config(vocab_size: usize, n_embd: usize, n_layer: usize, block_size: usize) -> Config {
    Config { vocab_size, n_embd, n_head: 4, n_layer, block_size }
}

#[test]
fn count_params_of_training_configuration() {
    // 2*v*e + block*e + layers*(12e^2 + 9e) + 2e with v=10, e=48, 3 layers, block 48
    assert_eq!(count_params(&config(10, 48, 3, 48)), 87600);
    assert_eq!(count_params(&config(65, 48, 3, 48)), 92880);
}

#[test]
fn count_params_without_layers() {
    // embeddings, final layer norm and head only
    assert_eq!(count_params(&config(5, 2, 0, 4)), 5 * 2 + 4 * 2 + 2 + 2 + 2 * 5);
}

#[test]
fn count_params_of_tiny_model() {
    // one layer of width 1: 12 + 9 = 21 scalars
    assert_eq!(count_params(&config(1, 1, 1, 1)), 1 + 1 + 21 + 2 + 1);
    assert_eq!(count_params(&config(0, 0, 7, 9)), 0);
}

#[test]
fn param_sizes_list_every_tensor() {
    let c = config(5, 2, 1, 3);
    assert_eq!(param_sizes(&c), vec![10, 6, 2, 2, 12, 4, 2, 2, 16, 8, 16, 2, 2, 2, 10]);
}

#[test]
fn param_sizes_add_up_to_count() {
    for c in [config(10, 48, 3, 48), config(65, 48, 3, 48), config(5, 2, 0, 4), config(7, 3, 4, 2)] {
        assert_eq!(param_sizes(&c).iter().sum::<usize>(), count_params(&c));
        assert_eq!(param_sizes(&c).len(), 2 + 10 * c.n_layer + 3);
    }
}

#[test]
fn context_window_keeps_last_block() {
    assert_eq!(context_start(100, 48), 52);
    assert_eq!(context_start(48, 48), 0);
    assert_eq!(context_start(3, 48), 0);
}

#[test]
fn checked_count_matches_count() {
    assert_eq!(checked_count_params(&config(10, 48, 3, 48)), Some(87600));
    assert_eq!(checked_count_params(&config(5, 2, 0, 4)), Some(32));
}

#[test]
fn checked_count_detects_overflow() {
    assert_eq!(checked_count_params(&config(usize::MAX, 2, 0, 1)), None);
    assert_eq!(checked_count_params(&config(1, usize::MAX / 2, 0, 1)), None);
    assert_eq!(checked_count_params(&config(1, 1 << 20, 1 << 30, 1)), None);
    // a huge width is fine without layers while 4 * width fits
    let e = usize::MAX / 8;
    assert_eq!(checked_count_params(&config(0, e, 0, 0)), Some(2 * e));
}

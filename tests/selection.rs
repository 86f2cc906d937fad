use fft::selector::{nearest_index, FAR_KEY};

fn distance_keys(grid: &[f64], target: f64) -> Vec<u64> {
    grid.iter().map(|k| (k - target).abs().to_bits()).collect()
}

#[test]
fn picks_the_least_key() {
    assert_eq!(nearest_index(&vec![5, 3, 7, 4]), 1);
    assert_eq!(nearest_index(&vec![9, 8, 7, 6]), 3);
    assert_eq!(nearest_index(&vec![2]), 0);
}

#[test]
fn earlier_point_wins_a_tie() {
    assert_eq!(nearest_index(&vec![5, 3, 3, 4]), 1);
    assert_eq!(nearest_index(&vec![0, 0]), 0);
}

#[test]
fn no_finite_distance_selects_first_point() {
    assert_eq!(nearest_index(&vec![]), 0);
    assert_eq!(nearest_index(&vec![FAR_KEY, FAR_KEY + 1, u64::MAX]), 0);
    assert_eq!(nearest_index(&vec![u64::MAX, FAR_KEY - 1]), 1);
}

#[test]
fn float_distances_order_as_keys() {
    let grid = [-0.5, -0.1, 0.05, 0.3, 0.7];
    assert_eq!(nearest_index(&distance_keys(&grid, 0.0)), 2);
    assert_eq!(nearest_index(&distance_keys(&grid, 0.2)), 3);
    assert_eq!(nearest_index(&distance_keys(&grid, -10.0)), 0);
    assert_eq!(nearest_index(&distance_keys(&grid, 10.0)), 4);
}

#[test]
fn nan_distance_is_never_selected() {
    let grid = [f64::NAN, 1.0, f64::NAN, 0.5];
    assert_eq!(nearest_index(&distance_keys(&grid, 0.0)), 3);
    let all_nan = [f64::NAN, f64::NAN];
    assert_eq!(nearest_index(&distance_keys(&all_nan, 0.0)), 0);
}

#[test]
fn strike_on_a_grid_point_selects_it() {
    let n_points = 1024usize;
    let eta = 0.25;
    let lambda = 2.0 * std::f64::consts::PI / ((n_points as f64) * eta);
    let beta = 80.0f64.ln();
    let grid: Vec<f64> = (0..n_points).map(|m| -beta + (m as f64) * lambda).collect();
    for m in [0usize, 1, 511, 512, 1023] {
        assert_eq!(nearest_index(&distance_keys(&grid, grid[m])), m);
    }
    let spacing = (n_points as f64) * eta * lambda;
    assert!((spacing - 2.0 * std::f64::consts::PI).abs() < 1e-12);
}

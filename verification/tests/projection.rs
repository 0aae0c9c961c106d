//! Fisheye correction and column projection: the identity at the view
//! center, cosine scaling off-center, and the inverse height relation.

use raycaster::grid::GameMap;
use raycaster::player::Player;
use raycaster::projection::{cast_fan, column_height, fisheye_correct, project_columns};
use raycaster::ray::Lighting;
use raycaster::HEIGHT_SCALE;

#[test]
fn center_correction_is_identity() {
    // cos(0) = 1: at the field of view's center the corrected distance
    // equals the raw distance.
    assert_eq!(fisheye_correct(1234, 0), 1234);
    assert_eq!(fisheye_correct(0, 0), 0);
    assert_eq!(fisheye_correct(2_922_300, 0), 2_922_300);
}

#[test]
fn off_center_correction_scales_by_cosine() {
    // cos(30 degrees) = 0.866025 in the table: 2000 * 866025 / 1000000.
    assert_eq!(fisheye_correct(2000, 30), 1732);
    // cos(60 degrees) = 0.5.
    assert_eq!(fisheye_correct(2000, 60), 1000);
}

#[test]
fn column_height_is_inverse_in_distance() {
    assert_eq!(column_height(1000), HEIGHT_SCALE / 1000);
    assert_eq!(column_height(1000), 9_000_000_000);
    assert_eq!(column_height(1001), 8_991_008_991);
    assert_eq!(column_height(2000), 4_500_000_000);
}

#[test]
fn column_height_strictly_decreases() {
    let mut prev: u64 = column_height(1);
    let mut d: u64 = 2;
    while d <= 3_000_000 {
        let h = column_height(d);
        assert!(h < prev, "crossover at distance {d}");
        prev = h;
        d *= 7;
    }
}

#[test]
fn zero_distance_pins_the_tallest_column() {
    assert_eq!(column_height(0), HEIGHT_SCALE);
}

#[test]
fn fan_has_one_ray_per_degree_and_exact_center() {
    let map = GameMap::bordered(10);
    let player = Player::new(5000, 5000, 0, 75);
    let fan = cast_fan(&player, &map, 30);
    assert_eq!(fan.len(), 61);
    // The center ray (offset 0) is the straight cast: raw distance 4000,
    // unchanged by the correction.
    assert_eq!(fan[30].raw, 4000);
    assert_eq!(fan[30].distance, 4000);
    assert_eq!(fan[30].side, Lighting::Lit);
    // Off-center rays keep their raw distance beside the corrected one.
    assert_eq!(fan[0].raw, 4616);
    assert_eq!(fan[0].distance, 3997);
    // The fan is symmetric around the center on a symmetric map.
    assert_eq!(fan[0].distance, fan[60].distance);
}

#[test]
fn columns_follow_the_fan_in_order() {
    let map = GameMap::bordered(10);
    let player = Player::new(5000, 5000, 0, 75);
    let fan = cast_fan(&player, &map, 30);
    let cols = project_columns(&fan);
    assert_eq!(cols.len(), fan.len());
    for i in 0..fan.len() {
        assert_eq!(cols[i].side, fan[i].side);
        assert_eq!(cols[i].height, HEIGHT_SCALE / fan[i].distance);
    }
    // The corrected distance flattens the fan onto the view plane: facing
    // a flat wall, the edge rays come out marginally nearer than the
    // center ray (3997 against 4000 units), so their columns are taller.
    assert!(fan[0].distance < fan[30].distance);
    assert!(cols[0].height > cols[30].height);
}

use constellation_core::geom::{
    clamp_i64, clamp_length, div_trunc, isqrt_u64, length, len_sq, normalize_milli,
    rotate_quarter, round_to_unit, Vec2M,
};

#[test]
fn clamp_picks_the_nearest_bound() {
    assert_eq!(clamp_i64(5, 0, 10), 5);
    assert_eq!(clamp_i64(-5, 0, 10), 0);
    assert_eq!(clamp_i64(15, 0, 10), 10);
}

#[test]
fn division_truncates_toward_zero() {
    assert_eq!(div_trunc(7, 2), 3);
    assert_eq!(div_trunc(-7, 2), -3);
    assert_eq!(div_trunc(999, 1000), 0);
    assert_eq!(div_trunc(-999, 1000), 0);
}

#[test]
fn integer_square_roots_are_exact() {
    assert_eq!(isqrt_u64(0), 0);
    assert_eq!(isqrt_u64(1), 1);
    assert_eq!(isqrt_u64(15), 3);
    assert_eq!(isqrt_u64(16), 4);
    assert_eq!(isqrt_u64(1000000), 1000);
    assert_eq!(isqrt_u64(999999), 999);
}

#[test]
fn length_of_a_pythagorean_vector() {
    let v = Vec2M { x: 3000, y: 4000 };
    assert_eq!(len_sq(v), 25000000);
    assert_eq!(length(v), 5000);
}

#[test]
fn normalize_scales_to_a_unit_direction() {
    let v = Vec2M { x: 3000, y: 4000 };
    let n = normalize_milli(v);
    assert_eq!(n, Vec2M { x: 600, y: 800 });
    let z = normalize_milli(Vec2M { x: 0, y: 0 });
    assert_eq!(z, Vec2M { x: 0, y: 0 });
}

#[test]
fn quarter_turns_swap_coordinates() {
    let v = Vec2M { x: 1000, y: 0 };
    assert_eq!(rotate_quarter(v, 1), Vec2M { x: 0, y: 1000 });
    assert_eq!(rotate_quarter(v, -1), Vec2M { x: 0, y: -1000 });
}

#[test]
fn clamp_length_rescales_short_and_long_vectors() {
    // Length 500, clamped up into [600, 1000]: scaled by 600/500.
    let short = Vec2M { x: 300, y: 400 };
    assert_eq!(clamp_length(short, 600, 1000), Vec2M { x: 360, y: 480 });
    // Length 5000, clamped down to 1000: scaled by 1000/5000.
    let long = Vec2M { x: 3000, y: 4000 };
    assert_eq!(clamp_length(long, 100, 1000), Vec2M { x: 600, y: 800 });
    // Already inside the band: unchanged.
    let fine = Vec2M { x: 300, y: 400 };
    assert_eq!(clamp_length(fine, 100, 1000), fine);
}

#[test]
fn rounding_goes_to_the_nearest_unit_half_away_from_zero() {
    assert_eq!(round_to_unit(1499), 1000);
    assert_eq!(round_to_unit(1500), 2000);
    assert_eq!(round_to_unit(-1499), -1000);
    assert_eq!(round_to_unit(-1500), -2000);
    assert_eq!(round_to_unit(0), 0);
}

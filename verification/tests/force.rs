use particle_life::atom::Atom;
use particle_life::settings::Settings;
use particle_life::vec2::Vec2;

fn settings(r_min: i64, r_max: i64, g: i64) -> Settings {
    let mut s = Settings::new(r_min, r_max, 1_000_000, 2, 2).unwrap();
    s.set_relation(g, 0, 1);
    s
}

fn at(x: i64, y: i64, t: usize) -> Atom {
    Atom::new(Vec2::new(x, y), Vec2::zero(), t)
}

#[test]
fn attraction_in_the_band() {
    let s = settings(100_000, 10_000_000, 500_000);
    let f = at(0, 0, 0).get_force(&at(5_000_000, 0, 1), &s);
    assert_eq!(f, Vec2::new(2_020_202, 0));
    assert!((f.x as f64 / 1e6 - 2.0202).abs() < 1e-4);
}

#[test]
fn repulsion_inside_the_inner_radius() {
    let s = settings(100_000, 10_000_000, 500_000);
    let f = at(0, 0, 0).get_force(&at(500_000, 0, 1), &s);
    assert_eq!(f, Vec2::new(-250_000, 0));
}

#[test]
fn repulsion_halves_the_displacement_at_half_the_inner_radius() {
    let s = settings(100_000, 10_000_000, 500_000);
    let a = at(1_000_000, -2_000_000, 0);
    let b = at(1_300_000, -2_400_000, 1);
    assert_eq!(a.get_force(&b, &s), Vec2::new(-150_000, 200_000));
    assert_eq!(b.get_force(&a, &s), Vec2::new(150_000, -200_000));
}

#[test]
fn repulsion_ignores_the_coefficient() {
    for g in [0, 500_000, -500_000, i64::MAX, i64::MIN] {
        let s = settings(100_000, 10_000_000, g);
        let f = at(1_000, 2_000, 0).get_force(&at(123_456, -654_321, 1), &s);
        assert_eq!(f, Vec2::new(-40_699, 218_134));
    }
}

#[test]
fn repulsion_points_away_and_is_no_longer_than_the_displacement() {
    let s = settings(200_000, 50_000_000, 30_000);
    let a = at(0, 0, 0);
    for (x, y) in [
        (1, 0),
        (0, -1),
        (3_000_000, 4_000_000),
        (-7_000_000, 1_000),
        (9_999_999, 0),
        (-2_500_000, -2_500_000),
        (5, -9_000_000),
    ] {
        let f = a.get_force(&at(x, y, 1), &s);
        assert!(f.x * x <= 0);
        assert!(f.y * y <= 0);
        assert!(f.x.abs() <= x.abs());
        assert!(f.y.abs() <= y.abs());
    }
}

#[test]
fn repulsion_is_strongest_where_particles_nearly_coincide() {
    let s = settings(100_000, 10_000_000, 500_000);
    let f = at(0, 0, 0).get_force(&at(1_000, 0, 1), &s);
    assert_eq!(f, Vec2::new(-999, 0));
    let f = at(0, 0, 0).get_force(&at(999_999, 0, 1), &s);
    assert_eq!(f, Vec2::new(-9, 0));
}

#[test]
fn no_force_between_coinciding_particles() {
    let s = settings(100_000, 10_000_000, 500_000);
    let f = at(7_000_000, -3_000_000, 0).get_force(&at(7_000_000, -3_000_000, 1), &s);
    assert_eq!(f, Vec2::zero());
}

#[test]
fn no_force_beyond_the_cutoff() {
    let s = settings(100_000, 10_000_000, 500_000);
    let a = at(0, 0, 0);
    assert_eq!(a.get_force(&at(10_000_001, 0, 1), &s), Vec2::zero());
    assert_eq!(a.get_force(&at(0, -10_000_001, 1), &s), Vec2::zero());
    assert_eq!(a.get_force(&at(8_000_000, 8_000_000, 1), &s), Vec2::zero());
    assert_eq!(a.get_force(&at(-7_071_069, 7_071_069, 1), &s), Vec2::zero());
    assert_eq!(a.get_force(&at(1_000_000_000_000, 3, 1), &s), Vec2::zero());
}

#[test]
fn no_force_between_the_far_corners() {
    let s = settings(100_000, i64::MAX, i64::MAX);
    let a = at(i64::MIN, i64::MIN, 0);
    let b = at(i64::MAX, i64::MAX, 1);
    assert_eq!(a.get_force(&b, &s), Vec2::zero());
    assert_eq!(b.get_force(&a, &s), Vec2::zero());
}

#[test]
fn force_at_the_cutoff_itself() {
    let s = settings(100_000, 10_000_000, 500_000);
    let f = at(0, 0, 0).get_force(&at(10_000_000, 0, 1), &s);
    assert_eq!(f, Vec2::new(9_090_909, 0));
}

#[test]
fn band_begins_at_the_inner_radius() {
    let s = settings(500_000, 100_000, 500_000);
    let a = at(0, 0, 0);
    assert_eq!(a.get_force(&at(50_000, 0, 1), &s), Vec2::new(-2_500, 0));
    assert_eq!(a.get_force(&at(49_999, 0, 1), &s), Vec2::zero());
    assert_eq!(a.get_force(&at(40_000, 0, 1), &s), Vec2::new(-8_000, 0));
}

#[test]
fn band_vanishes_at_the_inner_radius_without_fold() {
    let s = settings(100_000, 10_000_000, 500_000);
    let a = at(0, 0, 0);
    assert_eq!(a.get_force(&at(1_000_000, 0, 1), &s), Vec2::zero());
    assert_eq!(a.get_force(&at(1_500_000, 0, 1), &s), Vec2::new(75_757, 0));
}

#[test]
fn distance_past_the_midpoint_is_folded_back() {
    let s = settings(200_000, 500_000, 500_000);
    let a = at(0, 0, 0);
    assert_eq!(a.get_force(&at(400_000, 0, 1), &s), Vec2::new(300_000, 0));
    assert_eq!(a.get_force(&at(150_000, 0, 1), &s), Vec2::new(24_999, 0));
}

#[test]
fn cutoff_below_the_inner_fraction() {
    let s = settings(500_000, 100_000, 500_000);
    let f = at(0, 0, 0).get_force(&at(80_000, 0, 1), &s);
    assert_eq!(f, Vec2::new(-10_000, 0));
}

#[test]
fn force_follows_the_displacement() {
    let s = settings(100_000, 10_000_000, 500_000);
    let a = at(0, 0, 0);
    assert_eq!(a.get_force(&at(3_000_000, 4_000_000, 1), &s), Vec2::new(1_212_121, 1_616_161));
    assert_eq!(a.get_force(&at(-3_000_000, 4_000_000, 1), &s), Vec2::new(-1_212_121, 1_616_161));
    assert_eq!(a.get_force(&at(-3_000_000, -4_000_000, 1), &s), Vec2::new(-1_212_121, -1_616_161));
    assert_eq!(a.get_force(&at(4_000_000, -3_000_000, 1), &s), Vec2::new(1_616_161, -1_212_121));
}

#[test]
fn force_depends_on_the_displacement_alone() {
    let s = settings(100_000, 10_000_000, -437_000);
    let f = at(1_000, 2_000, 0).get_force(&at(2_123_456, -3_654_321, 1), &s);
    assert_eq!(f, Vec2::new(-604_794, 1_041_870));
    let shift = 1_000_000_000_000;
    let g = at(1_000 + shift, 2_000 - shift, 0)
        .get_force(&at(2_123_456 + shift, -3_654_321 - shift, 1), &s);
    assert_eq!(g, f);
}

#[test]
fn each_direction_has_its_own_coefficient() {
    let mut s = Settings::new(100_000, 10_000_000, 1_000_000, 2, 2).unwrap();
    s.set_relation(500_000, 0, 1);
    s.set_relation(-300_000, 1, 0);
    let a = at(0, 0, 0);
    let b = at(5_000_000, 0, 1);
    assert_eq!(a.get_force(&b, &s), Vec2::new(2_020_202, 0));
    assert_eq!(b.get_force(&a, &s), Vec2::new(1_212_121, 0));
    s.set_relation(0, 1, 0);
    assert_eq!(a.get_force(&b, &s), Vec2::new(2_020_202, 0));
    assert_eq!(b.get_force(&a, &s), Vec2::zero());
}

#[test]
fn species_pick_the_row_and_the_column() {
    let mut s = Settings::new(100_000, 10_000_000, 1_000_000, 3, 3).unwrap();
    s.set_relation(500_000, 2, 1);
    let here = Vec2::new(0, 0);
    let there = Vec2::new(5_000_000, 0);
    for i in 0..3 {
        for j in 0..3 {
            let a = Atom::new(here, Vec2::zero(), i);
            let b = Atom::new(there, Vec2::zero(), j);
            let expected = if i == 2 && j == 1 { Vec2::new(2_020_202, 0) } else { Vec2::zero() };
            assert_eq!(a.get_force(&b, &s), expected);
        }
    }
}

#[test]
fn unset_coefficient_means_no_interaction() {
    let s = Settings::new(100_000, 10_000_000, 1_000_000, 2, 2).unwrap();
    let f = at(0, 0, 0).get_force(&at(5_000_000, 0, 1), &s);
    assert_eq!(f, Vec2::zero());
}

#[test]
fn velocity_plays_no_part_in_the_force() {
    let s = settings(100_000, 10_000_000, 500_000);
    let a = Atom::new(Vec2::new(0, 0), Vec2::new(123, -456), 0);
    let b = Atom::new(Vec2::new(5_000_000, 0), Vec2::new(-789, 12), 1);
    assert_eq!(a.get_force(&b, &s), Vec2::new(2_020_202, 0));
}

#[test]
fn force_saturates() {
    let s = settings(100_000, 10_000_000, i64::MAX);
    let f = at(0, 0, 0).get_force(&at(5_000_000, 0, 1), &s);
    assert_eq!(f, Vec2::new(i64::MAX, 0));
    let s = settings(100_000, 10_000_000, i64::MIN);
    let f = at(0, 0, 0).get_force(&at(5_000_000, 5, 1), &s);
    assert_eq!(f.x, i64::MIN);
    assert!(f.y < 0);
}

#[test]
fn default_coefficients() {
    let s = Settings::default();
    let here = Vec2::new(0, 0);
    let there = Vec2::new(20_000_000, 10_000_000);
    let force = |i: usize, j: usize| {
        Atom::new(here, Vec2::zero(), i).get_force(&Atom::new(there, Vec2::zero(), j), &s)
    };
    assert_eq!(force(0, 0), Vec2::new(297_846, 148_923));
    assert_eq!(force(1, 0), Vec2::new(148_923, 74_461));
    assert_eq!(force(0, 1), Vec2::new(-198_564, -99_282));
    assert_eq!(force(1, 1), Vec2::new(-198_564, -99_282));
}

fn floating(dx: f64, dy: f64, r_min: f64, r_max: f64, g: f64) -> (f64, f64) {
    let mut d = (dx * dx + dy * dy).sqrt();
    if d > r_max {
        return (0.0, 0.0);
    }
    d = d / r_max;
    if d < r_min {
        let k = d / r_min - 1.0;
        return (dx * k, dy * k);
    }
    let avg = (r_min + r_max) / 2.0;
    if d > avg {
        d = d - avg + r_min;
    }
    let k = r_max * (g * (d - r_min) / (avg - r_min));
    (dx * k, dy * k)
}

#[test]
fn fixed_point_follows_the_real_numbers() {
    let mut seed: u64 = 0x2545_F491_4F6C_DD1D;
    let mut next = move |span: i64| -> i64 {
        seed ^= seed << 13;
        seed ^= seed >> 7;
        seed ^= seed << 17;
        (seed % (2 * span as u64 + 1)) as i64 - span
    };
    for (r_min, r_max) in [(200_000, 50_000_000i64), (100_000, 10_000_000), (10_000, 5_000_000)] {
        for _ in 0..500 {
            let g = next(500_000);
            let dx = next(r_max);
            let dy = next(r_max);
            let s = settings(r_min, r_max, g);
            let f = at(0, 0, 0).get_force(&at(dx, dy, 1), &s);
            let (x, y) = floating(
                dx as f64 / 1e6,
                dy as f64 / 1e6,
                r_min as f64 / 1e6,
                r_max as f64 / 1e6,
                g as f64 / 1e6,
            );
            let edge = ((dx as f64).hypot(dy as f64) - r_max as f64).abs() < 2.0;
            if !edge {
                assert!((f.x as f64 / 1e6 - x).abs() < 1e-3, "{} {} {} {}", g, dx, dy, r_max);
                assert!((f.y as f64 / 1e6 - y).abs() < 1e-3, "{} {} {} {}", g, dx, dy, r_max);
            }
        }
    }
}

use rand::rngs::StdRng;
use rand::Rng;
use rand::SeedableRng;
use shading::color::Color;
use shading::fixed::ONE;
use shading::fragment::Fragment;
use shading::geometry::{Mat4, Vec3};
use shading::oracle::Steady;
use shading::shaders::{
    black_and_white, monochrome_from_draw, monochrome_seed, random_color_shader, tint_from_draws,
    tint_seed,
};
use shading::Uniforms;

fn frame(time: u32) -> Uniforms<Steady> {
    Uniforms {
        model_matrix: Mat4::identity(),
        view_matrix: Mat4::identity(),
        projection_matrix: Mat4::identity(),
        viewport_matrix: Mat4::identity(),
        time,
        noise: Steady { level: 0, wave: 0 },
    }
}

fn at(x: i32, y: i32, intensity: i32) -> Fragment {
    Fragment { vertex_position: Vec3::new(x, y, 0), depth: 0, intensity }
}

fn three_draws(seed: u64) -> Color {
    let mut rng = StdRng::seed_from_u64(seed);
    let r: u8 = rng.gen_range(0..=255);
    let g: u8 = rng.gen_range(0..=255);
    let b: u8 = rng.gen_range(0..=255);
    Color::new(r, g, b)
}

fn one_draw(seed: u64) -> i32 {
    let mut rng = StdRng::seed_from_u64(seed);
    rng.gen_range(0..=100)
}

#[test]
fn tint_seed_is_the_time_step() {
    assert_eq!(tint_seed(0), 0);
    assert_eq!(tint_seed(42), 42);
    assert_eq!(tint_seed(u32::MAX), 4_294_967_295);
}

#[test]
fn monochrome_seed_drops_sign_and_fraction() {
    assert_eq!(monochrome_seed(3, 150_000, -200_000), 9);
    assert_eq!(monochrome_seed(3, -150_000, -200_000), 9);
    assert_eq!(monochrome_seed(10, 35_000, 50_000), 1);
    assert_eq!(monochrome_seed(10, -35_000, 50_000), 1);
    assert_eq!(monochrome_seed(1, 99_999, ONE), 0);
    assert_eq!(monochrome_seed(0, 150_000, 200_000), 0);
    assert_eq!(monochrome_seed(7, 0, 200_000), 0);
}

#[test]
fn monochrome_seed_of_extreme_values() {
    assert_eq!(
        monochrome_seed(u32::MAX, i32::MIN, i32::MIN),
        1_980_704_062_395_439_837
    );
}

#[test]
fn tint_from_draws_orders_and_lights_the_channels() {
    assert_eq!(tint_from_draws((10, 20, 30), ONE), Color::new(10, 20, 30));
    assert_eq!(tint_from_draws((10, 20, 30), ONE / 2), Color::new(5, 10, 15));
    assert_eq!(tint_from_draws((255, 0, 255), 0), Color::new(0, 0, 0));
}

#[test]
fn monochrome_from_draw_cuts_at_fifty() {
    assert_eq!(monochrome_from_draw(0, ONE), Color::new(0, 0, 0));
    assert_eq!(monochrome_from_draw(49, ONE), Color::new(0, 0, 0));
    assert_eq!(monochrome_from_draw(50, ONE), Color::new(255, 255, 255));
    assert_eq!(monochrome_from_draw(100, ONE), Color::new(255, 255, 255));
    assert_eq!(monochrome_from_draw(100, ONE / 2), Color::new(127, 127, 127));
}

#[test]
fn random_tint_takes_the_first_three_draws_of_the_seeded_generator() {
    for time in [0u32, 1, 2, 42, 1_000_003, u32::MAX] {
        let expected = three_draws(time as u64);
        assert_eq!(random_color_shader(&at(5, 6, ONE), &frame(time)), expected);
        assert_eq!(
            random_color_shader(&at(5, 6, ONE / 2), &frame(time)),
            expected.scaled(ONE / 2)
        );
    }
}

#[test]
fn random_tint_is_the_same_for_every_fragment_of_a_time_step() {
    let uniforms = frame(17);
    let first = random_color_shader(&at(0, 0, ONE), &uniforms);
    let second = random_color_shader(&at(123_456, -654_321, ONE), &uniforms);
    assert_eq!(first, second);
    assert_eq!(first, random_color_shader(&at(0, 0, ONE), &uniforms));
}

#[test]
fn random_tint_changes_with_the_time_step() {
    let mut seen = Vec::new();
    for time in 0u32..16 {
        let c = random_color_shader(&at(0, 0, ONE), &frame(time));
        if !seen.contains(&c) {
            seen.push(c);
        }
    }
    assert!(seen.len() > 8);
}

#[test]
fn monochrome_takes_the_first_draw_of_the_seeded_generator() {
    for time in [0u32, 1, 7, 99] {
        for (x, y) in [(150_000, -200_000), (ONE, ONE), (35_000, 50_000), (0, 0)] {
            let seed = monochrome_seed(time, x, y);
            let expected = if one_draw(seed) < 50 {
                Color::new(0, 0, 0)
            } else {
                Color::new(255, 255, 255)
            };
            assert_eq!(black_and_white(&at(x, y, ONE), &frame(time)), expected);
        }
    }
}

#[test]
fn monochrome_gives_both_colours() {
    let mut black = 0;
    let mut white = 0;
    for time in 0u32..64 {
        let c = black_and_white(&at(ONE, ONE, ONE), &frame(time));
        if c == Color::new(0, 0, 0) {
            black += 1;
        } else {
            assert_eq!(c, Color::new(255, 255, 255));
            white += 1;
        }
    }
    assert!(black > 0 && white > 0);
}

#[test]
fn monochrome_is_the_same_for_the_same_fragment() {
    let uniforms = frame(5);
    let fragment = at(250_000, 310_000, 80_000);
    assert_eq!(black_and_white(&fragment, &uniforms), black_and_white(&fragment, &uniforms));
}

use shading::color::Color;
use shading::fixed::ONE;
use shading::fragment::Fragment;
use shading::geometry::{Mat4, Vec3};
use shading::oracle::{Oracle, Steady};
use shading::shaders::{
    cellular_color, cellular_shader, cloud_color, cloud_shader, dalmata_color, dalmata_shader,
    fragment_shader, pulsate, shade_fragment, star, star_color, Pattern,
};
use shading::Uniforms;

const BLACK: Color = Color { r: 0, g: 0, b: 0 };
const WHITE: Color = Color { r: 255, g: 255, b: 255 };
const SKY: Color = Color { r: 30, g: 97, b: 145 };
const DARK: Color = Color { r: 255, g: 193, b: 108 };
const BRIGHT: Color = Color { r: 255, g: 253, b: 190 };

/// An oracle whose answers show which coordinates it was asked for.
struct Probe;

impl Oracle for Probe {
    fn noise_2d(&self, x: i64, y: i64) -> i32 {
        self.get_noise_2d(x, y)
    }

    fn noise_3d(&self, x: i64, y: i64, z: i64) -> i32 {
        self.get_noise_3d(x, y, z)
    }

    fn sine(&self, angle: i64) -> i32 {
        self.sin(angle)
    }

    fn get_noise_2d(&self, x: i64, y: i64) -> i32 {
        if x == 15_000_000 && y == -20_000_000 {
            10_000
        } else if x == 15_000_000 + 10_000_000 + 350_000 && y == -20_000_000 + 10_000_000 {
            60_000
        } else if x == 4_500_000 + 5_000_000 && y == -6_000_000 + 5_000_000 {
            72_000
        } else {
            -1_000_000
        }
    }

    fn get_noise_3d(&self, x: i64, y: i64, z: i64) -> i32 {
        if x == 150_000_000 && y == -200_000_000 && z == (25_000 + 20_000) * 1000 {
            ONE
        } else if x == 100_150_000_000
            && y == 99_800_000_000
            && z == (100_000_000 + 25_000 + 20_000) * 1000
        {
            ONE / 2
        } else {
            -1_000_000
        }
    }

    fn sin(&self, angle: i64) -> i32 {
        if angle == 7 * 600 {
            40_000
        } else {
            -1_000_000
        }
    }
}

fn frame<O: Oracle>(time: u32, noise: O) -> Uniforms<O> {
    Uniforms {
        model_matrix: Mat4::identity(),
        view_matrix: Mat4::identity(),
        projection_matrix: Mat4::identity(),
        viewport_matrix: Mat4::identity(),
        time,
        noise,
    }
}

fn steady(level: i32) -> Uniforms<Steady> {
    frame(3, Steady { level, wave: 0 })
}

fn lit(intensity: i32) -> Fragment {
    Fragment {
        vertex_position: Vec3::new(150_000, -200_000, 999),
        depth: 25_000,
        intensity,
    }
}

#[test]
fn speckle_threshold_is_exclusive_on_the_white_side() {
    assert_eq!(dalmata_color(ONE / 2), BLACK);
    assert_eq!(dalmata_color(ONE / 2 - 1), WHITE);
    assert_eq!(dalmata_color(ONE / 2 + 1), BLACK);
    assert_eq!(dalmata_color(i32::MIN), WHITE);
    assert_eq!(dalmata_color(i32::MAX), BLACK);
}

#[test]
fn speckle_shader_at_the_threshold() {
    assert_eq!(dalmata_shader(&lit(ONE), &steady(ONE / 2)), BLACK);
    assert_eq!(dalmata_shader(&lit(ONE), &steady(ONE / 2 - 1)), WHITE);
}

#[test]
fn speckle_shader_applies_the_intensity() {
    assert_eq!(dalmata_shader(&lit(ONE / 2), &steady(0)), Color::new(127, 127, 127));
}

#[test]
fn speckle_shader_samples_at_a_hundredfold_zoom() {
    assert_eq!(dalmata_shader(&lit(ONE), &frame(7, Probe)), WHITE);
    let mut elsewhere = lit(ONE);
    elsewhere.vertex_position.x += 1;
    assert_eq!(dalmata_shader(&elsewhere, &frame(7, Probe)), WHITE);
    assert_eq!(dalmata_shader(&lit(ONE), &frame(7, Steady { level: 60_000, wave: 0 })), BLACK);
}

#[test]
fn cloud_threshold_is_exclusive_on_the_cloud_side() {
    assert_eq!(cloud_color(ONE / 2), SKY);
    assert_eq!(cloud_color(ONE / 2 + 1), WHITE);
    assert_eq!(cloud_color(-ONE), SKY);
}

#[test]
fn cloud_shader_drifts_with_time() {
    assert_eq!(cloud_shader(&lit(ONE), &frame(7, Probe)), WHITE);
    assert_eq!(cloud_shader(&lit(ONE), &frame(8, Probe)), SKY);
}

#[test]
fn cloud_shader_applies_the_intensity() {
    assert_eq!(cloud_shader(&lit(ONE / 2), &steady(0)), Color::new(15, 48, 72));
    assert_eq!(cloud_shader(&lit(ONE), &steady(ONE)), WHITE);
}

#[test]
fn cellular_bands_keep_their_exact_thresholds() {
    let first = Color::new(85, 107, 47);
    let second = Color::new(124, 252, 0);
    let third = Color::new(34, 139, 34);
    let fourth = Color::new(173, 255, 47);
    assert_eq!(cellular_color(0), first);
    assert_eq!(cellular_color(14_999), first);
    assert_eq!(cellular_color(15_000), second);
    assert_eq!(cellular_color(69_999), second);
    assert_eq!(cellular_color(70_000), third);
    assert_eq!(cellular_color(74_999), third);
    assert_eq!(cellular_color(75_000), fourth);
    assert_eq!(cellular_color(ONE), fourth);
}

#[test]
fn cellular_bands_go_by_the_magnitude() {
    assert_eq!(cellular_color(-14_999), Color::new(85, 107, 47));
    assert_eq!(cellular_color(-15_000), Color::new(124, 252, 0));
    assert_eq!(cellular_color(-70_000), Color::new(34, 139, 34));
    assert_eq!(cellular_color(-75_000), Color::new(173, 255, 47));
    assert_eq!(cellular_color(i32::MIN), Color::new(173, 255, 47));
}

#[test]
fn cellular_shader_at_the_first_threshold() {
    assert_eq!(cellular_shader(&lit(ONE), &steady(15_000)), Color::new(124, 252, 0));
    assert_eq!(cellular_shader(&lit(ONE / 2), &steady(15_000)), Color::new(62, 126, 0));
}

#[test]
fn cellular_shader_samples_at_thirtyfold_zoom_and_offset_fifty() {
    assert_eq!(cellular_shader(&lit(ONE), &frame(7, Probe)), Color::new(34, 139, 34));
}

#[test]
fn star_color_at_the_ends() {
    assert_eq!(star_color(ONE, ONE), BRIGHT);
    assert_eq!(star_color(0, 0), DARK);
}

#[test]
fn star_color_blends_by_the_mean() {
    assert_eq!(star_color(ONE, 0), Color::new(255, 223, 149));
    assert_eq!(star_color(0, ONE), Color::new(255, 223, 149));
    assert_eq!(star_color(ONE / 2, 0), Color::new(255, 208, 129));
}

#[test]
fn star_color_clamps_samples_out_of_range() {
    assert_eq!(star_color(i32::MAX, i32::MAX), BRIGHT);
    assert_eq!(star_color(i32::MIN, i32::MIN), DARK);
    assert_eq!(star_color(-ONE, -ONE), DARK);
    assert_eq!(star_color(i32::MAX, i32::MIN), DARK);
}

#[test]
fn star_with_full_samples_is_bright() {
    let uniforms = frame(0, Steady { level: ONE, wave: 0 });
    assert_eq!(star(&lit(ONE), &uniforms), BRIGHT);
}

#[test]
fn star_with_zero_samples_is_dark() {
    let uniforms = frame(0, Steady { level: 0, wave: 0 });
    assert_eq!(star(&lit(ONE), &uniforms), DARK);
}

#[test]
fn star_applies_the_intensity() {
    let uniforms = frame(0, Steady { level: 0, wave: 0 });
    assert_eq!(star(&lit(ONE / 2), &uniforms), Color::new(127, 96, 54));
}

#[test]
fn star_samples_twice_with_the_pulse_along_z() {
    assert_eq!(star(&lit(ONE), &frame(7, Probe)), Color::new(255, 238, 170));
}

#[test]
fn pulsate_is_half_the_sine() {
    assert_eq!(pulsate(&frame(7, Probe)), 20_000);
    assert_eq!(pulsate(&frame(1, Steady { level: 0, wave: ONE })), ONE / 2);
    assert_eq!(pulsate(&frame(1, Steady { level: 0, wave: -ONE })), -ONE / 2);
    assert_eq!(pulsate(&frame(1, Steady { level: 0, wave: -1 })), -1);
    assert_eq!(pulsate(&frame(1, Steady { level: 0, wave: 1 })), 0);
}

#[test]
fn the_fragment_shader_is_the_star() {
    let uniforms = frame(7, Probe);
    assert_eq!(fragment_shader(&lit(ONE), &uniforms), star(&lit(ONE), &uniforms));
    assert_eq!(fragment_shader(&lit(ONE), &uniforms), Color::new(255, 238, 170));
}

#[test]
fn shade_fragment_picks_the_pattern() {
    let uniforms = steady(60_000);
    let fragment = lit(ONE);
    assert_eq!(shade_fragment(Pattern::Dalmatian, &fragment, &uniforms), BLACK);
    assert_eq!(shade_fragment(Pattern::Cloud, &fragment, &uniforms), WHITE);
    assert_eq!(shade_fragment(Pattern::Cellular, &fragment, &uniforms), Color::new(124, 252, 0));
    assert_eq!(shade_fragment(Pattern::Star, &fragment, &uniforms), Color::new(255, 229, 157));
}

#[test]
fn without_light_every_pattern_is_black() {
    let patterns = [
        Pattern::RandomTint,
        Pattern::Monochrome,
        Pattern::Dalmatian,
        Pattern::Cloud,
        Pattern::Cellular,
        Pattern::Star,
    ];
    for pattern in patterns {
        for level in [-ONE, 0, 10_000, 60_000, ONE] {
            for time in [0u32, 1, 77, u32::MAX] {
                let uniforms = frame(time, Steady { level, wave: level });
                let mut fragment = lit(0);
                assert_eq!(shade_fragment(pattern, &fragment, &uniforms), BLACK);
                fragment.vertex_position = Vec3::new(i32::MAX, i32::MIN, 5);
                fragment.depth = i32::MIN;
                assert_eq!(shade_fragment(pattern, &fragment, &uniforms), BLACK);
            }
        }
    }
}

#[test]
fn extreme_fragments_do_not_fail() {
    let uniforms = frame(u32::MAX, Steady { level: i32::MIN, wave: i32::MAX });
    let fragment = Fragment {
        vertex_position: Vec3::new(i32::MAX, i32::MAX, i32::MAX),
        depth: i32::MAX,
        intensity: i32::MAX,
    };
    assert_eq!(shade_fragment(Pattern::Dalmatian, &fragment, &uniforms), WHITE);
    assert_eq!(shade_fragment(Pattern::Cloud, &fragment, &uniforms), Color::new(255, 255, 255));
    assert_eq!(shade_fragment(Pattern::Cellular, &fragment, &uniforms), Color::new(255, 255, 255));
    assert_eq!(shade_fragment(Pattern::Star, &fragment, &uniforms), WHITE);
}

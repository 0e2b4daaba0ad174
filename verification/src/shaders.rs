//! The two stages of shading: the vertex transformer and the fragment
//! colourer with its family of procedural patterns.

use vstd::prelude::*;
use crate::color::{Color, lemma_scaled_by_zero_is_black};
use crate::fixed::{ONE, spec_quotient, quotient, product};
use crate::fragment::Fragment;
use crate::geometry::{Mat3, Mat4, Vec3, Vec4, lemma_identity_transform,
    lemma_inverse_of_transpose};
use crate::oracle::Oracle;
use crate::random::{seeded_channels, seeded_level, draw_channels, draw_level};
use crate::uniforms::Uniforms;
use crate::vertex::Vertex;

verus! {

/// A point of three coordinates as a homogeneous point with weight one.
pub open spec fn spec_lift(position: Vec3) -> Vec4 {
    Vec4 { x: position.x, y: position.y, z: position.z, w: ONE }
}

/// The position in clip space: the model matrix applied first, then the view
/// matrix, then the projection matrix.
pub open spec fn spec_clip_position(position: Vec3, model: Mat4, view: Mat4, projection: Mat4)
    -> Vec4 {
    projection.spec_transform(view.spec_transform(model.spec_transform(spec_lift(position))))
}

/// The perspective divide: the first three coordinates over the fourth, and
/// a weight of one. A zero weight does not fail: each quotient then follows
/// the zero-divisor policy of `spec_quotient`.
pub open spec fn spec_perspective_divide(clip: Vec4) -> Vec4 {
    Vec4 {
        x: spec_quotient(clip.x as int, clip.w as int),
        y: spec_quotient(clip.y as int, clip.w as int),
        z: spec_quotient(clip.z as int, clip.w as int),
        w: ONE,
    }
}

/// The matrix that carries normals: the inverse of the transposed upper-left
/// block of the model matrix, or the identity where that block is singular.
pub open spec fn spec_normal_matrix(model: Mat4) -> Mat3 {
    match model.spec_upper_left().spec_transpose().spec_inverse() {
        Some(inverse) => inverse,
        None => Mat3::spec_identity(),
    }
}

/// The vertex that the transformer gives for a vertex and a frame's matrices.
pub open spec fn spec_vertex_shader(
    vertex: Vertex,
    model: Mat4,
    view: Mat4,
    projection: Mat4,
    viewport: Mat4,
) -> Vertex {
    let clip = spec_clip_position(vertex.position, model, view, projection);
    let screen = viewport.spec_transform(spec_perspective_divide(clip));
    Vertex {
        position: vertex.position,
        normal: vertex.normal,
        tex_coords: vertex.tex_coords,
        color: vertex.color,
        transformed_position: Vec3 { x: screen.x, y: screen.y, z: screen.z },
        transformed_normal: spec_normal_matrix(model).spec_transform(vertex.normal),
    }
}

/// Divides a clip-space position by its weight.
pub fn perspective_divide(clip: &Vec4) -> (ndc: Vec4)
    ensures
        ndc == spec_perspective_divide(*clip),
{
    Vec4 {
        x: quotient(clip.x, clip.w),
        y: quotient(clip.y, clip.w),
        z: quotient(clip.z, clip.w),
        w: ONE,
    }
}

/// The matrix that carries normals from model space to world space. A model
/// matrix whose upper-left block cannot be inverted silently gets the
/// identity.
pub fn normal_matrix(model: &Mat4) -> (m: Mat3)
    ensures
        m == spec_normal_matrix(*model),
        model.spec_upper_left().spec_determinant() == 0 ==> m == Mat3::spec_identity(),
{
    proof {
        lemma_inverse_of_transpose(model.spec_upper_left());
    }
    match model.upper_left().transpose().try_inverse() {
        Some(inverse) => inverse,
        None => Mat3::identity(),
    }
}

/// Transforms one vertex: the position goes through the model, view and
/// projection matrices, the perspective divide and the viewport matrix; the
/// normal goes through the normal matrix and is not normalized again. The
/// four given fields are copied as they are.
pub fn vertex_shader<O: Oracle>(vertex: &Vertex, uniforms: &Uniforms<O>) -> (out: Vertex)
    ensures
        out == spec_vertex_shader(
            *vertex,
            uniforms.model_matrix,
            uniforms.view_matrix,
            uniforms.projection_matrix,
            uniforms.viewport_matrix,
        ),
        out.position == vertex.position,
        out.normal == vertex.normal,
        out.tex_coords == vertex.tex_coords,
        out.color == vertex.color,
        uniforms.model_matrix.spec_upper_left().spec_determinant() == 0
            ==> out.transformed_normal == vertex.normal,
{
    let position = Vec4 {
        x: vertex.position.x,
        y: vertex.position.y,
        z: vertex.position.z,
        w: ONE,
    };
    let in_world = uniforms.model_matrix.transform(&position);
    let in_camera = uniforms.view_matrix.transform(&in_world);
    let clip = uniforms.projection_matrix.transform(&in_camera);
    let ndc = perspective_divide(&clip);
    let screen = uniforms.viewport_matrix.transform(&ndc);
    let normals = normal_matrix(&uniforms.model_matrix);
    let transformed_normal = normals.transform(&vertex.normal);
    proof {
        lemma_identity_transform(vertex.normal);
    }
    Vertex {
        position: vertex.position,
        normal: vertex.normal,
        tex_coords: vertex.tex_coords,
        color: vertex.color,
        transformed_position: Vec3 { x: screen.x, y: screen.y, z: screen.z },
        transformed_normal,
    }
}

/// The procedural patterns that can colour a fragment.
#[derive(Clone, Copy, Debug, PartialEq, Eq)]
pub enum Pattern {
    /// One pseudo-random colour per time step.
    RandomTint,
    /// Black or white, drawn per fragment.
    Monochrome,
    /// White speckles on black.
    Dalmatian,
    /// White clouds drifting over a blue sky.
    Cloud,
    /// Cells in four shades of green.
    Cellular,
    /// A warm surface that brightens and darkens with a slow pulse.
    Star,
}

/// White: every channel at its maximum.
pub open spec fn spec_white() -> Color {
    Color { r: 255, g: 255, b: 255 }
}

/// The blue of the sky behind the clouds.
pub open spec fn spec_sky() -> Color {
    Color { r: 30, g: 97, b: 145 }
}

/// The dark end of the star's range of colours.
pub open spec fn spec_star_dark() -> Color {
    Color { r: 255, g: 193, b: 108 }
}

/// The bright end of the star's range of colours.
pub open spec fn spec_star_bright() -> Color {
    Color { r: 255, g: 253, b: 190 }
}

/// The absolute value of a noise sample.
pub open spec fn spec_magnitude(sample: i32) -> int {
    if sample < 0 {
        -sample
    } else {
        sample as int
    }
}

/// The seed of the tint: the time step itself.
pub open spec fn spec_tint_seed(time: u32) -> u64 {
    time as u64
}

/// The seed of the monochrome pattern: the product of the time step and the
/// fragment's two surface coordinates, without its sign and without its
/// fraction.
pub open spec fn spec_monochrome_seed(time: u32, x: i32, y: i32) -> u64 {
    (spec_magnitude_wide(time * y * x) / (ONE * ONE)) as u64
}

/// The absolute value of an exact product.
pub open spec fn spec_magnitude_wide(v: int) -> int {
    if v < 0 {
        -v
    } else {
        v
    }
}

/// The tint before lighting: the three draws as red, green and blue.
pub open spec fn spec_tint_color(drawn: (u8, u8, u8)) -> Color {
    Color { r: drawn.0, g: drawn.1, b: drawn.2 }
}

/// The monochrome colour before lighting: black for a draw below 50, white
/// from 50 on.
pub open spec fn spec_monochrome_color(drawn: i32) -> Color {
    if drawn < 50 {
        Color::spec_black()
    } else {
        spec_white()
    }
}

/// The speckle colour before lighting: white for a sample below one half,
/// black from one half on.
pub open spec fn spec_dalmata_color(sample: i32) -> Color {
    if sample < ONE / 2 {
        spec_white()
    } else {
        Color::spec_black()
    }
}

/// The cloud colour before lighting: white for a sample above one half, sky
/// blue up to and including one half.
pub open spec fn spec_cloud_color(sample: i32) -> Color {
    if sample > ONE / 2 {
        spec_white()
    } else {
        spec_sky()
    }
}

/// The cell colour before lighting. The magnitude of the sample falls into
/// one of four bands: below 0.15, below 0.7, below 0.75, and the rest.
pub open spec fn spec_cellular_color(sample: i32) -> Color {
    let magnitude = spec_magnitude(sample);
    if magnitude < 15_000 {
        Color { r: 85, g: 107, b: 47 }
    } else if magnitude < 70_000 {
        Color { r: 124, g: 252, b: 0 }
    } else if magnitude < 75_000 {
        Color { r: 34, g: 139, b: 34 }
    } else {
        Color { r: 173, g: 255, b: 47 }
    }
}

/// The blend factor of the star: the mean of its two samples, rounded down.
pub open spec fn spec_star_blend(first: i32, second: i32) -> i32 {
    ((first + second) / 2) as i32
}

/// The star colour before lighting: from dark to bright by the mean of the
/// two samples.
pub open spec fn spec_star_color(first: i32, second: i32) -> Color {
    spec_star_dark().spec_lerp(spec_star_bright(), spec_star_blend(first, second))
}

/// The angle of the star's pulse at a time step: the time times 0.01, times
/// the base frequency 0.6.
pub open spec fn spec_pulse_angle(time: u32) -> i64 {
    (time * 600) as i64
}

/// The star's pulse: half of the sine, rounded down.
pub open spec fn spec_pulsate(sine: i32) -> i32 {
    (sine / 2) as i32
}

/// A coordinate of the star's noise: the fragment's coordinate, moved by an
/// offset in whole units and by the pulse, then magnified a thousand times.
pub open spec fn spec_star_coordinate(v: i32, offset: int, pulsate: int) -> i64 {
    ((v + offset * ONE + pulsate) * 1000) as i64
}

/// The colour of the pseudo-random tint for a fragment.
pub open spec fn spec_random_color_shader<O: Oracle>(fragment: Fragment, uniforms: Uniforms<O>)
    -> Color {
    spec_tint_color(seeded_channels(spec_tint_seed(uniforms.time), 0, 255)).spec_scaled(
        fragment.intensity,
    )
}

/// The colour of the monochrome pattern for a fragment.
pub open spec fn spec_black_and_white<O: Oracle>(fragment: Fragment, uniforms: Uniforms<O>)
    -> Color {
    let seed = spec_monochrome_seed(
        uniforms.time,
        fragment.vertex_position.x,
        fragment.vertex_position.y,
    );
    spec_monochrome_color(seeded_level(seed, 0, 100)).spec_scaled(fragment.intensity)
}

/// The colour of the speckle pattern for a fragment: the noise is sampled at
/// the surface position magnified a hundred times.
pub open spec fn spec_dalmata_shader<O: Oracle>(fragment: Fragment, uniforms: Uniforms<O>)
    -> Color {
    let sample = uniforms.noise.noise_2d(
        (fragment.vertex_position.x * 100) as i64,
        (fragment.vertex_position.y * 100) as i64,
    );
    spec_dalmata_color(sample).spec_scaled(fragment.intensity)
}

/// The colour of the cloud pattern for a fragment: the noise is sampled at
/// the surface position magnified a hundred times and moved by a hundred
/// units; half the time step is added along x, which makes the clouds drift.
pub open spec fn spec_cloud_shader<O: Oracle>(fragment: Fragment, uniforms: Uniforms<O>)
    -> Color {
    let sample = uniforms.noise.noise_2d(
        (fragment.vertex_position.x * 100 + 100 * ONE + uniforms.time * (ONE / 2)) as i64,
        (fragment.vertex_position.y * 100 + 100 * ONE) as i64,
    );
    spec_cloud_color(sample).spec_scaled(fragment.intensity)
}

/// The colour of the cellular pattern for a fragment: the noise is sampled
/// at the surface position magnified thirty times and moved by fifty units.
pub open spec fn spec_cellular_shader<O: Oracle>(fragment: Fragment, uniforms: Uniforms<O>)
    -> Color {
    let sample = uniforms.noise.noise_2d(
        (fragment.vertex_position.x * 30 + 50 * ONE) as i64,
        (fragment.vertex_position.y * 30 + 50 * ONE) as i64,
    );
    spec_cellular_color(sample).spec_scaled(fragment.intensity)
}

/// The colour of the star for a fragment. The position is the surface
/// position with the depth as third coordinate. The first sample is taken at
/// the position, the second a thousand units further along every axis; the
/// pulse moves both along z.
pub open spec fn spec_star<O: Oracle>(fragment: Fragment, uniforms: Uniforms<O>) -> Color {
    let pulsate = spec_pulsate(uniforms.noise.sine(spec_pulse_angle(uniforms.time)));
    let first = uniforms.noise.noise_3d(
        spec_star_coordinate(fragment.vertex_position.x, 0, 0),
        spec_star_coordinate(fragment.vertex_position.y, 0, 0),
        spec_star_coordinate(fragment.depth, 0, pulsate as int),
    );
    let second = uniforms.noise.noise_3d(
        spec_star_coordinate(fragment.vertex_position.x, 1000, 0),
        spec_star_coordinate(fragment.vertex_position.y, 1000, 0),
        spec_star_coordinate(fragment.depth, 1000, pulsate as int),
    );
    spec_star_color(first, second).spec_scaled(fragment.intensity)
}

/// The colour that a pattern gives a fragment.
pub open spec fn spec_shade_fragment<O: Oracle>(
    pattern: Pattern,
    fragment: Fragment,
    uniforms: Uniforms<O>,
) -> Color {
    match pattern {
        Pattern::RandomTint => spec_random_color_shader(fragment, uniforms),
        Pattern::Monochrome => spec_black_and_white(fragment, uniforms),
        Pattern::Dalmatian => spec_dalmata_shader(fragment, uniforms),
        Pattern::Cloud => spec_cloud_shader(fragment, uniforms),
        Pattern::Cellular => spec_cellular_shader(fragment, uniforms),
        Pattern::Star => spec_star(fragment, uniforms),
    }
}

/// Where the upper-left block of the model matrix can be inverted, the
/// transformed normal is the transposed inverse of that block applied to the
/// normal.
pub proof fn lemma_normal_of_invertible_model(
    vertex: Vertex,
    model: Mat4,
    view: Mat4,
    projection: Mat4,
    viewport: Mat4,
)
    requires
        model.spec_upper_left().spec_determinant() != 0,
    ensures
        model.spec_upper_left().spec_inverse().is_some(),
        spec_vertex_shader(vertex, model, view, projection, viewport).transformed_normal
            == model.spec_upper_left().spec_inverse().unwrap().spec_transpose().spec_transform(
            vertex.normal,
        ),
{
    lemma_inverse_of_transpose(model.spec_upper_left());
}

/// Where the upper-left block of the model matrix is singular, the normal
/// comes out as it went in.
pub proof fn lemma_normal_of_singular_model(
    vertex: Vertex,
    model: Mat4,
    view: Mat4,
    projection: Mat4,
    viewport: Mat4,
)
    requires
        model.spec_upper_left().spec_determinant() == 0,
    ensures
        spec_vertex_shader(vertex, model, view, projection, viewport).transformed_normal
            == vertex.normal,
{
    lemma_inverse_of_transpose(model.spec_upper_left());
    lemma_identity_transform(vertex.normal);
}

/// The transformer changes none of the four fields that the mesh gave.
pub proof fn lemma_vertex_shader_keeps_input(
    vertex: Vertex,
    model: Mat4,
    view: Mat4,
    projection: Mat4,
    viewport: Mat4,
)
    ensures
        spec_vertex_shader(vertex, model, view, projection, viewport).position == vertex.position,
        spec_vertex_shader(vertex, model, view, projection, viewport).normal == vertex.normal,
        spec_vertex_shader(vertex, model, view, projection, viewport).tex_coords
            == vertex.tex_coords,
        spec_vertex_shader(vertex, model, view, projection, viewport).color == vertex.color,
{
}

/// A fragment without light is black under every pattern, wherever it lies
/// and whatever the time.
pub proof fn lemma_unlit_fragment_is_black<O: Oracle>(
    pattern: Pattern,
    fragment: Fragment,
    uniforms: Uniforms<O>,
)
    requires
        fragment.intensity == 0,
    ensures
        spec_shade_fragment(pattern, fragment, uniforms) == Color::spec_black(),
{
    let seed = spec_monochrome_seed(
        uniforms.time,
        fragment.vertex_position.x,
        fragment.vertex_position.y,
    );
    let pulsate = spec_pulsate(uniforms.noise.sine(spec_pulse_angle(uniforms.time)));
    let base = match pattern {
        Pattern::RandomTint => spec_tint_color(
            seeded_channels(spec_tint_seed(uniforms.time), 0, 255),
        ),
        Pattern::Monochrome => spec_monochrome_color(seeded_level(seed, 0, 100)),
        Pattern::Dalmatian => spec_dalmata_color(
            uniforms.noise.noise_2d(
                (fragment.vertex_position.x * 100) as i64,
                (fragment.vertex_position.y * 100) as i64,
            ),
        ),
        Pattern::Cloud => spec_cloud_color(
            uniforms.noise.noise_2d(
                (fragment.vertex_position.x * 100 + 100 * ONE + uniforms.time * (ONE / 2)) as i64,
                (fragment.vertex_position.y * 100 + 100 * ONE) as i64,
            ),
        ),
        Pattern::Cellular => spec_cellular_color(
            uniforms.noise.noise_2d(
                (fragment.vertex_position.x * 30 + 50 * ONE) as i64,
                (fragment.vertex_position.y * 30 + 50 * ONE) as i64,
            ),
        ),
        Pattern::Star => spec_star_color(
            uniforms.noise.noise_3d(
                spec_star_coordinate(fragment.vertex_position.x, 0, 0),
                spec_star_coordinate(fragment.vertex_position.y, 0, 0),
                spec_star_coordinate(fragment.depth, 0, pulsate as int),
            ),
            uniforms.noise.noise_3d(
                spec_star_coordinate(fragment.vertex_position.x, 1000, 0),
                spec_star_coordinate(fragment.vertex_position.y, 1000, 0),
                spec_star_coordinate(fragment.depth, 1000, pulsate as int),
            ),
        ),
    };
    lemma_scaled_by_zero_is_black(base);
}

/// Derives the seed of the tint from the time step.
pub fn tint_seed(time: u32) -> (seed: u64)
    ensures
        seed == spec_tint_seed(time),
{
    time as u64
}

/// Derives the seed of the monochrome pattern from the time step and the
/// fragment's surface coordinates.
pub fn monochrome_seed(time: u32, x: i32, y: i32) -> (seed: u64)
    ensures
        seed == spec_monochrome_seed(time, x, y),
{
    let area: i64 = product(y, x);
    proof {
        assert(-0x4000_0000_0000_0000_0000_0000 <= (time as int) * (area as int)
            <= 0x4000_0000_0000_0000_0000_0000) by (nonlinear_arith)
            requires
                0 <= time <= 0xffff_ffff,
                -0x4000_0000_0000_0000 <= area <= 0x4000_0000_0000_0000,
        ;
        assert(time * y * x == (time as int) * (area as int)) by (nonlinear_arith)
            requires
                area == (y as int) * (x as int),
        ;
    }
    let exact: i128 = (time as i128) * (area as i128);
    let magnitude: i128 = if exact < 0 {
        -exact
    } else {
        exact
    };
    (magnitude / 10_000_000_000) as u64
}

/// The tint for three draws, lit by an intensity.
pub fn tint_from_draws(drawn: (u8, u8, u8), intensity: i32) -> (c: Color)
    ensures
        c == spec_tint_color(drawn).spec_scaled(intensity),
{
    Color::new(drawn.0, drawn.1, drawn.2).scaled(intensity)
}

/// Black or white for one draw, lit by an intensity.
pub fn monochrome_from_draw(drawn: i32, intensity: i32) -> (c: Color)
    ensures
        c == spec_monochrome_color(drawn).spec_scaled(intensity),
{
    let black_or_white = if drawn < 50 {
        Color::new(0, 0, 0)
    } else {
        Color::new(255, 255, 255)
    };
    black_or_white.scaled(intensity)
}

/// The speckle colour for a noise sample.
pub fn dalmata_color(sample: i32) -> (c: Color)
    ensures
        c == spec_dalmata_color(sample),
{
    let spot_threshold: i32 = ONE / 2;
    let spot_color = Color::new(255, 255, 255);
    let base_color = Color::new(0, 0, 0);
    if sample < spot_threshold {
        spot_color
    } else {
        base_color
    }
}

/// The cloud colour for a noise sample.
pub fn cloud_color(sample: i32) -> (c: Color)
    ensures
        c == spec_cloud_color(sample),
{
    let cloud_threshold: i32 = ONE / 2;
    let cloud_color = Color::new(255, 255, 255);
    let sky_color = Color::new(30, 97, 145);
    if sample > cloud_threshold {
        cloud_color
    } else {
        sky_color
    }
}

/// The cell colour for a noise sample.
pub fn cellular_color(sample: i32) -> (c: Color)
    ensures
        c == spec_cellular_color(sample),
{
    let magnitude: i64 = if sample < 0 {
        -(sample as i64)
    } else {
        sample as i64
    };
    if magnitude < 15_000 {
        Color::new(85, 107, 47)
    } else if magnitude < 70_000 {
        Color::new(124, 252, 0)
    } else if magnitude < 75_000 {
        Color::new(34, 139, 34)
    } else {
        Color::new(173, 255, 47)
    }
}

/// The star colour for its two noise samples.
pub fn star_color(first: i32, second: i32) -> (c: Color)
    ensures
        c == spec_star_color(first, second),
{
    let bright_color = Color::new(255, 253, 190);
    let dark_color = Color::new(255, 193, 108);
    let sum: i64 = first as i64 + second as i64;
    let mean: i64 = match sum.checked_div_euclid(2) {
        Some(q) => q,
        None => 0,
    };
    dark_color.lerp(&bright_color, mean as i32)
}

/// The star's pulse at a time step, from the oracle's sine.
pub fn pulsate<O: Oracle>(uniforms: &Uniforms<O>) -> (p: i32)
    ensures
        p == spec_pulsate(uniforms.noise.sine(spec_pulse_angle(uniforms.time))),
{
    let angle: i64 = (uniforms.time as i64) * 600;
    let sine: i32 = uniforms.noise.sin(angle);
    match sine.checked_div_euclid(2) {
        Some(half) => half,
        None => 0,
    }
}

fn star_coordinate(v: i32, offset: i64, pulsate: i32) -> (c: i64)
    requires
        0 <= offset <= 1000,
    ensures
        c == spec_star_coordinate(v, offset as int, pulsate as int),
{
    (v as i64 + offset * 100_000 + pulsate as i64) * 1000
}

/// Colours a fragment with one pseudo-random colour per time step: every
/// fragment of a time step gets the same three draws.
pub fn random_color_shader<O: Oracle>(fragment: &Fragment, uniforms: &Uniforms<O>) -> (c: Color)
    ensures
        c == spec_random_color_shader(*fragment, *uniforms),
        fragment.intensity == 0 ==> c == Color::spec_black(),
{
    let seed: u64 = tint_seed(uniforms.time);
    let drawn = draw_channels(seed, 0, 255);
    proof {
        lemma_scaled_by_zero_is_black(spec_tint_color(drawn));
    }
    tint_from_draws(drawn, fragment.intensity)
}

/// Colours a fragment black or white by a draw seeded from the time step
/// and the fragment's surface position.
pub fn black_and_white<O: Oracle>(fragment: &Fragment, uniforms: &Uniforms<O>) -> (c: Color)
    ensures
        c == spec_black_and_white(*fragment, *uniforms),
        fragment.intensity == 0 ==> c == Color::spec_black(),
{
    let seed: u64 = monochrome_seed(
        uniforms.time,
        fragment.vertex_position.x,
        fragment.vertex_position.y,
    );
    let random_number: i32 = draw_level(seed, 0, 100);
    proof {
        lemma_scaled_by_zero_is_black(spec_monochrome_color(random_number));
    }
    monochrome_from_draw(random_number, fragment.intensity)
}

/// Colours a fragment with white speckles on black.
pub fn dalmata_shader<O: Oracle>(fragment: &Fragment, uniforms: &Uniforms<O>) -> (c: Color)
    ensures
        c == spec_dalmata_shader(*fragment, *uniforms),
        fragment.intensity == 0 ==> c == Color::spec_black(),
{
    let zoom: i64 = 100;
    let x: i64 = fragment.vertex_position.x as i64;
    let y: i64 = fragment.vertex_position.y as i64;
    let noise_value: i32 = uniforms.noise.get_noise_2d(x * zoom, y * zoom);
    let noise_color = dalmata_color(noise_value);
    proof {
        lemma_scaled_by_zero_is_black(noise_color);
    }
    noise_color.scaled(fragment.intensity)
}

/// Colours a fragment with drifting clouds over a blue sky.
pub fn cloud_shader<O: Oracle>(fragment: &Fragment, uniforms: &Uniforms<O>) -> (c: Color)
    ensures
        c == spec_cloud_shader(*fragment, *uniforms),
        fragment.intensity == 0 ==> c == Color::spec_black(),
{
    let zoom: i64 = 100;
    let ox: i64 = 100 * 100_000;
    let oy: i64 = 100 * 100_000;
    let x: i64 = fragment.vertex_position.x as i64;
    let y: i64 = fragment.vertex_position.y as i64;
    let t: i64 = (uniforms.time as i64) * 50_000;
    let noise_value: i32 = uniforms.noise.get_noise_2d(x * zoom + ox + t, y * zoom + oy);
    let noise_color = cloud_color(noise_value);
    proof {
        lemma_scaled_by_zero_is_black(noise_color);
    }
    noise_color.scaled(fragment.intensity)
}

/// Colours a fragment with cells in four shades of green.
pub fn cellular_shader<O: Oracle>(fragment: &Fragment, uniforms: &Uniforms<O>) -> (c: Color)
    ensures
        c == spec_cellular_shader(*fragment, *uniforms),
        fragment.intensity == 0 ==> c == Color::spec_black(),
{
    let zoom: i64 = 30;
    let ox: i64 = 50 * 100_000;
    let oy: i64 = 50 * 100_000;
    let x: i64 = fragment.vertex_position.x as i64;
    let y: i64 = fragment.vertex_position.y as i64;
    let cell_noise_value: i32 = uniforms.noise.get_noise_2d(x * zoom + ox, y * zoom + oy);
    let final_color = cellular_color(cell_noise_value);
    proof {
        lemma_scaled_by_zero_is_black(final_color);
    }
    final_color.scaled(fragment.intensity)
}

/// Colours a fragment as the surface of a pulsating star.
pub fn star<O: Oracle>(fragment: &Fragment, uniforms: &Uniforms<O>) -> (c: Color)
    ensures
        c == spec_star(*fragment, *uniforms),
        fragment.intensity == 0 ==> c == Color::spec_black(),
{
    let position = Vec3::new(
        fragment.vertex_position.x,
        fragment.vertex_position.y,
        fragment.depth,
    );
    let pulse: i32 = pulsate(uniforms);
    let noise_value1: i32 = uniforms.noise.get_noise_3d(
        star_coordinate(position.x, 0, 0),
        star_coordinate(position.y, 0, 0),
        star_coordinate(position.z, 0, pulse),
    );
    let noise_value2: i32 = uniforms.noise.get_noise_3d(
        star_coordinate(position.x, 1000, 0),
        star_coordinate(position.y, 1000, 0),
        star_coordinate(position.z, 1000, pulse),
    );
    let color = star_color(noise_value1, noise_value2);
    proof {
        lemma_scaled_by_zero_is_black(color);
    }
    color.scaled(fragment.intensity)
}

/// Colours a fragment with the pattern chosen.
pub fn shade_fragment<O: Oracle>(pattern: Pattern, fragment: &Fragment, uniforms: &Uniforms<O>)
    -> (c: Color)
    ensures
        c == spec_shade_fragment(pattern, *fragment, *uniforms),
        fragment.intensity == 0 ==> c == Color::spec_black(),
{
    match pattern {
        Pattern::RandomTint => random_color_shader(fragment, uniforms),
        Pattern::Monochrome => black_and_white(fragment, uniforms),
        Pattern::Dalmatian => dalmata_shader(fragment, uniforms),
        Pattern::Cloud => cloud_shader(fragment, uniforms),
        Pattern::Cellular => cellular_shader(fragment, uniforms),
        Pattern::Star => star(fragment, uniforms),
    }
}

/// Colours a fragment with the pattern of the renderer: the star.
pub fn fragment_shader<O: Oracle>(fragment: &Fragment, uniforms: &Uniforms<O>) -> (c: Color)
    ensures
        c == spec_shade_fragment(Pattern::Star, *fragment, *uniforms),
        fragment.intensity == 0 ==> c == Color::spec_black(),
{
    shade_fragment(Pattern::Star, fragment, uniforms)
}

} // verus!

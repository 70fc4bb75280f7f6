use gl_canvas::canvas::{Canvas, DrawKind};
use gl_canvas::device::{render_matrix, NdcMatrix, Ratio};
use gl_canvas::path::PathBuilder;
use gl_canvas::transform_stack::TransformStack;

use nalgebra::{Similarity2, Translation2, UnitComplex};

type Rgba = [f32; 4];

const BLACK: Rgba = [0.0, 0.0, 0.0, 1.0];

fn canvas() -> Canvas<Rgba, i32, (i32, i32)> {
    Canvas::new(BLACK, 0)
}

fn to_f32(r: Ratio) -> f32 {
    r.num as f32 / r.den as f32
}

fn columns(m: NdcMatrix) -> [[f32; 3]; 3] {
    [
        [to_f32(m.scale_x), 0.0, 0.0],
        [0.0, to_f32(m.scale_y), 0.0],
        [to_f32(m.offset_x), to_f32(m.offset_y), 1.0],
    ]
}

fn apply(m: [[f32; 3]; 3], x: f32, y: f32) -> (f32, f32) {
    (
        m[0][0] * x + m[1][0] * y + m[2][0],
        m[0][1] * x + m[1][1] * y + m[2][1],
    )
}

#[test]
fn pop_on_fresh_stack_gives_identity() {
    let mut s = TransformStack::new(0i32);
    s.set_transform(7);
    s.pop_matrix();
    assert_eq!(s.transform(), 0);
    assert_eq!(s.depth(), 0);
}

#[test]
fn pops_beyond_pushes_give_identity() {
    let mut c = canvas();
    c.set_transform(3);
    c.push_matrix();
    c.set_transform(5);
    c.pop_matrix();
    assert_eq!(c.transform(), 3);
    c.set_transform(9);
    c.pop_matrix();
    assert_eq!(c.transform(), 0);
    c.pop_matrix();
    assert_eq!(c.transform(), 0);
    assert_eq!(c.matrix_depth(), 0);
}

#[test]
fn push_pop_restores_nested() {
    let mut s = TransformStack::new(0i32);
    s.set_transform(1);
    s.push_matrix();
    s.set_transform(2);
    s.push_matrix();
    s.set_transform(3);
    assert_eq!(s.depth(), 2);
    s.pop_matrix();
    assert_eq!(s.transform(), 2);
    s.pop_matrix();
    assert_eq!(s.transform(), 1);
    assert_eq!(s.identity(), 0);
}

#[test]
fn reset_keeps_saved_transforms() {
    let mut c = canvas();
    c.set_transform(4);
    c.push_matrix();
    c.set_transform(6);
    c.reset_transform();
    assert_eq!(c.transform(), 0);
    assert_eq!(c.matrix_depth(), 1);
    c.pop_matrix();
    assert_eq!(c.transform(), 4);
}

#[test]
fn stroke_without_points_is_empty() {
    let mut c = canvas();
    let d = c.stroke(800, 600);
    assert_eq!(d.kind, DrawKind::Stroke);
    assert!(d.subpaths.is_empty());
}

#[test]
fn fill_without_points_is_empty() {
    let mut c = canvas();
    let d = c.fill(800, 600);
    assert_eq!(d.kind, DrawKind::Fill);
    assert!(d.subpaths.is_empty());
}

#[test]
fn second_stroke_reuses_nothing() {
    let mut c = canvas();
    c.move_to((0, 0));
    c.line_to((100, 100));
    let first = c.stroke(800, 600);
    assert_eq!(first.subpaths.len(), 1);
    let second = c.stroke(800, 600);
    assert!(second.subpaths.is_empty());
    let third = c.fill(800, 600);
    assert!(third.subpaths.is_empty());
}

#[test]
fn diagonal_stroke_scenario() {
    let mut c = canvas();
    c.move_to((0, 0));
    c.line_to((100, 100));
    let d = c.stroke(800, 600);
    assert_eq!(d.kind, DrawKind::Stroke);
    assert_eq!(d.color, BLACK);
    assert_eq!(d.subpaths, vec![vec![(0, 0), (100, 100)]]);
    assert_eq!(d.matrix, render_matrix(800, 600));
    assert_eq!(c.subpath_count(), 0);
}

#[test]
fn quad_fill_records_one_subpath() {
    let mut c = canvas();
    c.move_to((200, 200));
    c.line_to((200, 500));
    c.line_to((500, 500));
    c.line_to((500, 100));
    c.fill_color([1.0, 0.0, 0.0, 1.0]);
    let d = c.fill(1024, 768);
    assert_eq!(d.color, [1.0, 0.0, 0.0, 1.0]);
    assert_eq!(
        d.subpaths,
        vec![vec![(200, 200), (200, 500), (500, 500), (500, 100)]]
    );
}

#[test]
fn move_to_starts_new_subpath() {
    let mut p = PathBuilder::new();
    p.move_to(1u8);
    p.line_to(2);
    p.move_to(3);
    p.line_to(4);
    p.line_to(5);
    assert_eq!(p.len(), 2);
    assert_eq!(p.build_and_reset(), vec![vec![1, 2], vec![3, 4, 5]]);
    assert!(p.is_empty());
}

#[test]
fn line_to_without_move_starts_subpath() {
    let mut p = PathBuilder::new();
    p.line_to(7u8);
    p.line_to(8);
    assert_eq!(p.build_and_reset(), vec![vec![7, 8]]);
}

#[test]
fn colors_reach_draw_unmodified() {
    let mut c = canvas();
    let s: Rgba = [0.25, 0.5, 0.75, 0.125];
    let f: Rgba = [0.1, 0.2, 0.3, 0.4];
    c.stroke_color(s);
    c.fill_color(f);
    c.move_to((1, 1));
    c.push_matrix();
    c.set_transform(2);
    c.pop_matrix();
    let d = c.fill(10, 10);
    assert_eq!(d.color, f);
    c.line_to((3, 3));
    let d = c.stroke(10, 10);
    assert_eq!(d.color, s);
    assert_eq!(c.current_stroke_color(), s);
    assert_eq!(c.current_fill_color(), f);
}

#[test]
fn default_colors_are_the_initial_one() {
    let c = canvas();
    assert_eq!(c.current_stroke_color(), BLACK);
    assert_eq!(c.current_fill_color(), BLACK);
}

#[test]
fn render_matrix_1024_by_768() {
    let m = render_matrix(1024, 768);
    assert_eq!(m.scale_x, Ratio { num: 2, den: 1024 });
    assert_eq!(m.scale_y, Ratio { num: -2, den: 768 });
    assert_eq!(m.offset_x, Ratio { num: -1, den: 1 });
    assert_eq!(m.offset_y, Ratio { num: 1, den: 1 });
    let cols = columns(m);
    let expected = [
        [0.001953125, 0.0, 0.0],
        [0.0, -2.0 / 768.0, 0.0],
        [-1.0, 1.0, 1.0],
    ];
    for i in 0..3 {
        for j in 0..3 {
            assert!((cols[i][j] - expected[i][j]).abs() < 1e-7);
        }
    }
    assert_eq!(apply(cols, 0.0, 0.0), (-1.0, 1.0));
}

#[test]
fn render_matrix_maps_corners_and_centre() {
    let cols = columns(render_matrix(800, 600));
    let (x, y) = apply(cols, 800.0, 600.0);
    assert!((x - 1.0).abs() < 1e-6 && (y + 1.0).abs() < 1e-6);
    let (x, y) = apply(cols, 400.0, 300.0);
    assert!(x.abs() < 1e-6 && y.abs() < 1e-6);
}

#[test]
fn render_matrix_zero_width_has_zero_denominator() {
    let m = render_matrix(0, 10);
    assert_eq!(m.scale_x, Ratio { num: 2, den: 0 });
    assert_eq!(m.scale_y, Ratio { num: -2, den: 10 });
}

#[test]
fn translate_there_and_back_is_identity() {
    let mut c: Canvas<Rgba, Similarity2<f32>, [f32; 2]> =
        Canvas::new(BLACK, Similarity2::identity());
    let there = Similarity2::from_parts(Translation2::new(10.0, 0.0), UnitComplex::identity(), 1.0);
    let back = Similarity2::from_parts(Translation2::new(-10.0, 0.0), UnitComplex::identity(), 1.0);
    c.set_transform(c.transform() * there);
    c.set_transform(c.transform() * back);
    let t = c.transform().to_homogeneous();
    let id = Similarity2::<f32>::identity().to_homogeneous();
    assert!((t - id).abs().max() < 1e-6);
}

#[test]
fn draw_by_kind_matches_stroke_and_fill() {
    let mut c = canvas();
    c.stroke_color([1.0, 1.0, 1.0, 1.0]);
    c.move_to((5, 5));
    let d = c.draw(DrawKind::Stroke, 2, 2);
    assert_eq!(d.color, [1.0, 1.0, 1.0, 1.0]);
    assert_eq!(d.subpaths, vec![vec![(5, 5)]]);
    c.move_to((6, 6));
    let d = c.draw(DrawKind::Fill, 2, 2);
    assert_eq!(d.color, BLACK);
}

use triangle_pipeline::transform::{
    clip_component, transform_vertex, zero_to_one, zero_to_two, Ratio, Viewport,
};

const TOLERANCE: f64 = 1e-5;

fn value(r: Ratio) -> f64 {
    r.num as f64 / r.den as f64
}

fn close(actual: f64, expected: f64) -> bool {
    (actual - expected).abs() < TOLERANCE
}

#[test]
fn documented_transform_of_the_first_vertex() {
    // Vertex (100, 100) under a 400x300 viewport, step by step:
    // zeroToOne = (0.25, 0.3333...), zeroToTwo = (0.5, 0.6667...),
    // clip = (-0.5, -0.3333...).
    let x1 = zero_to_one(100, 400);
    let y1 = zero_to_one(100, 300);
    assert!(close(value(x1), 0.25));
    assert!(close(value(y1), 0.33333333));

    let x2 = zero_to_two(x1);
    let y2 = zero_to_two(y1);
    assert!(close(value(x2), 0.5));
    assert!(close(value(y2), 0.66666667));

    let viewport = Viewport::new(400, 300).unwrap();
    let (cx, cy) = transform_vertex(100, 100, &viewport);
    assert!(close(value(cx), -0.5));
    assert!(close(value(cy), -0.33333333));
}

#[test]
fn clip_is_exact_not_just_close() {
    // The library keeps the transform exact: (2 * 100 - 400) / 400.
    let clip = clip_component(100, 400);
    assert_eq!(clip.num, -200);
    assert_eq!(clip.den, 400);
}

#[test]
fn viewport_corners_map_to_clip_corners() {
    let clip = clip_component(0, 400);
    assert_eq!(value(clip), -1.0);
    let clip = clip_component(400, 400);
    assert_eq!(value(clip), 1.0);
    let clip = clip_component(200, 400);
    assert_eq!(value(clip), 0.0);
}

#[test]
fn resolution_uniform_equals_viewport_dimensions() {
    let viewport = Viewport::new(400, 300).unwrap();
    assert_eq!(viewport.resolution_uniform(), (400, 300));
}

#[test]
fn off_screen_positions_leave_clip_range() {
    let clip = clip_component(-50, 400);
    assert!(value(clip) < -1.0);
    let clip = clip_component(450, 400);
    assert!(value(clip) > 1.0);
}

use cgmath::{Matrix4, Vector4};
use hello_midgar::screen::{
    screen_center, screen_projection, window_config, OrthoBounds, SCREEN_HEIGHT, SCREEN_WIDTH,
};

const TOLERANCE: f32 = 1.0e-6;

fn matrix_of(bounds: OrthoBounds) -> Matrix4<f32> {
    cgmath::ortho(
        bounds.left as f32,
        bounds.right as f32,
        bounds.bottom as f32,
        bounds.top as f32,
        bounds.near as f32,
        bounds.far as f32,
    )
}

fn close(a: f32, b: f32) -> bool {
    (a - b).abs() <= TOLERANCE
}

#[test]
fn screen_is_640_by_400() {
    assert_eq!(SCREEN_WIDTH, 640);
    assert_eq!(SCREEN_HEIGHT, 400);
}

#[test]
fn projection_bounds_are_those_of_the_screen() {
    let bounds = screen_projection();
    assert_eq!(
        bounds,
        OrthoBounds { left: 0, right: 640, bottom: 400, top: 0, near: -1, far: 1 }
    );
}

#[test]
fn projection_matrix_is_the_standard_orthographic_matrix() {
    let m = matrix_of(screen_projection());
    let (l, r, b, t, n, f) = (0.0f32, 640.0f32, 400.0f32, 0.0f32, -1.0f32, 1.0f32);
    let expected: [[f32; 4]; 4] = [
        [2.0 / (r - l), 0.0, 0.0, 0.0],
        [0.0, 2.0 / (t - b), 0.0, 0.0],
        [0.0, 0.0, -2.0 / (f - n), 0.0],
        [-(r + l) / (r - l), -(t + b) / (t - b), -(f + n) / (f - n), 1.0],
    ];
    let columns = [m.x, m.y, m.z, m.w];
    for c in 0..4 {
        let got = [columns[c].x, columns[c].y, columns[c].z, columns[c].w];
        for row in 0..4 {
            assert!(
                close(got[row], expected[c][row]),
                "column {} row {}: {} against {}",
                c,
                row,
                got[row],
                expected[c][row]
            );
        }
    }
}

#[test]
fn projection_matrix_has_the_expected_entries() {
    let m = matrix_of(screen_projection());
    assert!(close(m.x.x, 0.003125));
    assert!(close(m.y.y, -0.005));
    assert!(close(m.z.z, -1.0));
    assert!(close(m.w.x, -1.0));
    assert!(close(m.w.y, 1.0));
    assert!(close(m.w.z, 0.0));
    assert!(close(m.w.w, 1.0));
}

#[test]
fn projection_sends_the_screen_onto_the_device() {
    let m = matrix_of(screen_projection());
    let (cx, cy) = screen_center();
    let middle = m * Vector4::new(cx as f32, cy as f32, 0.0, 1.0);
    assert!(close(middle.x, 0.0) && close(middle.y, 0.0));
    let top_left = m * Vector4::new(0.0, 0.0, 0.0, 1.0);
    assert!(close(top_left.x, -1.0) && close(top_left.y, 1.0));
    let bottom_right = m * Vector4::new(SCREEN_WIDTH as f32, SCREEN_HEIGHT as f32, 0.0, 1.0);
    assert!(close(bottom_right.x, 1.0) && close(bottom_right.y, -1.0));
}

#[test]
fn screen_center_is_320_200() {
    assert_eq!(screen_center(), (320, 200));
    assert_eq!(screen_center(), (SCREEN_WIDTH / 2, SCREEN_HEIGHT / 2));
}

#[test]
fn window_is_twice_the_screen() {
    let config = window_config();
    assert_eq!(config.title, "hello midgar");
    assert_eq!((config.width, config.height), (1280, 800));
    assert_eq!(config.width, 2 * SCREEN_WIDTH);
    assert_eq!(config.height, 2 * SCREEN_HEIGHT);
}

use leafrender::pos::{Position, Rect};
use leafrender::render::vertices::{
    broadcast_color, default_uv_buffer, full_intensity_buffer, rect_to_vertices,
};
use leafrender::render::{Color, Ratio};

fn q(num: i128, den: u64) -> Ratio {
    Ratio { num, den }
}

fn float(entry: &Ratio) -> f32 {
    entry.num as f32 / entry.den as f32
}

fn floats(buffer: &[Ratio]) -> Vec<f32> {
    buffer.iter().map(float).collect()
}

fn close(left: &[f32], right: &[f32]) -> bool {
    left.len() == right.len()
        && left
            .iter()
            .zip(right.iter())
            .all(|(a, b)| (a - b).abs() <= 1e-6)
}

#[test]
fn rect_from_position_takes_corner_and_extent() {
    let rect = Rect::new_from_pos(&Position { x: 3, y: -4 }, 50, 60);
    assert_eq!(rect, Rect { x: 3, y: -4, width: 50, height: 60 });
}

#[test]
fn vertices_of_a_rect_inside_the_frame() {
    let rect = Rect { x: 100, y: 100, width: 50, height: 50 };
    let vertices = rect_to_vertices(&rect, 640, 480);
    let min_x = q(2 * 100 - 640, 640);
    let max_x = q(2 * 150 - 640, 640);
    let top = q(480 - 2 * 100, 480);
    let bottom = q(480 - 2 * 150, 480);
    assert_eq!(
        vertices,
        [min_x, top, min_x, bottom, max_x, bottom, min_x, top, max_x, top, max_x, bottom]
    );
}

#[test]
fn vertices_follow_the_coordinate_formula() {
    let rect = Rect { x: 100, y: 100, width: 50, height: 50 };
    let vertices = rect_to_vertices(&rect, 640, 480);
    let min_x = 100.0f32 / 640.0 * 2.0 - 1.0;
    let max_x = 150.0f32 / 640.0 * 2.0 - 1.0;
    let min_y = 100.0f32 / 480.0 * 2.0 - 1.0;
    let max_y = 150.0f32 / 480.0 * 2.0 - 1.0;
    let expected = [
        min_x, -min_y, min_x, -max_y, max_x, -max_y, min_x, -min_y, max_x, -min_y, max_x, -max_y,
    ];
    assert!(close(&floats(&vertices), &expected));
}

#[test]
fn vertices_of_a_rect_inside_the_frame_stay_in_range() {
    let rects = [
        Rect { x: 0, y: 0, width: 640, height: 480 },
        Rect { x: 0, y: 0, width: 0, height: 0 },
        Rect { x: 640, y: 480, width: 0, height: 0 },
        Rect { x: 13, y: 470, width: 627, height: 10 },
        Rect { x: 600, y: 400, width: -600, height: -400 },
    ];
    for rect in rects.iter() {
        let vertices = rect_to_vertices(rect, 640, 480);
        assert_eq!(vertices.len(), 12);
        for entry in vertices.iter() {
            assert!(entry.den != 0);
            assert!(-(entry.den as i128) <= entry.num && entry.num <= entry.den as i128);
            let value = float(entry);
            assert!(value.is_finite());
            assert!((-1.0..=1.0).contains(&value));
        }
    }
}

#[test]
fn vertices_outside_the_frame_leave_the_range() {
    let rect = Rect { x: -10, y: 0, width: 700, height: 480 };
    let vertices = rect_to_vertices(&rect, 640, 480);
    assert_eq!(vertices[0], q(-660, 640));
    assert_eq!(vertices[4], q(740, 640));
    assert!(float(&vertices[0]) < -1.0);
    assert!(float(&vertices[4]) > 1.0);
}

#[test]
fn full_frame_rect_covers_the_normalized_space() {
    let rect = Rect { x: 0, y: 0, width: 640, height: 480 };
    let vertices = rect_to_vertices(&rect, 640, 480);
    assert_eq!(
        floats(&vertices),
        vec![-1.0, 1.0, -1.0, -1.0, 1.0, -1.0, -1.0, 1.0, 1.0, 1.0, 1.0, -1.0]
    );
}

#[test]
fn full_frame_rect_of_a_one_pixel_frame() {
    let rect = Rect { x: 0, y: 0, width: 1, height: 1 };
    let vertices = rect_to_vertices(&rect, 1, 1);
    assert_eq!(
        vertices,
        [
            q(-1, 1), q(1, 1), q(-1, 1), q(-1, 1), q(1, 1), q(-1, 1),
            q(-1, 1), q(1, 1), q(1, 1), q(1, 1), q(1, 1), q(-1, 1),
        ]
    );
}

#[test]
fn vertical_axis_is_flipped() {
    let rect = Rect { x: 0, y: 0, width: 10, height: 10 };
    let vertices = rect_to_vertices(&rect, 100, 100);
    // the top edge of the screen is the upper end of the normalized range
    assert_eq!(vertices[1], q(100, 100));
    // ten rows further down the coordinate is smaller
    assert_eq!(vertices[3], q(80, 100));
    assert!(float(&vertices[3]) < float(&vertices[1]));
}

#[test]
fn negative_extent_keeps_the_corner_order() {
    let rect = Rect { x: 50, y: 60, width: -20, height: -30 };
    let vertices = rect_to_vertices(&rect, 100, 200);
    let first_x = q(2 * 50 - 100, 100);
    let second_x = q(2 * 30 - 100, 100);
    let first_y = q(200 - 2 * 60, 200);
    let second_y = q(200 - 2 * 30, 200);
    assert_eq!(
        vertices,
        [
            first_x, first_y, first_x, second_y, second_x, second_y,
            first_x, first_y, second_x, first_y, second_x, second_y,
        ]
    );
}

#[test]
fn rect_edges_do_not_overflow() {
    let rect = Rect { x: i32::MAX, y: i32::MIN, width: i32::MAX, height: i32::MIN };
    let vertices = rect_to_vertices(&rect, 8, 4);
    let right = 2 * (i32::MAX as i128 + i32::MAX as i128) - 8;
    let bottom = 4 - 2 * (i32::MIN as i128 + i32::MIN as i128);
    assert_eq!(vertices[4], q(right, 8));
    assert_eq!(vertices[5], q(bottom, 4));
}

#[test]
fn frame_without_extent_gives_entries_without_value() {
    let rect = Rect { x: 1, y: 2, width: 3, height: 4 };
    let vertices = rect_to_vertices(&rect, 0, 0);
    for entry in vertices.iter() {
        assert_eq!(entry.den, 0);
        assert!(!float(entry).is_finite());
    }
    assert_eq!(vertices[0].num, 2);
    assert_eq!(vertices[1].num, -4);
}

#[test]
fn largest_frame_fits() {
    let rect = Rect { x: 0, y: 0, width: 1, height: 1 };
    let vertices = rect_to_vertices(&rect, usize::MAX, usize::MAX);
    assert_eq!(vertices[0], q(-(usize::MAX as i128), usize::MAX as u64));
    assert_eq!(vertices[4], q(2 - usize::MAX as i128, usize::MAX as u64));
    assert_eq!(vertices[5], q(usize::MAX as i128 - 2, usize::MAX as u64));
}

#[test]
fn color_is_broadcast_to_six_vertices() {
    let colors = broadcast_color(&Color::new_4byte(10, 20, 30, 40));
    assert_eq!(colors.len(), 24);
    for group in colors.chunks(4) {
        assert_eq!(group, &[q(10, 255), q(20, 255), q(30, 255), q(40, 255)]);
    }
}

#[test]
fn broadcast_color_divides_each_channel_by_255() {
    let color = Color::new_4byte(0, 51, 128, 255);
    let colors = floats(&broadcast_color(&color));
    let group = [
        0.0f32 / 255.0,
        51.0f32 / 255.0,
        128.0f32 / 255.0,
        255.0f32 / 255.0,
    ];
    for vertex in colors.chunks(4) {
        assert_eq!(vertex, &group);
    }
    assert_eq!(colors[1], 0.2);
    assert_eq!(colors[3], 1.0);
}

#[test]
fn default_uv_is_the_unit_square() {
    let uv = default_uv_buffer();
    assert_eq!(
        floats(&uv),
        vec![0.0, 0.0, 0.0, 1.0, 1.0, 1.0, 0.0, 0.0, 1.0, 0.0, 1.0, 1.0]
    );
    let zero = q(0, 1);
    let one = q(1, 1);
    assert_eq!(
        uv,
        [zero, zero, zero, one, one, one, zero, zero, one, zero, one, one]
    );
}

#[test]
fn default_uv_has_the_corner_order_of_the_vertices() {
    let rect = Rect { x: 10, y: 20, width: 30, height: 40 };
    let vertices = rect_to_vertices(&rect, 100, 100);
    let uv = default_uv_buffer();
    let left = vertices[0];
    let top = vertices[1];
    for corner in 0..6 {
        let at_left = vertices[2 * corner] == left;
        let at_top = vertices[2 * corner + 1] == top;
        assert_eq!(uv[2 * corner], if at_left { q(0, 1) } else { q(1, 1) });
        assert_eq!(uv[2 * corner + 1], if at_top { q(0, 1) } else { q(1, 1) });
    }
}

#[test]
fn full_intensity_is_one_everywhere() {
    let colors = full_intensity_buffer();
    assert_eq!(colors.len(), 24);
    assert!(colors.iter().all(|entry| *entry == q(1, 1)));
    assert_eq!(floats(&colors), vec![1.0f32; 24]);
}

#[test]
fn opaque_white_has_the_values_of_full_intensity() {
    let white = broadcast_color(&Color::new_4byte(255, 255, 255, 255));
    assert_eq!(floats(&white), floats(&full_intensity_buffer()));
}

use leafrender::render::{Color, Texture};

#[test]
fn new_texture_is_zero_filled() {
    let texture = Texture::new(2, 2);
    assert_eq!(texture.tex_data.len(), 16);
    assert!(texture.tex_data.iter().all(|&byte| byte == 0));
    assert_eq!(texture.get_width(), 2);
    assert_eq!(texture.get_height(), 2);
}

#[test]
fn draw_pixel_writes_four_bytes_at_the_pixel() {
    let mut texture = Texture::new(2, 2);
    texture.draw_pixel(&Color::new_4byte(10, 20, 30, 40), 1, 1);
    assert_eq!(&texture.tex_data[12..16], &[10, 20, 30, 40]);
    assert!(texture.tex_data[..12].iter().all(|&byte| byte == 0));
    assert_eq!(texture.tex_data.len(), 16);
}

#[test]
fn draw_pixel_at_the_origin() {
    let mut texture = Texture::new(3, 2);
    texture.draw_pixel(&Color::new_4byte(1, 2, 3, 4), 0, 0);
    assert_eq!(&texture.tex_data[0..4], &[1, 2, 3, 4]);
    assert!(texture.tex_data[4..].iter().all(|&byte| byte == 0));
}

#[test]
fn draw_pixel_counts_rows_by_the_width() {
    let mut texture = Texture::new(3, 2);
    texture.draw_pixel(&Color::new_4byte(9, 8, 7, 6), 2, 1);
    let offset = (1 * 3 + 2) * 4;
    assert_eq!(offset, 20);
    assert_eq!(&texture.tex_data[20..24], &[9, 8, 7, 6]);
    assert!(texture.tex_data[..20].iter().all(|&byte| byte == 0));
}

#[test]
fn draw_pixel_twice_keeps_the_later_color() {
    let mut texture = Texture::new(2, 1);
    texture.draw_pixel(&Color::new_4byte(1, 1, 1, 1), 1, 0);
    texture.draw_pixel(&Color::new_4byte(2, 3, 4, 5), 1, 0);
    assert_eq!(texture.tex_data, vec![0, 0, 0, 0, 2, 3, 4, 5]);
}

#[test]
fn draw_pixel_leaves_other_pixels_alone() {
    let mut texture = Texture::new(2, 2);
    texture.draw_pixel(&Color::new_4byte(1, 2, 3, 4), 0, 0);
    texture.draw_pixel(&Color::new_4byte(5, 6, 7, 8), 1, 1);
    assert_eq!(
        texture.tex_data,
        vec![1, 2, 3, 4, 0, 0, 0, 0, 0, 0, 0, 0, 5, 6, 7, 8]
    );
}

#[test]
fn a_column_past_the_row_end_is_a_pixel_of_the_next_row() {
    let mut texture = Texture::new(2, 2);
    texture.draw_pixel(&Color::new_4byte(4, 3, 2, 1), 2, 0);
    assert_eq!(&texture.tex_data[8..12], &[4, 3, 2, 1]);
}

#[test]
fn draw_pixel_keeps_the_size() {
    let mut texture = Texture::new(4, 3);
    texture.draw_pixel(&Color::new_3byte(1, 2, 3), 3, 2);
    assert_eq!(texture.get_width(), 4);
    assert_eq!(texture.get_height(), 3);
    assert_eq!(texture.tex_data.len(), 4 * 3 * 4);
    assert_eq!(&texture.tex_data[44..48], &[1, 2, 3, 255]);
}

#[test]
fn empty_texture_has_no_data() {
    let none = Texture::new(0, 0);
    assert!(none.tex_data.is_empty());
    let flat = Texture::new(5, 0);
    assert!(flat.tex_data.is_empty());
    assert_eq!(flat.get_width(), 5);
    assert_eq!(flat.get_height(), 0);
}

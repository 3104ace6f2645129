use gameframe::geometry::Size;
use gameframe::scaling::{integer_scale_factor, letterbox, source_texel};

fn size(w: i32, h: i32) -> Size {
    Size { w, h }
}

#[test]
fn hd_output_vga_window_scales_twice() {
    // One 1920x1080 output, one 640x480 client window:
    // scale = floor(min(3.0, 2.25)) = 2, scaled size 1280x960, origin (320, 60).
    let p = letterbox(size(1920, 1080), size(640, 480));
    assert_eq!(p.scale, 2);
    assert_eq!(p.rect.size.w, 1280);
    assert_eq!(p.rect.size.h, 960);
    assert_eq!(p.rect.pos.x, 320);
    assert_eq!(p.rect.pos.y, 60);
}

#[test]
fn scale_factor_floors_not_rounds() {
    // 1920/700 = 2.74..., 1080/400 = 2.7: the factor floors to 2, never 3.
    assert_eq!(integer_scale_factor(size(1920, 1080), size(700, 400)), 2);
}

#[test]
fn window_equal_to_output_scales_once() {
    let p = letterbox(size(1920, 1080), size(1920, 1080));
    assert_eq!(p.scale, 1);
    assert_eq!(p.rect.pos.x, 0);
    assert_eq!(p.rect.pos.y, 0);
    assert_eq!(p.rect.size.w, 1920);
    assert_eq!(p.rect.size.h, 1080);
}

#[test]
fn oversized_window_clamps_to_scale_one_and_centers_negative() {
    // An 800x600 window on a 640x480 output: the ratio floors to 0, the
    // factor clamps to 1, and the content is centered with negative margins.
    let p = letterbox(size(640, 480), size(800, 600));
    assert_eq!(p.scale, 1);
    assert_eq!(p.rect.size.w, 800);
    assert_eq!(p.rect.size.h, 600);
    assert_eq!(p.rect.pos.x, -80);
    assert_eq!(p.rect.pos.y, -60);
}

#[test]
fn odd_margin_goes_to_the_right() {
    // 7-pixel-wide output, 2-pixel window, scale 3: margins are 0 and 1.
    let p = letterbox(size(7, 7), size(2, 2));
    assert_eq!(p.scale, 3);
    assert_eq!(p.rect.size.w, 6);
    assert_eq!(p.rect.pos.x, 0);
}

#[test]
fn pillarboxed_window_keeps_integer_offsets() {
    // 1280x1024 output, 320x200 window: scale = floor(min(4.0, 5.12)) = 4,
    // scaled 1280x800, origin (0, 112).
    let p = letterbox(size(1280, 1024), size(320, 200));
    assert_eq!(p.scale, 4);
    assert_eq!(p.rect.size.w, 1280);
    assert_eq!(p.rect.size.h, 800);
    assert_eq!(p.rect.pos.x, 0);
    assert_eq!(p.rect.pos.y, 112);
}

#[test]
fn nearest_neighbor_blocks_are_uniform() {
    // At scale 3, destination pixels 0..=2 sample texel 0, 3..=5 texel 1.
    assert_eq!(source_texel(0, 3), 0);
    assert_eq!(source_texel(1, 3), 0);
    assert_eq!(source_texel(2, 3), 0);
    assert_eq!(source_texel(3, 3), 1);
    assert_eq!(source_texel(5, 3), 1);
    assert_eq!(source_texel(6, 3), 2);
}

#[test]
fn nearest_neighbor_at_scale_two_matches_floor() {
    assert_eq!(source_texel(1279, 2), 639);
    assert_eq!(source_texel(959, 2), 479);
}

#[test]
fn scale_one_samples_identity() {
    for d in [0, 1, 17, 1919] {
        assert_eq!(source_texel(d, 1), d);
    }
}

use tomodachi::display::{apply_opacity, icon_rgba, Opacity};
use tomodachi::model::Mood;
use tomodachi::palette::{ANGER, BODY_CORE, OUTLINE, SPARKLE, TRANSPARENT};
use tomodachi::sprite::{render_sprite, WINDOW_SIZE};

const MOODS: [Mood; 7] = [
    Mood::Idle,
    Mood::Happy,
    Mood::Smug,
    Mood::Sad,
    Mood::Nervous,
    Mood::Furious,
    Mood::Sleeping,
];

fn pixel(p: &[u32], x: usize, y: usize) -> u32 {
    p[(y * 4) * 128 + x * 4]
}

#[test]
fn sprite_has_window_size() {
    for m in MOODS {
        assert_eq!(render_sprite(m, 0).len(), (WINDOW_SIZE * WINDOW_SIZE) as usize);
    }
}

#[test]
fn each_canvas_pixel_becomes_a_block() {
    let p = render_sprite(Mood::Sad, 3);
    for y in 0..128 {
        for x in 0..128 {
            assert_eq!(p[y * 128 + x], pixel(&p, x / 4, y / 4));
        }
    }
}

#[test]
fn body_colours() {
    let idle = render_sprite(Mood::Idle, 1);
    // top outline row at cy - 10 = 7, from cx - 4 = 12 to cx + 3 = 19
    assert_eq!(pixel(&idle, 12, 7), OUTLINE);
    assert_eq!(pixel(&idle, 19, 7), OUTLINE);
    assert_eq!(pixel(&idle, 11, 7), TRANSPARENT);
    // core row at cy - 1 = 16, far left of the body
    assert_eq!(pixel(&idle, 7, 16), BODY_CORE);
    let furious = render_sprite(Mood::Furious, 1);
    assert_eq!(pixel(&furious, 7, 16), ANGER);
    assert_eq!(pixel(&idle, 0, 0), TRANSPARENT);
}

#[test]
fn idle_blinks_every_twentieth_tick() {
    assert_ne!(render_sprite(Mood::Idle, 0), render_sprite(Mood::Idle, 1));
    assert_eq!(render_sprite(Mood::Idle, 1), render_sprite(Mood::Idle, 2));
    assert_eq!(render_sprite(Mood::Idle, 0), render_sprite(Mood::Idle, 20));
}

#[test]
fn happy_sparkles_and_bounces() {
    let even = render_sprite(Mood::Happy, 0);
    let odd = render_sprite(Mood::Happy, 1);
    // sparkle at (cx - 10, cy - 10) with cy = 16 while bouncing
    assert_eq!(pixel(&even, 6, 6), SPARKLE);
    assert_ne!(pixel(&odd, 6, 6), SPARKLE);
    assert_ne!(render_sprite(Mood::Happy, 0), render_sprite(Mood::Happy, 2));
}

#[test]
fn animation_repeats_every_120_ticks() {
    for m in MOODS {
        for t in [0u32, 1, 7, 59, 1000] {
            assert_eq!(render_sprite(m, t), render_sprite(m, t + 120));
        }
    }
}

#[test]
fn opacity_scales_every_channel() {
    assert_eq!(apply_opacity(0xFF804020, Opacity::Full), 0xFF804020);
    assert_eq!(apply_opacity(0xFF804020, Opacity::Half), 0x7F402010);
    assert_eq!(apply_opacity(0xFF804020, Opacity::Quarter), 0x3F201008);
    assert_eq!(apply_opacity(0xFF804021, Opacity::ThreeQuarters), 0xBF603018);
}

#[test]
fn icon_bytes_are_rgba() {
    assert_eq!(icon_rgba(&vec![0x11223344, 0xAABBCCDD]), vec![0x22, 0x33, 0x44, 0x11, 0xBB, 0xCC, 0xDD, 0xAA]);
    let icon = icon_rgba(&render_sprite(Mood::Happy, 0));
    assert_eq!(icon.len(), 128 * 128 * 4);
}

use tty_image::color::{distance2, Color};
use tty_image::palette::{channel, from_xterm256, gray_channel, rgb_channel, to_xterm256};

const CUBE_LEVELS: [u8; 6] = [0, 95, 135, 175, 215, 255];

fn rgb(r: u8, g: u8, b: u8) -> Color {
    Color::new(r, g, b)
}

/// Every 1st, 4th, 7th ... channel value and the values next to each point
/// where one of the channel mappings changes.
fn channel_samples() -> Vec<u8> {
    let mut values: Vec<u8> = (0..=255u16).step_by(3).map(|v| v as u8).collect();
    for edge in [12u8, 13, 47, 48, 74, 75, 114, 115, 154, 155, 194, 195, 234, 235, 236, 254] {
        if !values.contains(&edge) {
            values.push(edge);
        }
    }
    values
}

fn cube_candidate(c: Color) -> u8 {
    16 + rgb_channel(c.b) + 6 * rgb_channel(c.g) + 36 * rgb_channel(c.r)
}

fn gray_candidate(c: Color) -> u8 {
    232 + gray_channel(((c.r as u32 + c.g as u32 + c.b as u32) / 3) as u8)
}

#[test]
fn distance_is_sum_of_squared_channel_differences() {
    assert_eq!(distance2(rgb(1, 2, 3), rgb(4, 6, 8)), 50);
    assert_eq!(distance2(rgb(4, 6, 8), rgb(1, 2, 3)), 50);
    assert_eq!(distance2(rgb(9, 9, 9), rgb(9, 9, 9)), 0);
    assert_eq!(distance2(Color::black(), Color::white()), 195075);
    assert_eq!(distance2(rgb(255, 0, 0), rgb(0, 0, 0)), 65025);
}

#[test]
fn black_and_white_are_the_corners() {
    assert_eq!(Color::black(), rgb(0, 0, 0));
    assert_eq!(Color::white(), rgb(255, 255, 255));
}

#[test]
fn rgb_channel_boundaries() {
    assert_eq!(rgb_channel(0), 0);
    assert_eq!(rgb_channel(47), 0);
    assert_eq!(rgb_channel(48), 1);
    assert_eq!(rgb_channel(74), 1);
    assert_eq!(rgb_channel(75), 1);
    assert_eq!(rgb_channel(114), 1);
    assert_eq!(rgb_channel(115), 2);
    assert_eq!(rgb_channel(154), 2);
    assert_eq!(rgb_channel(155), 3);
    assert_eq!(rgb_channel(195), 4);
    assert_eq!(rgb_channel(234), 4);
    assert_eq!(rgb_channel(235), 5);
    assert_eq!(rgb_channel(255), 5);
}

#[test]
fn gray_channel_boundaries() {
    assert_eq!(gray_channel(0), 0);
    assert_eq!(gray_channel(12), 0);
    assert_eq!(gray_channel(13), 1);
    assert_eq!(gray_channel(22), 1);
    assert_eq!(gray_channel(23), 2);
    assert_eq!(gray_channel(128), 12);
    assert_eq!(gray_channel(232), 22);
    assert_eq!(gray_channel(233), 23);
    assert_eq!(gray_channel(235), 23);
    assert_eq!(gray_channel(236), 23);
    assert_eq!(gray_channel(255), 23);
}

#[test]
fn channel_gives_the_six_cube_levels() {
    for (i, level) in CUBE_LEVELS.iter().enumerate() {
        assert_eq!(channel(i as u8), *level);
    }
}

#[test]
fn dequantize_gray_overrides() {
    assert_eq!(from_xterm256(7), rgb(192, 192, 192));
    assert_eq!(from_xterm256(8), rgb(128, 128, 128));
}

#[test]
fn dequantize_four_bit_colors() {
    assert_eq!(from_xterm256(0), rgb(0, 0, 0));
    assert_eq!(from_xterm256(1), rgb(128, 0, 0));
    assert_eq!(from_xterm256(2), rgb(0, 128, 0));
    assert_eq!(from_xterm256(3), rgb(128, 128, 0));
    assert_eq!(from_xterm256(4), rgb(0, 0, 128));
    assert_eq!(from_xterm256(5), rgb(128, 0, 128));
    assert_eq!(from_xterm256(6), rgb(0, 128, 128));
    assert_eq!(from_xterm256(9), rgb(255, 0, 0));
    assert_eq!(from_xterm256(10), rgb(0, 255, 0));
    assert_eq!(from_xterm256(11), rgb(255, 255, 0));
    assert_eq!(from_xterm256(12), rgb(0, 0, 255));
    assert_eq!(from_xterm256(13), rgb(255, 0, 255));
    assert_eq!(from_xterm256(14), rgb(0, 255, 255));
    assert_eq!(from_xterm256(15), rgb(255, 255, 255));
}

#[test]
fn dequantize_cube_corners_and_axes() {
    assert_eq!(from_xterm256(16), rgb(0, 0, 0));
    assert_eq!(from_xterm256(17), rgb(0, 0, 95));
    assert_eq!(from_xterm256(21), rgb(0, 0, 255));
    assert_eq!(from_xterm256(22), rgb(0, 95, 0));
    assert_eq!(from_xterm256(46), rgb(0, 255, 0));
    assert_eq!(from_xterm256(52), rgb(95, 0, 0));
    assert_eq!(from_xterm256(196), rgb(255, 0, 0));
    assert_eq!(from_xterm256(102), rgb(135, 135, 135));
    assert_eq!(from_xterm256(231), rgb(255, 255, 255));
}

#[test]
fn dequantize_cube_channels_are_cube_levels() {
    for index in 16..=231u8 {
        let c = from_xterm256(index);
        let n = index - 16;
        assert_eq!(c.r, CUBE_LEVELS[(n / 36) as usize]);
        assert_eq!(c.g, CUBE_LEVELS[(n / 6 % 6) as usize]);
        assert_eq!(c.b, CUBE_LEVELS[(n % 6) as usize]);
    }
}

#[test]
fn dequantize_gray_ramp_runs_from_8_to_238_in_tens() {
    assert_eq!(from_xterm256(232), rgb(8, 8, 8));
    assert_eq!(from_xterm256(233), rgb(18, 18, 18));
    assert_eq!(from_xterm256(244), rgb(128, 128, 128));
    assert_eq!(from_xterm256(255), rgb(238, 238, 238));
    for index in 232..=255u8 {
        let c = from_xterm256(index);
        assert_eq!(c.r, c.g);
        assert_eq!(c.g, c.b);
        assert_eq!(c.r as u32, 8 + 10 * (index as u32 - 232));
        if index > 232 {
            assert_eq!(c.r, from_xterm256(index - 1).r + 10);
        }
    }
}

#[test]
fn quantize_known_colors() {
    assert_eq!(to_xterm256(rgb(0, 0, 0)), 16);
    assert_eq!(to_xterm256(rgb(255, 255, 255)), 231);
    assert_eq!(to_xterm256(rgb(255, 0, 0)), 196);
    assert_eq!(to_xterm256(rgb(0, 255, 0)), 46);
    assert_eq!(to_xterm256(rgb(0, 0, 255)), 21);
    assert_eq!(to_xterm256(rgb(10, 200, 30)), 40);
    assert_eq!(to_xterm256(rgb(128, 128, 128)), 244);
    assert_eq!(to_xterm256(rgb(8, 8, 8)), 232);
    assert_eq!(to_xterm256(rgb(238, 238, 238)), 255);
    assert_eq!(to_xterm256(rgb(135, 135, 135)), 102);
}

#[test]
fn quantize_prefers_the_ramp_on_a_tie() {
    // (4, 4, 4) is 48 away from cube black and 48 away from the darkest gray.
    let c = rgb(4, 4, 4);
    assert_eq!(distance2(c, from_xterm256(16)), distance2(c, from_xterm256(232)));
    assert_eq!(to_xterm256(c), 232);
    // One step darker the cube wins, one step brighter the ramp does.
    assert_eq!(to_xterm256(rgb(3, 3, 3)), 16);
    assert_eq!(to_xterm256(rgb(5, 5, 5)), 232);
}

#[test]
fn quantize_never_yields_a_low_index() {
    let samples = channel_samples();
    for &r in &samples {
        for &g in &samples {
            for &b in &samples {
                assert!(to_xterm256(rgb(r, g, b)) >= 16);
            }
        }
    }
}

#[test]
fn quantize_picks_the_nearer_candidate() {
    let samples = channel_samples();
    for &r in &samples {
        for &g in &samples {
            for &b in &samples {
                let c = rgb(r, g, b);
                let cube = cube_candidate(c);
                let gray = gray_candidate(c);
                let index = to_xterm256(c);
                assert!(index == cube || index == gray);
                let d = distance2(c, from_xterm256(index));
                assert!(d <= distance2(c, from_xterm256(cube)));
                assert!(d <= distance2(c, from_xterm256(gray)));
            }
        }
    }
}

#[test]
fn quantize_is_lossy_but_exact_on_palette_colors() {
    assert_ne!(from_xterm256(to_xterm256(rgb(10, 200, 30))), rgb(10, 200, 30));
    assert_eq!(from_xterm256(to_xterm256(rgb(10, 200, 30))), rgb(0, 215, 0));
    for index in 16..=255u8 {
        let c = from_xterm256(index);
        assert_eq!(from_xterm256(to_xterm256(c)), c);
    }
}

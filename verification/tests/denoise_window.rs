use ninlab_core_rs::denoise::{denoise_window, gauss_weight, Tap, KERNEL_SCALE, KERNEL_SIDE};
use ninlab_core_rs::raster::{get_pixel_clamped, Rgb};

#[test]
fn kernel_has_the_documented_weights() {
    let expected: [[u32; 5]; 5] = [
        [37, 146, 256, 146, 37],
        [146, 586, 952, 586, 146],
        [256, 952, 1508, 952, 256],
        [146, 586, 952, 586, 146],
        [37, 146, 256, 146, 37],
    ];
    for row in 0..5usize {
        for col in 0..5usize {
            assert_eq!(gauss_weight(row, col), expected[row][col]);
        }
    }
}

#[test]
fn kernel_weights_as_fractions_are_the_decimal_ones() {
    let decimal: [[f32; 5]; 5] = [
        [0.0037, 0.0146, 0.0256, 0.0146, 0.0037],
        [0.0146, 0.0586, 0.0952, 0.0586, 0.0146],
        [0.0256, 0.0952, 0.1508, 0.0952, 0.0256],
        [0.0146, 0.0586, 0.0952, 0.0586, 0.0146],
        [0.0037, 0.0146, 0.0256, 0.0146, 0.0037],
    ];
    for row in 0..5usize {
        for col in 0..5usize {
            let w = gauss_weight(row, col) as f32 / KERNEL_SCALE as f32;
            assert_eq!(w.to_bits(), decimal[row][col].to_bits());
        }
    }
}

#[test]
fn kernel_is_normalised() {
    let mut total: u32 = 0;
    for row in 0..KERNEL_SIDE {
        for col in 0..KERNEL_SIDE {
            total += gauss_weight(row, col);
        }
    }
    assert_eq!(total, KERNEL_SCALE);
    assert_eq!(KERNEL_SCALE, 10_000);
}

#[test]
fn kernel_is_symmetric() {
    for row in 0..5usize {
        for col in 0..5usize {
            assert_eq!(gauss_weight(row, col), gauss_weight(col, row));
            assert_eq!(gauss_weight(row, col), gauss_weight(4 - row, col));
            assert_eq!(gauss_weight(row, col), gauss_weight(row, 4 - col));
        }
    }
}

fn ramp(w: usize, h: usize) -> Vec<u8> {
    let mut data: Vec<u8> = Vec::new();
    for i in 0..(w * h) {
        data.push((i % 251) as u8);
        data.push(((i * 7) % 251) as u8);
        data.push(((i * 13) % 251) as u8);
    }
    data
}

#[test]
fn window_has_twenty_five_taps_in_row_order() {
    let (w, h): (usize, usize) = (7, 6);
    let data = ramp(w, h);
    for y in 0..h {
        for x in 0..w {
            let taps = denoise_window(&data, w, h, x, y);
            assert_eq!(taps.len(), 25);
            for k in 0..25usize {
                let dy = (k / 5) as i32 - 2;
                let dx = (k % 5) as i32 - 2;
                let expected = Tap {
                    level: get_pixel_clamped(&data, w, h, x as i32 + dx, y as i32 + dy),
                    weight: gauss_weight(k / 5, k % 5),
                };
                assert_eq!(taps[k], expected);
            }
        }
    }
}

#[test]
fn window_of_a_single_pixel_repeats_it() {
    let data: Vec<u8> = vec![9, 8, 7];
    let taps = denoise_window(&data, 1, 1, 0, 0);
    assert_eq!(taps.len(), 25);
    let mut total: u32 = 0;
    for tap in &taps {
        assert_eq!(tap.level, Rgb { r: 9, g: 8, b: 7 });
        total += tap.weight;
    }
    assert_eq!(total, 10_000);
    assert_eq!(taps[12].weight, 1508);
}

#[test]
fn window_at_a_corner_replicates_the_edge() {
    // 2 wide, 2 high
    let data: Vec<u8> = vec![1, 1, 1, 2, 2, 2, 3, 3, 3, 4, 4, 4];
    let taps = denoise_window(&data, 2, 2, 0, 0);
    let reds: Vec<u8> = taps.iter().map(|t| t.level.r).collect();
    assert_eq!(
        reds,
        vec![1, 1, 1, 2, 2, 1, 1, 1, 2, 2, 1, 1, 1, 2, 2, 3, 3, 3, 4, 4, 3, 3, 3, 4, 4]
    );
}

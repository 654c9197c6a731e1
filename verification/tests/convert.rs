use ranim_render::video::{rgba2yuv420, FrameData};

fn solid(width: usize, height: usize, stride: usize, rgba: [u8; 4]) -> Vec<u8> {
    let mut src = vec![0xab_u8; stride * height];
    for y in 0..height {
        for x in 0..width {
            src[y * stride + x * 4..y * stride + x * 4 + 4].copy_from_slice(&rgba);
        }
    }
    src
}

fn convert(src: &[u8], stride: usize, width: usize, height: usize) -> (Vec<u8>, Vec<u8>, Vec<u8>) {
    let mut y = FrameData::new(width, height);
    let mut u = FrameData::new(width / 2, height / 2);
    let mut v = FrameData::new(width / 2, height / 2);
    rgba2yuv420(src, &mut y, &mut u, &mut v, stride, width, height);
    (y.buf, u.buf, v.buf)
}

fn luma_in_floats(r: u8, g: u8, b: u8) -> u8 {
    (r as f32 * 0.2578125 + g as f32 * 0.50390625 + b as f32 * 0.09765625 + 16.0) as u8
}

fn chroma_in_floats(block: [[u8; 3]; 4]) -> (u8, u8) {
    let mut mean = [0.0f32; 3];
    for c in 0..3 {
        mean[c] = (block[0][c] as f32 + block[1][c] as f32 + block[2][c] as f32
            + block[3][c] as f32)
            / 4.0;
    }
    let u = mean[0] * -0.1484375 + mean[1] * -0.2890625 + mean[2] * 0.4375 + 128.0;
    let v = mean[0] * 0.4375 + mean[1] * -0.3671875 + mean[2] * -0.0703125 + 128.0;
    (u as u8, v as u8)
}

#[test]
fn solid_red_gives_uniform_planes() {
    let src = solid(4, 4, 256, [255, 0, 0, 255]);
    let (y, u, v) = convert(&src, 256, 4, 4);
    assert_eq!(y, vec![81; 16]);
    assert_eq!(u, vec![90; 4]);
    assert_eq!(v, vec![239; 4]);
}

#[test]
fn luma_is_truncated_and_not_rounded() {
    // 255 * 66 / 256 + 16 is 81 and three quarters.
    let src = solid(2, 2, 8, [255, 0, 0, 0]);
    let (y, _, _) = convert(&src, 8, 2, 2);
    assert_eq!(y, vec![81; 4]);
    assert_eq!(luma_in_floats(255, 0, 0), 81);
}

#[test]
fn the_primaries_and_the_greys_convert_as_in_studio_range() {
    let cases: [([u8; 4], u8, u8, u8); 6] = [
        ([0, 0, 0, 255], 16, 128, 128),
        ([255, 255, 255, 255], 235, 128, 128),
        ([255, 0, 0, 255], 81, 90, 239),
        ([0, 255, 0, 255], 144, 54, 34),
        ([0, 0, 255, 255], 40, 239, 110),
        ([128, 128, 128, 7], 126, 128, 128),
    ];
    for (rgba, ey, eu, ev) in cases {
        let src = solid(2, 2, 8, rgba);
        let (y, u, v) = convert(&src, 8, 2, 2);
        assert_eq!(y, vec![ey; 4]);
        assert_eq!(u, vec![eu]);
        assert_eq!(v, vec![ev]);
    }
}

#[test]
fn alpha_is_ignored() {
    let opaque = solid(2, 2, 8, [10, 200, 30, 255]);
    let clear = solid(2, 2, 8, [10, 200, 30, 0]);
    assert_eq!(convert(&opaque, 8, 2, 2), convert(&clear, 8, 2, 2));
}

#[test]
fn chroma_is_taken_from_the_mean_of_the_block() {
    // Two red and two black pixels: the mean red is 127 and a half.
    let mut src = vec![0u8; 16];
    src[0..4].copy_from_slice(&[255, 0, 0, 255]);
    src[8..12].copy_from_slice(&[255, 0, 0, 255]);
    let (y, u, v) = convert(&src, 8, 2, 2);
    assert_eq!(y, vec![81, 16, 81, 16]);
    assert_eq!(u, vec![109]);
    assert_eq!(v, vec![183]);

    // One step of red in one pixel: the chroma falls just below 128.
    let mut src = vec![0u8; 16];
    src[0] = 1;
    let (y, u, v) = convert(&src, 8, 2, 2);
    assert_eq!(y, vec![16, 16, 16, 16]);
    assert_eq!(u, vec![127]);
    assert_eq!(v, vec![128]);
}

#[test]
fn each_pixel_lands_at_its_place() {
    // 4 by 2 pixels, rows 24 bytes apart; the red of a pixel tells its place.
    let stride = 24;
    let mut src = vec![0u8; stride * 2];
    for y in 0..2 {
        for x in 0..4 {
            src[y * stride + x * 4] = (40 * (y * 4 + x)) as u8;
        }
    }
    let (y, u, v) = convert(&src, stride, 4, 2);
    let expected: Vec<u8> = (0..8).map(|i| luma_in_floats((40 * i) as u8, 0, 0)).collect();
    assert_eq!(y, expected);
    let left = chroma_in_floats([[0, 0, 0], [160, 0, 0], [40, 0, 0], [200, 0, 0]]);
    let right = chroma_in_floats([[80, 0, 0], [240, 0, 0], [120, 0, 0], [24, 0, 0]]);
    assert_eq!(u, vec![left.0, right.0]);
    assert_eq!(v, vec![left.1, right.1]);
}

#[test]
fn the_integers_agree_with_the_floats_on_every_pixel() {
    for r in (0..=255u16).step_by(5) {
        for g in (0..=255u16).step_by(3) {
            for b in (0..=255u16).step_by(17) {
                let rgba = [r as u8, g as u8, b as u8, 255];
                let src = solid(2, 2, 8, rgba);
                let (y, u, v) = convert(&src, 8, 2, 2);
                let block = [[rgba[0], rgba[1], rgba[2]]; 4];
                let (eu, ev) = chroma_in_floats(block);
                assert_eq!(y[0], luma_in_floats(rgba[0], rgba[1], rgba[2]));
                assert_eq!((u[0], v[0]), (eu, ev));
            }
        }
    }
}

#[test]
fn the_integers_agree_with_the_floats_on_mixed_blocks() {
    let mut seed: u32 = 0x2545_f491;
    for _ in 0..20000 {
        let mut src = vec![0u8; 16];
        let mut block = [[0u8; 3]; 4];
        for p in 0..4 {
            for c in 0..3 {
                seed = seed.wrapping_mul(1_664_525).wrapping_add(1_013_904_223);
                block[p][c] = (seed >> 24) as u8;
            }
        }
        // The block's pixels in the order (0,0), (0,1), (1,0), (1,1).
        let at = [0, 8, 4, 12];
        for p in 0..4 {
            src[at[p]..at[p] + 3].copy_from_slice(&block[p]);
        }
        let (y, u, v) = convert(&src, 8, 2, 2);
        assert_eq!(y[0], luma_in_floats(block[0][0], block[0][1], block[0][2]));
        assert_eq!(y[2], luma_in_floats(block[1][0], block[1][1], block[1][2]));
        assert_eq!(y[1], luma_in_floats(block[2][0], block[2][1], block[2][2]));
        assert_eq!(y[3], luma_in_floats(block[3][0], block[3][1], block[3][2]));
        assert_eq!((u[0], v[0]), chroma_in_floats(block));
    }
}

#[test]
fn the_padding_of_the_planes_is_left_alone() {
    let src = solid(2, 2, 8, [255, 255, 255, 255]);
    let mut y = FrameData { buf: vec![7; 12], linesize: 5 };
    let mut u = FrameData { buf: vec![8; 3], linesize: 3 };
    let mut v = FrameData { buf: vec![9; 4], linesize: 2 };
    rgba2yuv420(&src, &mut y, &mut u, &mut v, 8, 2, 2);
    assert_eq!(y.buf, vec![235, 235, 7, 7, 7, 235, 235, 7, 7, 7, 7, 7]);
    assert_eq!(u.buf, vec![128, 8, 8]);
    assert_eq!(v.buf, vec![128, 9, 9, 9]);
    assert_eq!((y.linesize, u.linesize, v.linesize), (5, 3, 2));
}

#[test]
fn a_frame_without_pixels_changes_nothing() {
    let mut y = FrameData { buf: vec![1, 2, 3], linesize: 3 };
    let mut u = FrameData { buf: vec![4], linesize: 1 };
    let mut v = FrameData { buf: vec![], linesize: 0 };
    rgba2yuv420(&[], &mut y, &mut u, &mut v, 0, 0, 0);
    rgba2yuv420(&[], &mut y, &mut u, &mut v, 16, 0, 2);
    rgba2yuv420(&[], &mut y, &mut u, &mut v, 16, 2, 0);
    assert_eq!(y.buf, vec![1, 2, 3]);
    assert_eq!(u.buf, vec![4]);
    assert_eq!(v.buf, Vec::<u8>::new());
}

#[test]
fn a_plane_is_read_and_written_by_place() {
    let mut plane = FrameData::new(3, 2);
    assert_eq!(plane.buf, vec![0; 6]);
    assert_eq!(plane.linesize, 3);
    plane.set(2, 0, 5);
    plane.set(0, 1, 6);
    assert_eq!(plane.buf, vec![0, 0, 5, 6, 0, 0]);
    assert_eq!(plane.index(2, 0), 5);
    assert_eq!(plane.index(0, 1), 6);
    assert_eq!(plane.index(1, 1), 0);
    // Past the end of a line is the start of the next.
    assert_eq!(plane.index(3, 0), 6);
}

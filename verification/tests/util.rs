use ranim_render::util::{
    compute_work_group_count, pad_to_bytes_per_row_alignment, round_up_to_alignment, Size,
    PIXEL_STRIDE,
};

#[test]
fn a_row_is_padded_to_the_copy_alignment() {
    assert_eq!(PIXEL_STRIDE, 4);
    assert_eq!(pad_to_bytes_per_row_alignment(0), 0);
    assert_eq!(pad_to_bytes_per_row_alignment(1), 256);
    assert_eq!(pad_to_bytes_per_row_alignment(63), 256);
    assert_eq!(pad_to_bytes_per_row_alignment(64), 256);
    assert_eq!(pad_to_bytes_per_row_alignment(65), 512);
    assert_eq!(pad_to_bytes_per_row_alignment(854), 3584);
    assert_eq!(pad_to_bytes_per_row_alignment(1920), 7680);
}

#[test]
fn rounding_up_gives_the_least_multiple() {
    for n in 0..2000usize {
        let r = round_up_to_alignment(n);
        assert_eq!(r % 256, 0);
        assert!(r >= n);
        assert!(r < n + 256);
    }
    assert_eq!(round_up_to_alignment(0), 0);
    assert_eq!(round_up_to_alignment(256), 256);
    assert_eq!(round_up_to_alignment(257), 512);
}

#[test]
fn a_size_keeps_its_sides_and_pads_its_rows() {
    let size = Size::new(854, 480);
    assert_eq!(size.width, 854);
    assert_eq!(size.height, 480);
    assert_eq!(size.bytes_per_row, 3584);
    assert_eq!(size.buffer_size(), 3584 * 480);
    let extent = size.extent();
    assert_eq!((extent.width, extent.height, extent.depth_or_array_layers), (854, 480, 1));
}

#[test]
fn a_size_without_pixels_needs_no_buffer() {
    let size = Size::new(0, 0);
    assert_eq!(size.bytes_per_row, 0);
    assert_eq!(size.buffer_size(), 0);
    let size = Size::new(64, 0);
    assert_eq!(size.bytes_per_row, 256);
    assert_eq!(size.buffer_size(), 0);
}

#[test]
fn the_widest_size_still_fits() {
    let size = Size::new(0x3fff_ffc0, 1);
    assert_eq!(size.bytes_per_row, 0xffff_ff00);
}

#[test]
fn workgroups_cover_the_padded_size() {
    let size = Size::new(854, 480);
    assert_eq!(compute_work_group_count(size, (16, 16)), (56, 30));
    assert_eq!(compute_work_group_count(size, (1, 1)), (896, 480));
    assert_eq!(compute_work_group_count(size, (1000, 481)), (1, 1));
    assert_eq!(compute_work_group_count(size, (u32::MAX, u32::MAX)), (1, 1));
    assert_eq!(compute_work_group_count(Size::new(0, 0), (16, 16)), (0, 0));
}

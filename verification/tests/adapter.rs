use raytrace_pipeline::adapter::{downsample_image, pixel_buffer_matches, solid_image, texel_at};

#[test]
fn buffer_size_check_is_exact() {
    assert!(pixel_buffer_matches(256 * 256 * 4, 256, 256));
    assert!(!pixel_buffer_matches(256 * 256 * 4 - 1, 256, 256));
    assert!(!pixel_buffer_matches(256 * 256 * 4 + 1, 256, 256));
    assert!(pixel_buffer_matches(0, 0, 17));
}

#[test]
fn texels_are_read_verbatim() {
    let pixels: Vec<u8> = vec![1, 2, 3, 4, 5, 6, 7, 8];
    assert_eq!(texel_at(&pixels, 2, 1, 0, 0), (1, 2, 3, 4));
    assert_eq!(texel_at(&pixels, 2, 1, 1, 0), (5, 6, 7, 8));
}

#[test]
fn texel_rows_are_tightly_packed() {
    let mut pixels: Vec<u8> = Vec::new();
    for k in 0..16u8 {
        pixels.push(k);
    }
    // 2 x 2 image: the second row starts at byte 8 = 4 * width
    assert_eq!(texel_at(&pixels, 2, 2, 0, 1), (8, 9, 10, 11));
    assert_eq!(texel_at(&pixels, 2, 2, 1, 1), (12, 13, 14, 15));
}

#[test]
fn solid_image_is_uniform() {
    let img = solid_image(3, 2, (9, 8, 7, 6));
    assert_eq!(img.len(), 3 * 2 * 4);
    for p in 0..6 {
        assert_eq!(&img[4 * p..4 * p + 4], &[9, 8, 7, 6]);
    }
}

#[test]
fn downsampling_a_uniform_image_keeps_its_color() {
    // The clear color, rendered supersampled with nothing drawn, survives
    // the box filter unchanged.
    let clear = (0u8, 0u8, 0u8, 0u8);
    let src = solid_image(8, 8, clear);
    let out = downsample_image(&src, 4, 4);
    assert_eq!(out, solid_image(4, 4, clear));

    let tint = (200u8, 100u8, 50u8, 255u8);
    let src = solid_image(4, 2, tint);
    let out = downsample_image(&src, 2, 1);
    assert_eq!(out, solid_image(2, 1, tint));
}

#[test]
fn downsampling_averages_each_channel() {
    // One 2 x 2 supersampled block into one final texel.
    let src: Vec<u8> = vec![
        0, 40, 100, 255, // texel (0, 0)
        4, 40, 100, 255, // texel (1, 0)
        8, 40, 101, 255, // texel (0, 1)
        16, 40, 101, 255, // texel (1, 1)
    ];
    let out = downsample_image(&src, 1, 1);
    assert_eq!(out, vec![7, 40, 100, 255]);
}

#[test]
fn downsampling_reads_the_matching_block() {
    // 4 x 2 supersampled image, two distinct 2 x 2 blocks: the left block's
    // texels fill columns 0..2 of both rows, the right block's columns 2..4.
    let left = [100u8, 0, 0, 255];
    let right = [20u8, 60, 0, 255];
    let mut src: Vec<u8> = Vec::new();
    src.extend_from_slice(&left);
    src.extend_from_slice(&left);
    src.extend_from_slice(&right);
    src.extend_from_slice(&right);
    src.extend_from_slice(&left);
    src.extend_from_slice(&left);
    src.extend_from_slice(&right);
    src.extend_from_slice(&right);
    let out = downsample_image(&src, 2, 1);
    assert_eq!(&out[0..4], &left);
    assert_eq!(&out[4..8], &right);
}

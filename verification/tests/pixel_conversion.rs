use lan_mouse_tray::{convert, ChannelOrder, IconImage, PixelBuffer};

fn buffer(
    width: i32,
    height: i32,
    stride: usize,
    channel_count: usize,
    has_alpha: bool,
    data: Vec<u8>,
) -> PixelBuffer {
    PixelBuffer { width, height, stride, channel_count, has_alpha, data }
}

const PAD: u8 = 0xEE;

#[test]
fn padded_rows_are_packed_without_padding() {
    // Two rows of one pixel each, eight bytes from row to row.
    let data = vec![
        10, 20, 30, 40, PAD, PAD, PAD, PAD, //
        11, 21, 31, 41, PAD, PAD, PAD, PAD,
    ];
    let source = buffer(1, 2, 8, 4, true, data);
    assert!(source.is_well_formed());
    let image = convert(&source, ChannelOrder::Rgba);
    assert_eq!(image.width, 1);
    assert_eq!(image.height, 2);
    assert_eq!(image.data, vec![10, 20, 30, 40, 11, 21, 31, 41]);
    assert!(!image.data.contains(&PAD));
}

#[test]
fn pixels_of_one_row_follow_each_other() {
    // One row of two pixels; the stride plays no part within a row.
    let data = vec![10, 20, 30, 40, 11, 21, 31, 41];
    let source = buffer(2, 1, 8, 4, true, data);
    let image = convert(&source, ChannelOrder::Rgba);
    assert_eq!(image, IconImage { width: 2, height: 1, data: vec![10, 20, 30, 40, 11, 21, 31, 41] });
}

#[test]
fn argb_puts_alpha_first() {
    let data = vec![
        10, 20, 30, 40, PAD, PAD, PAD, PAD, //
        11, 21, 31, 41, PAD, PAD, PAD, PAD,
    ];
    let source = buffer(1, 2, 8, 4, true, data);
    let image = convert(&source, ChannelOrder::Argb);
    assert_eq!(image.data, vec![40, 10, 20, 30, 41, 11, 21, 31]);
}

#[test]
fn four_channels_with_alpha_keep_every_byte() {
    // 2 x 2, stride 10: two bytes of padding after each row but the last.
    let data = vec![
        1, 2, 3, 4, 5, 6, 7, 8, PAD, PAD, //
        9, 10, 11, 12, 13, 14, 15, 16,
    ];
    let source = buffer(2, 2, 10, 4, true, data);
    assert!(source.is_well_formed());
    let rgba = convert(&source, ChannelOrder::Rgba);
    assert_eq!(rgba.data, vec![1, 2, 3, 4, 5, 6, 7, 8, 9, 10, 11, 12, 13, 14, 15, 16]);
    let argb = convert(&source, ChannelOrder::Argb);
    assert_eq!(argb.data, vec![4, 1, 2, 3, 8, 5, 6, 7, 12, 9, 10, 11, 16, 13, 14, 15]);
    let mut sorted_in: Vec<u8> = (1..=16).collect();
    let mut sorted_out = argb.data.clone();
    sorted_in.sort();
    sorted_out.sort();
    assert_eq!(sorted_in, sorted_out);
}

#[test]
fn three_channels_become_opaque() {
    // 2 x 1 RGB, stride 8 with two bytes of padding.
    let data = vec![1, 2, 3, 4, 5, 6, PAD, PAD];
    let source = buffer(2, 1, 8, 3, false, data);
    assert_eq!(convert(&source, ChannelOrder::Rgba).data, vec![1, 2, 3, 255, 4, 5, 6, 255]);
    assert_eq!(convert(&source, ChannelOrder::Argb).data, vec![255, 1, 2, 3, 255, 4, 5, 6]);
}

#[test]
fn fourth_channel_is_ignored_without_alpha() {
    let data = vec![1, 2, 3, 0, 4, 5, 6, 77];
    let source = buffer(2, 1, 8, 4, false, data);
    assert_eq!(convert(&source, ChannelOrder::Rgba).data, vec![1, 2, 3, 255, 4, 5, 6, 255]);
    assert_eq!(convert(&source, ChannelOrder::Argb).data, vec![255, 1, 2, 3, 255, 4, 5, 6]);
}

#[test]
fn alpha_flag_without_a_fourth_channel_is_opaque() {
    let data = vec![1, 2, 3, 4, 5, 6];
    let source = buffer(2, 1, 6, 3, true, data);
    assert_eq!(convert(&source, ChannelOrder::Rgba).data, vec![1, 2, 3, 255, 4, 5, 6, 255]);
}

#[test]
fn wider_pixels_are_read_at_their_own_width() {
    // Five bytes per pixel: the fifth is never read.
    let data = vec![1, 2, 3, 4, PAD, 5, 6, 7, 8, PAD];
    let source = buffer(2, 1, 10, 5, true, data);
    assert!(source.is_well_formed());
    assert_eq!(convert(&source, ChannelOrder::Rgba).data, vec![1, 2, 3, 4, 5, 6, 7, 8]);
}

#[test]
fn buffers_without_area_give_no_icon() {
    let empty = IconImage { width: 0, height: 0, data: Vec::new() };
    for (width, height) in [(0, 1), (1, 0), (0, 0), (-1, 1), (1, -1), (i32::MIN, i32::MIN)] {
        let source = buffer(width, height, 4, 4, true, vec![1, 2, 3, 4]);
        assert!(source.is_rejected());
        assert!(source.is_well_formed());
        for order in [ChannelOrder::Argb, ChannelOrder::Rgba] {
            let image = convert(&source, order);
            assert!(image.is_empty());
            assert_eq!(image, empty);
        }
    }
}

#[test]
fn fewer_than_three_channels_give_no_icon() {
    for channel_count in [0, 1, 2] {
        let source = buffer(1, 1, 4, channel_count, false, vec![1, 2, 3, 4]);
        assert!(source.is_rejected());
        assert!(convert(&source, ChannelOrder::Rgba).is_empty());
        assert!(convert(&source, ChannelOrder::Argb).data.is_empty());
    }
}

#[test]
fn rejected_buffers_need_no_data() {
    let source = buffer(0, 0, 0, 0, false, Vec::new());
    assert!(source.is_well_formed());
    assert!(convert(&source, ChannelOrder::Rgba).is_empty());
}

#[test]
fn well_formedness_asks_for_the_last_pixel() {
    // 2 x 2 RGBA, stride 12: needs 12 + 8 = 20 bytes.
    assert!(buffer(2, 2, 12, 4, true, vec![0; 20]).is_well_formed());
    assert!(buffer(2, 2, 12, 4, true, vec![0; 24]).is_well_formed());
    assert!(!buffer(2, 2, 12, 4, true, vec![0; 19]).is_well_formed());
    assert!(!buffer(1, 1, 4, 4, true, Vec::new()).is_well_formed());
    assert!(!buffer(1, 1, 4, 3, false, vec![0; 2]).is_well_formed());
    assert!(buffer(1, 1, 4, 3, false, vec![0; 3]).is_well_formed());
}

#[test]
fn well_formedness_survives_huge_geometry() {
    let source = buffer(i32::MAX, i32::MAX, usize::MAX, usize::MAX, true, vec![0; 16]);
    assert!(!source.is_rejected());
    assert!(!source.is_well_formed());
}

#[test]
fn converted_size_is_four_bytes_per_pixel() {
    let source = buffer(3, 5, 11, 3, false, vec![7; 4 * 11 + 9]);
    assert!(source.is_well_formed());
    let image = convert(&source, ChannelOrder::Argb);
    assert_eq!((image.width, image.height), (3, 5));
    assert_eq!(image.data.len(), 3 * 5 * 4);
    for pixel in image.data.chunks(4) {
        assert_eq!(pixel, [255, 7, 7, 7]);
    }
}

#[test]
fn the_source_is_left_untouched() {
    let data = vec![1, 2, 3, 4];
    let source = buffer(1, 1, 4, 4, true, data.clone());
    let _ = convert(&source, ChannelOrder::Argb);
    assert_eq!(source.data, data);
}

#[test]
fn empty_image_has_no_pixels() {
    let image = IconImage::empty();
    assert!(image.is_empty());
    assert_eq!((image.width, image.height), (0, 0));
}

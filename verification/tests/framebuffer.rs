use toy_os::framebuffer::{set_pixel_in, Color, FrameBufferInfo, PixelFormat, Position};

fn layout(pixel_format: PixelFormat, bytes_per_pixel: usize) -> FrameBufferInfo {
    FrameBufferInfo {
        byte_len: 100 * 10 * bytes_per_pixel,
        width: 100,
        height: 10,
        pixel_format,
        bytes_per_pixel,
        stride: 100,
    }
}

#[test]
fn rgb_pixel_at_the_origin() {
    let info = layout(PixelFormat::Rgb, 4);
    let mut buffer: Vec<u8> = vec![0x55; info.byte_len];
    let red = Color { red: 255, green: 0, blue: 0 };
    set_pixel_in(&mut buffer, info, Position { x: 0, y: 0 }, red);
    assert_eq!(buffer[0..3], [255, 0, 0]);
    assert_eq!(buffer[3], 0x55);
    assert!(buffer[4..].iter().all(|byte| *byte == 0x55));
}

#[test]
fn bgr_pixel_at_the_origin() {
    let info = layout(PixelFormat::Bgr, 4);
    let mut buffer: Vec<u8> = vec![0x55; info.byte_len];
    let red = Color { red: 255, green: 0, blue: 0 };
    set_pixel_in(&mut buffer, info, Position { x: 0, y: 0 }, red);
    assert_eq!(buffer[0..3], [0, 0, 255]);
    assert_eq!(buffer[3], 0x55);
    assert!(buffer[4..].iter().all(|byte| *byte == 0x55));
}

#[test]
fn gray_pixel_is_the_sum_of_the_thirds() {
    let info = layout(PixelFormat::U8, 1);
    let mut buffer: Vec<u8> = vec![0x55; info.byte_len];
    set_pixel_in(
        &mut buffer,
        info,
        Position { x: 0, y: 0 },
        Color { red: 255, green: 255, blue: 255 },
    );
    assert_eq!(buffer[0], 255);
    set_pixel_in(&mut buffer, info, Position { x: 1, y: 0 }, Color { red: 1, green: 1, blue: 1 });
    assert_eq!(buffer[1], 0);
    set_pixel_in(&mut buffer, info, Position { x: 2, y: 0 }, Color { red: 2, green: 2, blue: 2 });
    assert_eq!(buffer[2], 0);
    set_pixel_in(&mut buffer, info, Position { x: 3, y: 0 }, Color { red: 3, green: 5, blue: 9 });
    assert_eq!(buffer[3], 5);
    assert!(buffer[4..].iter().all(|byte| *byte == 0x55));
}

#[test]
fn pixel_offset_counts_lines_by_the_stride() {
    let info = layout(PixelFormat::Rgb, 4);
    let mut buffer: Vec<u8> = vec![0; info.byte_len];
    set_pixel_in(&mut buffer, info, Position { x: 7, y: 3 }, Color { red: 1, green: 2, blue: 3 });
    let offset: usize = (3 * 100 + 7) * 4;
    assert_eq!(offset, 1228);
    let mut expected: Vec<u8> = vec![0; info.byte_len];
    expected[1228] = 1;
    expected[1229] = 2;
    expected[1230] = 3;
    assert_eq!(buffer, expected);
}

#[test]
fn last_pixel_of_the_buffer() {
    let info = layout(PixelFormat::Bgr, 3);
    let mut buffer: Vec<u8> = vec![9; info.byte_len];
    assert!(info.can_set_pixel(buffer.len(), Position { x: 99, y: 9 }));
    set_pixel_in(&mut buffer, info, Position { x: 99, y: 9 }, Color { red: 1, green: 2, blue: 3 });
    assert_eq!(buffer[2997..], [3, 2, 1]);
    assert!(buffer[..2997].iter().all(|byte| *byte == 9));
}

#[test]
fn can_set_pixel_refuses_what_cannot_be_written() {
    let info = layout(PixelFormat::Rgb, 4);
    assert!(info.can_set_pixel(4000, Position { x: 0, y: 0 }));
    assert!(info.can_set_pixel(4000, Position { x: 99, y: 9 }));
    assert!(!info.can_set_pixel(4000, Position { x: 0, y: 10 }));
    assert!(!info.can_set_pixel(3999, Position { x: 99, y: 9 }));
    assert!(!info.can_set_pixel(4000, Position { x: usize::MAX, y: usize::MAX }));
    assert!(!info.can_set_pixel(4000, Position { x: usize::MAX, y: 0 }));

    let unknown = PixelFormat::Unknown { red_position: 0, green_position: 8, blue_position: 16 };
    assert!(!layout(unknown, 4).can_set_pixel(4000, Position { x: 0, y: 0 }));
    assert!(!layout(PixelFormat::Rgb, 2).can_set_pixel(4000, Position { x: 0, y: 0 }));
    assert!(!layout(PixelFormat::U8, 0).can_set_pixel(4000, Position { x: 0, y: 0 }));
    assert!(layout(PixelFormat::U8, 1).can_set_pixel(1000, Position { x: 99, y: 9 }));
}

#[test]
fn channel_counts() {
    assert_eq!(PixelFormat::Rgb.channel_count(), 3);
    assert_eq!(PixelFormat::Bgr.channel_count(), 3);
    assert_eq!(PixelFormat::U8.channel_count(), 1);
    let unknown = PixelFormat::Unknown { red_position: 0, green_position: 8, blue_position: 16 };
    assert_eq!(unknown.channel_count(), 0);
}

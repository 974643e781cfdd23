use playback_core::error::PlaybackError;
use playback_core::pixel::{pack_rgb, tight_rows, write_frame, VideoFrame};

#[test]
fn pack_rgb_puts_red_high_and_blue_low() {
    assert_eq!(pack_rgb(0x12, 0x34, 0x56), 0x0012_3456);
    assert_eq!(pack_rgb(0, 0, 0), 0);
    assert_eq!(pack_rgb(255, 255, 255), 0x00ff_ffff);
    assert_eq!(pack_rgb(255, 0, 0), 0x00ff_0000);
    assert_eq!(pack_rgb(0, 255, 0), 0x0000_ff00);
    assert_eq!(pack_rgb(0, 0, 255), 0x0000_00ff);
    assert_eq!(pack_rgb(1, 2, 3), 1 * 65_536 + 2 * 256 + 3);
}

#[test]
fn write_frame_converts_every_pixel_in_order() {
    let frame = VideoFrame {
        width: 2,
        height: 2,
        data: vec![1, 2, 3, 4, 5, 6, 7, 8, 9, 10, 11, 12],
    };
    let mut surface = [0xdead_beefu32; 4];
    assert_eq!(write_frame(&frame, &mut surface), Ok(()));
    assert_eq!(surface, [0x0001_0203, 0x0004_0506, 0x0007_0809, 0x000a_0b0c]);
}

#[test]
fn write_frame_leaves_the_rest_of_the_surface_alone() {
    let frame = VideoFrame { width: 1, height: 2, data: vec![255, 0, 0, 0, 0, 255, 77, 77] };
    let mut surface = [5u32; 5];
    assert_eq!(write_frame(&frame, &mut surface), Ok(()));
    assert_eq!(surface, [0x00ff_0000, 0x0000_00ff, 5, 5, 5]);
}

#[test]
fn write_frame_refuses_a_short_frame() {
    let frame = VideoFrame { width: 2, height: 2, data: vec![0; 11] };
    let mut surface = [5u32; 4];
    assert_eq!(write_frame(&frame, &mut surface), Err(PlaybackError::MalformedFrame));
    assert_eq!(surface, [5; 4]);
}

#[test]
fn write_frame_refuses_a_small_surface() {
    let frame = VideoFrame { width: 2, height: 2, data: vec![9; 12] };
    let mut surface = [5u32; 3];
    assert_eq!(write_frame(&frame, &mut surface), Err(PlaybackError::SurfaceTooSmall));
    assert_eq!(surface, [5; 3]);
}

#[test]
fn short_frame_counts_before_small_surface() {
    let frame = VideoFrame { width: 2, height: 2, data: vec![9; 3] };
    let mut surface = [5u32; 1];
    assert_eq!(write_frame(&frame, &mut surface), Err(PlaybackError::MalformedFrame));
}

#[test]
fn frame_without_pixels_writes_nothing() {
    let frame = VideoFrame { width: 0, height: 1080, data: Vec::new() };
    let mut surface = [5u32; 2];
    assert_eq!(write_frame(&frame, &mut surface), Ok(()));
    assert_eq!(surface, [5; 2]);
    let mut none: [u32; 0] = [];
    assert_eq!(write_frame(&frame, &mut none), Ok(()));
}

#[test]
fn huge_dimensions_are_refused_not_wrapped() {
    let frame = VideoFrame { width: u32::MAX, height: u32::MAX, data: vec![1, 2, 3] };
    let mut surface = [5u32; 2];
    assert_eq!(write_frame(&frame, &mut surface), Err(PlaybackError::MalformedFrame));
    assert_eq!(surface, [5; 2]);
}

#[test]
fn tight_rows_leaves_out_the_padding() {
    // Two rows of one pixel, four bytes apart: one byte of padding per row.
    let plane = [1u8, 2, 3, 99, 4, 5, 6, 98];
    let frame = tight_rows(&plane, 1, 2, 4).unwrap();
    assert_eq!(frame.width, 1);
    assert_eq!(frame.height, 2);
    assert_eq!(frame.data, vec![1, 2, 3, 4, 5, 6]);
}

#[test]
fn tight_rows_of_an_unpadded_plane_is_the_plane() {
    let plane: Vec<u8> = (0..24).collect();
    let frame = tight_rows(&plane, 2, 4, 6).unwrap();
    assert_eq!(frame.data, plane);
}

#[test]
fn last_row_needs_no_padding() {
    let plane = [1u8, 2, 3, 0, 0, 4, 5, 6];
    let frame = tight_rows(&plane, 1, 2, 5).unwrap();
    assert_eq!(frame.data, vec![1, 2, 3, 4, 5, 6]);
    assert!(tight_rows(&plane[..7], 1, 2, 5).is_err());
}

#[test]
fn tight_rows_then_write_frame_shows_the_picture() {
    let plane = [10u8, 20, 30, 40, 50, 60, 0, 0, 70, 80, 90, 100, 110, 120, 0, 0];
    let frame = tight_rows(&plane, 2, 2, 8).unwrap();
    let mut surface = [0u32; 4];
    assert_eq!(write_frame(&frame, &mut surface), Ok(()));
    assert_eq!(surface, [0x000a_141e, 0x0028_323c, 0x0046_505a, 0x0064_6e78]);
}

#[test]
fn tight_rows_refuses_rows_shorter_than_the_width() {
    let plane = [0u8; 64];
    assert_eq!(tight_rows(&plane, 2, 2, 5).err(), Some(PlaybackError::MalformedFrame));
    assert_eq!(tight_rows(&plane, 2, 0, 5).err(), Some(PlaybackError::MalformedFrame));
    assert_eq!(tight_rows(&plane, u32::MAX, 1, 64).err(), Some(PlaybackError::MalformedFrame));
}

#[test]
fn tight_rows_refuses_a_plane_that_ends_early() {
    let plane = [0u8; 11];
    assert_eq!(tight_rows(&plane, 2, 2, 6).err(), Some(PlaybackError::MalformedFrame));
    assert!(tight_rows(&plane, 2, 1, 6).is_ok());
    assert_eq!(
        tight_rows(&plane, 1, u32::MAX, usize::MAX).err(),
        Some(PlaybackError::MalformedFrame)
    );
}

#[test]
fn picture_without_rows_or_columns_is_empty() {
    let none: [u8; 0] = [];
    assert_eq!(tight_rows(&none, 0, 0, 0).unwrap().data, Vec::<u8>::new());
    assert_eq!(tight_rows(&none, 4, 0, 12).unwrap().data, Vec::<u8>::new());
    assert_eq!(tight_rows(&none, 0, 1, 0).unwrap().data, Vec::<u8>::new());
    let plane = [0u8; 8];
    assert_eq!(tight_rows(&plane, 0, 3, 4).unwrap().data, Vec::<u8>::new());
    assert!(tight_rows(&plane, 0, 4, 4).is_err());
}

//! Buffer manager: allocation, the mapping lifecycle, the test pattern,
//! and the planar framebuffer adapter.

use dispctl::buffer::{allocate, destroy, fill_test_pattern, from_device, paint, unmap, PixelFormat};
use dispctl::errors::HwError;
use dispctl::fb::PlanarFramebuffer;

#[test]
fn allocation_respects_the_memory_budget() {
    // 1920*3 = 5760, already 4-byte aligned; 1080 rows
    let b = allocate(1920, 1080, PixelFormat::Bgr888, 24, 8 * 1024 * 1024, 9).unwrap();
    assert_eq!(b.width, 1920);
    assert_eq!(b.height, 1080);
    assert_eq!(b.pitch, 5760);
    assert_eq!(b.handle, 9);
    assert!(!b.mapped);
    assert!(b.alive);

    // the same buffer does not fit in a smaller budget
    assert_eq!(
        allocate(1920, 1080, PixelFormat::Bgr888, 24, 1024 * 1024, 9),
        Err(HwError::OutOfVideoMemoryError)
    );
}

#[test]
fn pitch_is_aligned_up_to_four_bytes() {
    // width 2: packed row is 6 bytes, aligned pitch is 8
    let b = allocate(2, 2, PixelFormat::Bgr888, 24, 1024, 1).unwrap();
    assert_eq!(b.pitch, 8);
}

#[test]
fn device_reported_geometry_is_validated() {
    let b = from_device(640, 480, 1920, 24, PixelFormat::Bgr888, 5).unwrap();
    assert_eq!(b.pitch, 1920);
    // a pitch that cannot hold a packed row is refused
    assert_eq!(from_device(640, 480, 1919, 24, PixelFormat::Bgr888, 5), None);
}

#[test]
fn destroy_while_mapped_fails_then_succeeds_after_unmap() {
    let mut b = allocate(2, 2, PixelFormat::Bgr888, 24, 1024, 1).unwrap();
    let view = dispctl::buffer::map(&mut b);
    assert!(b.mapped);
    assert_eq!(destroy(&mut b), Err(HwError::BufferStillMappedError));
    // the failed destroy changed nothing
    assert!(b.alive);
    assert!(b.mapped);
    unmap(&mut b, view);
    assert!(!b.mapped);
    assert_eq!(destroy(&mut b), Ok(()));
    assert!(!b.alive);
}

#[test]
fn test_pattern_is_the_documented_gradient() {
    // width 2, height 2, pitch 8: two padding bytes per row, three spare
    // bytes past the end of the patterned region
    let mut data = vec![0xAAu8; 19];
    fill_test_pattern(&mut data, 2, 2, 8);
    // row 0: red = !0 = 255, green = column, blue = 0
    assert_eq!(&data[0..6], &[255, 0, 0, 255, 1, 0]);
    // row padding untouched
    assert_eq!(&data[6..8], &[0xAA, 0xAA]);
    // row 1: red = !1 = 254, green = column, blue = 1
    assert_eq!(&data[8..14], &[254, 0, 1, 254, 1, 1]);
    assert_eq!(&data[14..16], &[0xAA, 0xAA]);
    // nothing at or past height * pitch is written
    assert_eq!(&data[16..19], &[0xAA, 0xAA, 0xAA]);
}

#[test]
fn test_pattern_wraps_row_and_column_bytes() {
    // one 300-pixel row: the green byte is the low 8 bits of the column
    let mut data = vec![0u8; 900];
    fill_test_pattern(&mut data, 300, 1, 900);
    assert_eq!(data[3 * 299 + 1], 43); // 299 % 256
    assert_eq!(data[3 * 299], 255); // red: !0
    assert_eq!(data[3 * 299 + 2], 0); // blue: row 0
}

#[test]
fn paint_goes_through_the_mapping() {
    let mut b = allocate(2, 1, PixelFormat::Bgr888, 24, 1024, 3).unwrap();
    let mut data = vec![0u8; (b.height as usize) * (b.pitch as usize)];
    let view = dispctl::buffer::map(&mut b);
    paint(&b, &view, &mut data);
    assert_eq!(&data[0..6], &[255, 0, 0, 255, 1, 0]);
    unmap(&mut b, view);
    assert_eq!(destroy(&mut b), Ok(()));
}

#[test]
fn planar_adapter_describes_a_single_plane() {
    let b = allocate(1920, 1080, PixelFormat::Bgr888, 24, 8 * 1024 * 1024, 9).unwrap();
    let fb = PlanarFramebuffer::from_buffer(&b);
    assert_eq!(fb.size(), (1920, 1080));
    assert_eq!(fb.format(), PixelFormat::Bgr888);
    assert_eq!(fb.modifier(), None);
    assert_eq!(fb.pitches(), [5760, 0, 0, 0]);
    // unused slots are explicitly absent, not zero-valued handles
    assert_eq!(fb.handles(), [Some(9), None, None, None]);
    assert_eq!(fb.offsets(), [0, 0, 0, 0]);
    assert_eq!(fb.into_buffer(), b);
}

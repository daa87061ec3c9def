use soomer::capture::{select_output, CaptureError, CapturedImage, ChannelOrder, RawFrame};

#[test]
fn output_index_must_be_below_the_count() {
    assert_eq!(select_output(3, 0), Ok(0));
    assert_eq!(select_output(3, 2), Ok(2));
    assert_eq!(select_output(3, 3), Err(CaptureError::OutputOutOfRange));
    assert_eq!(select_output(0, 0), Err(CaptureError::OutputOutOfRange));
}

#[test]
fn a_frame_of_the_right_length_is_an_image() {
    let bytes: Vec<u8> = (0..24).collect();
    let image = CapturedImage::from_frame(RawFrame { width: 3, height: 2, bytes: bytes.clone() })
        .ok()
        .unwrap();
    assert_eq!(image.width(), 3);
    assert_eq!(image.height(), 2);
    assert_eq!(image.bytes(), &bytes);
}

#[test]
fn a_frame_without_pixels_is_refused() {
    let e = CapturedImage::from_frame(RawFrame { width: 0, height: 2, bytes: vec![] }).err();
    assert_eq!(e, Some(CaptureError::EmptyFrame));
    let e = CapturedImage::from_frame(RawFrame { width: 2, height: 0, bytes: vec![0; 8] }).err();
    assert_eq!(e, Some(CaptureError::EmptyFrame));
}

#[test]
fn a_frame_of_the_wrong_length_is_refused() {
    let e = CapturedImage::from_frame(RawFrame { width: 3, height: 2, bytes: vec![0; 23] }).err();
    assert_eq!(e, Some(CaptureError::WrongLength));
    let e = CapturedImage::from_frame(RawFrame { width: 3, height: 2, bytes: vec![0; 25] }).err();
    assert_eq!(e, Some(CaptureError::WrongLength));
    let e = CapturedImage::from_frame(RawFrame { width: u32::MAX, height: u32::MAX, bytes: vec![0; 4] }).err();
    assert_eq!(e, Some(CaptureError::WrongLength));
}

#[test]
fn a_missing_frame_is_a_failed_capture() {
    assert_eq!(CapturedImage::from_capture(None).err(), Some(CaptureError::CompositorFailed));
    let ok = CapturedImage::from_capture(Some(RawFrame { width: 1, height: 1, bytes: vec![9, 8, 7, 6] }));
    assert_eq!(ok.ok().unwrap().bytes(), &vec![9, 8, 7, 6]);
    let bad = CapturedImage::from_capture(Some(RawFrame { width: 1, height: 1, bytes: vec![9, 8, 7] }));
    assert_eq!(bad.err(), Some(CaptureError::WrongLength));
}

#[test]
fn channels_are_reordered_pixel_by_pixel() {
    let image = CapturedImage::from_frame(RawFrame {
        width: 2,
        height: 1,
        bytes: vec![1, 2, 3, 4, 5, 6, 7, 8],
    })
    .ok()
    .unwrap();
    assert_eq!(image.reordered(ChannelOrder::Rgba), vec![1, 2, 3, 4, 5, 6, 7, 8]);
    assert_eq!(image.reordered(ChannelOrder::Bgra), vec![3, 2, 1, 4, 7, 6, 5, 8]);
    assert_eq!(image.reordered(ChannelOrder::Argb), vec![4, 1, 2, 3, 8, 5, 6, 7]);
    assert_eq!(image.reordered(ChannelOrder::Abgr), vec![4, 3, 2, 1, 8, 7, 6, 5]);
    assert_eq!(image.bytes(), &vec![1, 2, 3, 4, 5, 6, 7, 8]);
}

use pixel_views::crop::CropRect;
use pixel_views::encoding::PixelEncoding;
use pixel_views::error::ImageError;
use pixel_views::owned::ImageBuffer;

fn patterned(width: u32, height: u32) -> ImageBuffer {
    // 4-channel 8-bit pattern: pixel (x, y) holds [x, y, x + y, 7].
    let mut bytes = Vec::new();
    for y in 0..height {
        for x in 0..width {
            bytes.push(x as u8);
            bytes.push(y as u8);
            bytes.push((x + y) as u8);
            bytes.push(7u8);
        }
    }
    ImageBuffer::create(width, height, PixelEncoding::U8x4, Some(bytes)).unwrap()
}

#[test]
fn create_then_read_view_dimensions() {
    let img = ImageBuffer::create(3, 5, PixelEncoding::U8x4, None).unwrap();
    let v = img.read_view();
    assert_eq!(v.row_count(), 5);
    assert_eq!(v.row_len(), 3);
    assert_eq!(img.width(), 3);
    assert_eq!(img.height(), 5);
    assert_eq!(img.byte_len(), 3 * 5 * 4);

    let img16 = ImageBuffer::create(7, 2, PixelEncoding::U16x3, None).unwrap();
    let v16 = img16.read_view();
    assert_eq!(v16.row_count(), 2);
    assert_eq!(v16.row_len(), 7);
    assert_eq!(img16.byte_len(), 7 * 2 * 6);
}

#[test]
fn create_zero_dimension_fails() {
    assert!(matches!(
        ImageBuffer::create(0, 5, PixelEncoding::U8, None),
        Err(ImageError::InvalidDimension)
    ));
    assert!(matches!(
        ImageBuffer::create(5, 0, PixelEncoding::U8, None),
        Err(ImageError::InvalidDimension)
    ));
}

#[test]
fn create_undersized_buffer_fails() {
    let bytes = vec![0u8; 15];
    assert!(matches!(
        ImageBuffer::create(2, 2, PixelEncoding::U8x4, Some(bytes)),
        Err(ImageError::BufferTooSmall)
    ));
}

#[test]
fn create_oversized_buffer_ignores_tail() {
    let bytes = vec![1u8, 2, 3, 4, 9, 9];
    let img = ImageBuffer::create(2, 2, PixelEncoding::U8, Some(bytes)).unwrap();
    assert_eq!(img.raw_bytes(), vec![1u8, 2, 3, 4]);
}

#[test]
fn create_without_bytes_zero_fills() {
    let img = ImageBuffer::create(2, 3, PixelEncoding::U16, None).unwrap();
    assert_eq!(img.raw_bytes(), vec![0u8; 12]);
}

#[test]
fn raw_bytes_is_a_defensive_copy() {
    let img = ImageBuffer::create(1, 1, PixelEncoding::U8x4, Some(vec![5, 6, 7, 8])).unwrap();
    let mut first = img.raw_bytes();
    first[0] = 99;
    assert_eq!(img.raw_bytes(), vec![5, 6, 7, 8]);
}

#[test]
fn read_and_write_pixel_round_trip() {
    let mut img = ImageBuffer::create(3, 3, PixelEncoding::U8x2, None).unwrap();
    let v = img.write_view();
    img.write_pixel(&v, 2, 1, &vec![40u8, 41]);
    let r = img.read_view();
    assert_eq!(img.read_pixel(&r, 2, 1), vec![40u8, 41]);
    assert_eq!(img.read_pixel(&r, 0, 0), vec![0u8, 0]);
}

#[test]
fn read_row_follows_the_window() {
    let src = patterned(4, 4);
    let full = src.read_view();
    assert_eq!(
        src.read_row(&full, 0),
        vec![0, 0, 0, 7, 1, 0, 1, 7, 2, 0, 2, 7, 3, 0, 3, 7]
    );
    let inner = src
        .view_for(PixelEncoding::U8x4, Some(CropRect { left: 1, top: 1, width: 2, height: 2 }))
        .unwrap();
    assert_eq!(src.read_row(&inner, 0), vec![1, 1, 2, 7, 2, 1, 3, 7]);
    assert_eq!(src.read_row(&inner, 1), vec![1, 2, 3, 7, 2, 2, 4, 7]);
}

#[test]
fn view_for_wrong_encoding_fails() {
    let img = ImageBuffer::create(2, 2, PixelEncoding::U8x4, None).unwrap();
    assert_eq!(
        img.view_for(PixelEncoding::U8, None),
        Err(ImageError::EncodingMismatch)
    );
    assert_eq!(
        img.view_for(PixelEncoding::F32, None),
        Err(ImageError::EncodingMismatch)
    );
}

#[test]
fn view_for_crop_inside_narrows_iteration() {
    let img = ImageBuffer::create(4, 4, PixelEncoding::U8x4, None).unwrap();
    let rect = CropRect { left: 1, top: 2, width: 3, height: 2 };
    let v = img.view_for(PixelEncoding::U8x4, Some(rect)).unwrap();
    assert_eq!(v.rect, rect);
    assert_eq!(v.row_count(), 2);
    assert_eq!(v.row_len(), 3);
}

#[test]
fn view_for_crop_outside_fails() {
    let img = ImageBuffer::create(4, 4, PixelEncoding::U8x4, None).unwrap();
    // Partially outside.
    let partly = CropRect { left: 3, top: 0, width: 2, height: 2 };
    assert_eq!(
        img.view_for(PixelEncoding::U8x4, Some(partly)),
        Err(ImageError::InvalidCropBox)
    );
    // Fully outside: the window starts past the right edge.
    let fully = CropRect { left: 4, top: 4, width: 1, height: 1 };
    assert_eq!(
        img.view_for(PixelEncoding::U8x4, Some(fully)),
        Err(ImageError::InvalidCropBox)
    );
    // Empty.
    let empty = CropRect { left: 0, top: 0, width: 0, height: 2 };
    assert_eq!(
        img.view_for(PixelEncoding::U8x4, Some(empty)),
        Err(ImageError::InvalidCropBox)
    );
}

#[test]
fn copy_view_copies_exactly_the_cropped_rectangle() {
    // A 4x4 4-channel 8-bit source with a known pattern, cropped to the
    // inner 2x2, copied into a zero-filled destination of the same shape:
    // the inner 2x2 matches the source's cropped region, the border stays
    // zero-filled.
    let src = patterned(4, 4);
    let mut dst = ImageBuffer::create(4, 4, PixelEncoding::U8x4, None).unwrap();
    let inner = CropRect { left: 1, top: 1, width: 2, height: 2 };
    let sv = src.view_for(PixelEncoding::U8x4, Some(inner)).unwrap();
    let dv = dst.view_for(PixelEncoding::U8x4, Some(inner)).unwrap();
    ImageBuffer::copy_view(&src, &sv, &mut dst, &dv).unwrap();

    let rv = dst.read_view();
    for y in 0..4u32 {
        for x in 0..4u32 {
            let px = dst.read_pixel(&rv, x, y);
            if (1..3).contains(&x) && (1..3).contains(&y) {
                assert_eq!(px, vec![x as u8, y as u8, (x + y) as u8, 7]);
            } else {
                assert_eq!(px, vec![0u8, 0, 0, 0]);
            }
        }
    }
}

#[test]
fn copy_view_into_other_window() {
    // Copying the top-left 2x2 of the source into the bottom-right 2x2 of
    // the destination moves the pixels window-to-window.
    let src = patterned(4, 4);
    let mut dst = ImageBuffer::create(4, 4, PixelEncoding::U8x4, None).unwrap();
    let sv = src
        .view_for(PixelEncoding::U8x4, Some(CropRect { left: 0, top: 0, width: 2, height: 2 }))
        .unwrap();
    let dv = dst
        .view_for(PixelEncoding::U8x4, Some(CropRect { left: 2, top: 2, width: 2, height: 2 }))
        .unwrap();
    ImageBuffer::copy_view(&src, &sv, &mut dst, &dv).unwrap();
    let rv = dst.read_view();
    assert_eq!(dst.read_pixel(&rv, 2, 2), vec![0u8, 0, 0, 7]);
    assert_eq!(dst.read_pixel(&rv, 3, 3), vec![1u8, 1, 2, 7]);
    assert_eq!(dst.read_pixel(&rv, 1, 1), vec![0u8, 0, 0, 0]);
}

#[test]
fn copy_view_mismatched_windows_fail() {
    let src = ImageBuffer::create(4, 4, PixelEncoding::U8, None).unwrap();
    let mut dst = ImageBuffer::create(4, 4, PixelEncoding::U8, None).unwrap();
    let sv = src
        .view_for(PixelEncoding::U8, Some(CropRect { left: 0, top: 0, width: 2, height: 2 }))
        .unwrap();
    let dv = dst
        .view_for(PixelEncoding::U8, Some(CropRect { left: 0, top: 0, width: 3, height: 2 }))
        .unwrap();
    assert_eq!(
        ImageBuffer::copy_view(&src, &sv, &mut dst, &dv),
        Err(ImageError::InvalidDimension)
    );

    let mut dst4 = ImageBuffer::create(2, 2, PixelEncoding::U8x4, None).unwrap();
    let dv4 = dst4.view_for(PixelEncoding::U8x4, None).unwrap();
    assert_eq!(
        ImageBuffer::copy_view(&src, &sv, &mut dst4, &dv4),
        Err(ImageError::EncodingMismatch)
    );
}

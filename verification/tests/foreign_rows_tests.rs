use pixel_views::crop::CropRect;
use pixel_views::encoding::PixelEncoding;
use pixel_views::error::ImageError;
use pixel_views::foreign_rows::ForeignRowBuffer;

#[test]
fn new_validates_geometry_and_table() {
    assert!(matches!(
        ForeignRowBuffer::new(0, 2, PixelEncoding::U8, vec![1, 2]),
        Err(ImageError::InvalidDimension)
    ));
    assert!(matches!(
        ForeignRowBuffer::new(2, 0, PixelEncoding::U8, vec![1, 2]),
        Err(ImageError::InvalidDimension)
    ));
    assert!(matches!(
        ForeignRowBuffer::new(2, 3, PixelEncoding::U8, vec![1, 2]),
        Err(ImageError::BufferTooSmall)
    ));
    let b = ForeignRowBuffer::new(2, 2, PixelEncoding::U8, vec![1, 2, 3]).unwrap();
    assert_eq!(b.width(), 2);
    assert_eq!(b.height(), 2);
    assert_eq!(b.encoding(), PixelEncoding::U8);
}

#[test]
fn view_dispatch_matches_the_owned_buffer() {
    let b = ForeignRowBuffer::new(4, 4, PixelEncoding::I32, vec![10, 20, 30, 40]).unwrap();
    assert_eq!(
        b.view_for(PixelEncoding::U8x4, None),
        Err(ImageError::EncodingMismatch)
    );
    let full = b.view_for(PixelEncoding::I32, None).unwrap();
    assert_eq!(full.row_count(), 4);
    assert_eq!(full.row_len(), 4);
    assert_eq!(
        b.view_for(
            PixelEncoding::I32,
            Some(CropRect { left: 2, top: 2, width: 3, height: 1 })
        ),
        Err(ImageError::InvalidCropBox)
    );
}

#[test]
fn row_addresses_follow_the_crop_window() {
    let b = ForeignRowBuffer::new(4, 4, PixelEncoding::U8, vec![100, 200, 300, 400]).unwrap();
    let v = b
        .view_for(
            PixelEncoding::U8,
            Some(CropRect { left: 1, top: 1, width: 2, height: 2 }),
        )
        .unwrap();
    assert_eq!(b.row_address(&v, 0), 200);
    assert_eq!(b.row_address(&v, 1), 300);
    let full = b.view_for(PixelEncoding::U8, None).unwrap();
    assert_eq!(b.row_address(&full, 3), 400);
}

#[test]
fn excess_row_addresses_are_ignored() {
    let b = ForeignRowBuffer::new(1, 2, PixelEncoding::U8, vec![7, 8, 99, 100]).unwrap();
    let v = b.view_for(PixelEncoding::U8, None).unwrap();
    assert_eq!(b.row_address(&v, 0), 7);
    assert_eq!(b.row_address(&v, 1), 8);
}

use pixel_views::bridge::{
    encoding_for_mode, is_rgb_family, layout_for_version, mode_tag_bytes, tag_after, tag_of_mode,
    AlphaModeTag, AlphaOp, ForeignLayout, ForeignObjectHandle,
};
use pixel_views::crop::CropRect;
use pixel_views::encoding::PixelEncoding;
use pixel_views::error::ImageError;

fn named_table() -> Vec<(Vec<u8>, u64)> {
    vec![
        (b"image32".to_vec(), 7700),
        (b"image8".to_vec(), 5500),
        (b"unsafe_ptrs".to_vec(), 1),
    ]
}

#[test]
fn mode_mapping_covers_the_supported_set() {
    for mode in [&b"RGB"[..], b"RGBA", b"RGBa", b"CMYK", b"YCbCr", b"Lab"] {
        assert_eq!(encoding_for_mode(mode), Ok(PixelEncoding::U8x4));
    }
    assert_eq!(encoding_for_mode(b"I"), Ok(PixelEncoding::I32));
    assert_eq!(encoding_for_mode(b"F"), Ok(PixelEncoding::F32));
    assert_eq!(encoding_for_mode(b"L"), Ok(PixelEncoding::U8));
}

#[test]
fn unknown_mode_is_rejected() {
    assert_eq!(encoding_for_mode(b"P"), Err(ImageError::UnsupportedMode));
    assert_eq!(encoding_for_mode(b"1"), Err(ImageError::UnsupportedMode));
    assert_eq!(encoding_for_mode(b""), Err(ImageError::UnsupportedMode));
    assert_eq!(encoding_for_mode(b"rgb"), Err(ImageError::UnsupportedMode));
}

#[test]
fn open_from_pointer_table_picks_the_right_table() {
    let h = ForeignObjectHandle::open_from_pointer_table(b"RGB", 6, 4, 10, &named_table()).unwrap();
    assert_eq!(h.row_table_address(), Ok(7700));
    assert_eq!(h.encoding(), PixelEncoding::U8x4);
    assert_eq!(h.width(), 6);
    assert_eq!(h.height(), 4);
    assert_eq!(h.major_version(), 10);
    assert_eq!(h.layout(), ForeignLayout::NamedPointerTable);

    let h8 = ForeignObjectHandle::open_from_pointer_table(b"L", 6, 4, 10, &named_table()).unwrap();
    assert_eq!(h8.row_table_address(), Ok(5500));
}

#[test]
fn open_from_pointer_table_takes_the_first_match() {
    let table = vec![
        (b"image32".to_vec(), 111u64),
        (b"image32".to_vec(), 222u64),
    ];
    let h = ForeignObjectHandle::open_from_pointer_table(b"RGB", 2, 2, 10, &table).unwrap();
    assert_eq!(h.row_table_address(), Ok(111));
}

#[test]
fn open_from_pointer_table_failures() {
    assert!(matches!(
        ForeignObjectHandle::open_from_pointer_table(b"P", 6, 4, 10, &named_table()),
        Err(ImageError::UnsupportedMode)
    ));
    assert!(matches!(
        ForeignObjectHandle::open_from_pointer_table(b"RGB", 0, 4, 10, &named_table()),
        Err(ImageError::InvalidDimension)
    ));
    let no_tables = vec![(b"unsafe_ptrs".to_vec(), 1u64)];
    assert!(matches!(
        ForeignObjectHandle::open_from_pointer_table(b"RGB", 6, 4, 10, &no_tables),
        Err(ImageError::InteropError)
    ));
}

#[test]
fn open_from_capsule_picks_the_right_table() {
    let h = ForeignObjectHandle::open_from_capsule(b"L", 2, 2, 11, Some((500, 900))).unwrap();
    assert_eq!(h.row_table_address(), Ok(500));
    assert_eq!(h.layout(), ForeignLayout::VersionedCapsule);
    let h32 = ForeignObjectHandle::open_from_capsule(b"I", 2, 2, 11, Some((500, 900))).unwrap();
    assert_eq!(h32.row_table_address(), Ok(900));
}

#[test]
fn open_from_capsule_failures() {
    assert!(matches!(
        ForeignObjectHandle::open_from_capsule(b"L", 2, 2, 11, None),
        Err(ImageError::InteropError)
    ));
    assert!(matches!(
        ForeignObjectHandle::open_from_capsule(b"P", 2, 2, 11, Some((500, 900))),
        Err(ImageError::UnsupportedMode)
    ));
}

#[test]
fn open_from_capsule_accepts_zero_extents() {
    // The foreign library allows zero-size images; the capsule convention
    // builds the handle for them and every later operation is a no-op.
    let h = ForeignObjectHandle::open_from_capsule(b"L", 2, 0, 11, Some((500, 900))).unwrap();
    assert_eq!(h.width(), 2);
    assert_eq!(h.height(), 0);
    assert!(h.is_attached());
    assert_eq!(h.row_table_address(), Ok(500));
}

#[test]
fn detached_handle_fails_every_read_and_ignores_writes() {
    let mut h = ForeignObjectHandle::open_from_capsule(b"RGBA", 3, 3, 11, Some((1, 2))).unwrap();
    assert!(h.is_attached());
    assert!(h.view_for(PixelEncoding::U8x4, None).is_ok());

    h.detach();
    assert!(!h.is_attached());
    assert_eq!(
        h.view_for(PixelEncoding::U8x4, None),
        Err(ImageError::HandleDetached)
    );
    assert_eq!(
        h.view_for(
            PixelEncoding::U8x4,
            Some(CropRect { left: 0, top: 0, width: 1, height: 1 })
        ),
        Err(ImageError::HandleDetached)
    );
    assert_eq!(h.row_table_address(), Err(ImageError::HandleDetached));
    assert_eq!(
        h.interpret_mode_tag(Some(&b"RGBA\0\0\0".to_vec())),
        Err(ImageError::UnknownMode)
    );
    // A tag write on a detached handle is a no-op, not an error or a panic.
    assert_eq!(h.write_mode_tag(AlphaModeTag::Premultiplied), None);
}

#[test]
fn handle_view_dispatch_matches_other_buffer_kinds() {
    let h = ForeignObjectHandle::open_from_capsule(b"RGB", 4, 4, 11, Some((1, 2))).unwrap();
    assert_eq!(
        h.view_for(PixelEncoding::U8, None),
        Err(ImageError::EncodingMismatch)
    );
    let v = h
        .view_for(
            PixelEncoding::U8x4,
            Some(CropRect { left: 1, top: 1, width: 2, height: 2 })
        )
        .unwrap();
    assert_eq!(v.row_count(), 2);
    assert_eq!(v.row_len(), 2);
    assert_eq!(
        h.view_for(
            PixelEncoding::U8x4,
            Some(CropRect { left: 3, top: 3, width: 2, height: 2 })
        ),
        Err(ImageError::InvalidCropBox)
    );
}

#[test]
fn unreadable_descriptor_reports_unknown_mode() {
    let h = ForeignObjectHandle::open_from_capsule(b"RGB", 4, 4, 11, Some((1, 2))).unwrap();
    assert_eq!(h.interpret_mode_tag(None), Err(ImageError::UnknownMode));
    assert_eq!(
        h.interpret_mode_tag(Some(&b"RGBA\0\0\0".to_vec())),
        Ok(true)
    );
    assert_eq!(h.interpret_mode_tag(Some(&b"CMYK\0\0\0".to_vec())), Ok(false));
}

#[test]
fn mode_tag_write_then_read_round_trips() {
    let h = ForeignObjectHandle::open_from_capsule(b"RGBa", 2, 2, 11, Some((1, 2))).unwrap();

    // Multiply: the premultiplied tag goes in and reads back as such.
    let written = h.write_mode_tag(AlphaModeTag::Premultiplied).unwrap();
    assert_eq!(written, b"RGBa\0\0\0".to_vec());
    assert_eq!(tag_of_mode(&written), Some(AlphaModeTag::Premultiplied));
    assert_eq!(h.interpret_mode_tag(Some(&written)), Ok(true));

    // Divide: the straight tag goes in and reads back as such.
    let written = h.write_mode_tag(AlphaModeTag::NotPremultiplied).unwrap();
    assert_eq!(written, b"RGBA\0\0\0".to_vec());
    assert_eq!(tag_of_mode(&written), Some(AlphaModeTag::NotPremultiplied));
    assert_eq!(h.interpret_mode_tag(Some(&written)), Ok(true));

    assert_eq!(tag_of_mode(b"CMYK\0\0\0"), None);
}

#[test]
fn alpha_ops_pick_their_tags() {
    assert_eq!(tag_after(AlphaOp::Multiply), AlphaModeTag::Premultiplied);
    assert_eq!(tag_after(AlphaOp::Divide), AlphaModeTag::NotPremultiplied);
    assert_eq!(
        tag_of_mode(&mode_tag_bytes(tag_after(AlphaOp::Multiply))),
        Some(AlphaModeTag::Premultiplied)
    );
}

#[test]
fn rgb_family_test_reads_prefixes() {
    assert!(is_rgb_family(b"RGB\0\0\0\0"));
    assert!(is_rgb_family(b"RGBA\0\0\0"));
    assert!(is_rgb_family(b"RGBa\0\0\0"));
    assert!(!is_rgb_family(b"CMYK\0\0\0"));
    assert!(!is_rgb_family(b"L\0"));
}

#[test]
fn layout_follows_the_major_version() {
    assert_eq!(layout_for_version(1), ForeignLayout::NamedPointerTable);
    assert_eq!(layout_for_version(10), ForeignLayout::NamedPointerTable);
    assert_eq!(layout_for_version(11), ForeignLayout::VersionedCapsule);
    assert_eq!(layout_for_version(12), ForeignLayout::VersionedCapsule);
}

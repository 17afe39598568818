use pixel_views::crop::CropRect;
use pixel_views::encoding::{encoding_from_code, encoding_to_code, PixelEncoding};
use pixel_views::settings::{
    alg_from_codes, alg_to_codes, cpu_level_from_code, cpu_level_to_code, filter_from_code,
    filter_to_code, CpuLevel, FilterKind, ResizeAlgChoice, ResizeSettings,
};

const ALL_ENCODINGS: [PixelEncoding; 13] = [
    PixelEncoding::U8,
    PixelEncoding::U8x2,
    PixelEncoding::U8x3,
    PixelEncoding::U8x4,
    PixelEncoding::U16,
    PixelEncoding::U16x2,
    PixelEncoding::U16x3,
    PixelEncoding::U16x4,
    PixelEncoding::I32,
    PixelEncoding::F32,
    PixelEncoding::F32x2,
    PixelEncoding::F32x3,
    PixelEncoding::F32x4,
];

#[test]
fn encoding_codes_round_trip() {
    for (i, e) in ALL_ENCODINGS.iter().enumerate() {
        assert_eq!(encoding_to_code(*e), (i + 1) as u8);
        assert_eq!(encoding_from_code((i + 1) as u8), *e);
    }
}

#[test]
fn unknown_encoding_codes_default() {
    assert_eq!(encoding_from_code(0), PixelEncoding::U8x4);
    assert_eq!(encoding_from_code(14), PixelEncoding::U8x4);
    assert_eq!(encoding_from_code(255), PixelEncoding::U8x4);
}

#[test]
fn byte_widths_are_exact() {
    let widths = [1usize, 2, 3, 4, 2, 4, 6, 8, 4, 4, 8, 12, 16];
    for (e, w) in ALL_ENCODINGS.iter().zip(widths.iter()) {
        assert_eq!(e.byte_width(), *w);
    }
    let channels = [1usize, 2, 3, 4, 1, 2, 3, 4, 1, 1, 2, 3, 4];
    for (e, c) in ALL_ENCODINGS.iter().zip(channels.iter()) {
        assert_eq!(e.channels(), *c);
    }
}

#[test]
fn filter_codes_round_trip() {
    let filters = [
        FilterKind::Box,
        FilterKind::Bilinear,
        FilterKind::CatmullRom,
        FilterKind::Mitchell,
        FilterKind::Lanczos3,
        FilterKind::Gaussian,
    ];
    for (i, f) in filters.iter().enumerate() {
        assert_eq!(filter_to_code(*f), (i + 1) as u8);
        assert_eq!(filter_from_code((i + 1) as u8), *f);
    }
    assert_eq!(filter_from_code(0), FilterKind::Box);
    assert_eq!(filter_from_code(9), FilterKind::Box);
}

#[test]
fn algorithm_codes_round_trip() {
    assert_eq!(alg_to_codes(ResizeAlgChoice::Nearest), (1, 0, 2));
    assert_eq!(
        alg_to_codes(ResizeAlgChoice::Convolution(FilterKind::Lanczos3)),
        (2, 5, 2)
    );
    assert_eq!(
        alg_to_codes(ResizeAlgChoice::SuperSampling(FilterKind::Mitchell, 7)),
        (3, 4, 7)
    );
    assert_eq!(alg_from_codes(1, 3, 9), ResizeAlgChoice::Nearest);
    assert_eq!(
        alg_from_codes(2, 6, 2),
        ResizeAlgChoice::Convolution(FilterKind::Gaussian)
    );
    assert_eq!(
        alg_from_codes(3, 2, 4),
        ResizeAlgChoice::SuperSampling(FilterKind::Bilinear, 4)
    );
    assert_eq!(alg_from_codes(0, 0, 0), ResizeAlgChoice::Nearest);
    assert_eq!(alg_from_codes(9, 1, 1), ResizeAlgChoice::Nearest);
}

#[test]
fn settings_defaults_match_the_engine() {
    let s = ResizeSettings::new();
    assert_eq!(s.get_resize_alg(), (2, 5, 2));
    assert_eq!(s.get_crop_box(), None);
    assert!(s.get_use_alpha());
}

#[test]
fn settings_builders_replace_one_field_at_a_time() {
    let s = ResizeSettings::new()
        .set_resize_alg(3, 1, 4)
        .set_crop_box(1, 2, 3, 4)
        .set_use_alpha(false);
    assert_eq!(s.get_resize_alg(), (3, 1, 4));
    assert_eq!(
        s.get_crop_box(),
        Some(CropRect { left: 1, top: 2, width: 3, height: 4 })
    );
    assert!(!s.get_use_alpha());
    let copy = s.copy();
    assert_eq!(copy, s);
}

#[test]
fn cpu_level_codes_round_trip() {
    let levels = [CpuLevel::Scalar, CpuLevel::Sse41, CpuLevel::Avx2, CpuLevel::Neon];
    for (i, l) in levels.iter().enumerate() {
        assert_eq!(cpu_level_to_code(*l), (i + 1) as u8);
        assert_eq!(cpu_level_from_code((i + 1) as u8), *l);
    }
    assert_eq!(cpu_level_from_code(0), CpuLevel::Auto);
    assert_eq!(cpu_level_from_code(200), CpuLevel::Auto);
    assert_eq!(cpu_level_to_code(CpuLevel::Auto), 0);
}

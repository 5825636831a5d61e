use direct2d::enums::{
    AntialiasMode, BitmapInterpolationMode, CheckedEnum, DrawTextOptions, UncheckedEnum,
};

#[test]
fn antialias_mode_raw_values() {
    assert_eq!(AntialiasMode::PerPrimitive.to_u32(), 0);
    assert_eq!(AntialiasMode::Aliased.to_u32(), 1);
    assert_eq!(AntialiasMode::from_u32(0), Some(AntialiasMode::PerPrimitive));
    assert_eq!(AntialiasMode::from_u32(1), Some(AntialiasMode::Aliased));
    assert_eq!(AntialiasMode::from_u32(2), None);
    assert_eq!(AntialiasMode::from_u32(u32::MAX), None);
}

#[test]
fn interpolation_mode_raw_values() {
    assert_eq!(BitmapInterpolationMode::NearestNeighbor.to_u32(), 0);
    assert_eq!(BitmapInterpolationMode::Linear.to_u32(), 1);
    assert_eq!(BitmapInterpolationMode::from_u32(0), Some(BitmapInterpolationMode::NearestNeighbor));
    assert_eq!(BitmapInterpolationMode::from_u32(1), Some(BitmapInterpolationMode::Linear));
    assert_eq!(BitmapInterpolationMode::from_u32(7), None);
}

#[test]
fn enum_round_trip() {
    for m in [AntialiasMode::PerPrimitive, AntialiasMode::Aliased] {
        assert_eq!(<AntialiasMode as CheckedEnum>::from_u32(CheckedEnum::to_u32(m)), Some(m));
    }
    for m in [BitmapInterpolationMode::NearestNeighbor, BitmapInterpolationMode::Linear] {
        assert_eq!(BitmapInterpolationMode::from_u32(m.to_u32()), Some(m));
    }
}

#[test]
fn unchecked_enum_decodes() {
    let known: UncheckedEnum<AntialiasMode> = UncheckedEnum::new(1);
    assert_eq!(known.value, 1);
    assert_eq!(known.as_enum(), Some(AntialiasMode::Aliased));
    let unknown: UncheckedEnum<AntialiasMode> = UncheckedEnum::new(9);
    assert_eq!(unknown.as_enum(), None);
}

#[test]
fn draw_text_options_values() {
    assert_eq!(DrawTextOptions::none().0, 0);
    assert_eq!(DrawTextOptions::no_snap().0, 1);
    assert_eq!(DrawTextOptions::clip().0, 2);
    assert_eq!(DrawTextOptions::enable_color_font().0, 4);
}

#[test]
fn draw_text_options_is_set() {
    let both = DrawTextOptions::no_snap() | DrawTextOptions::clip();
    assert_eq!(both.0, 3);
    assert!(both.is_set(DrawTextOptions::no_snap()));
    assert!(both.is_set(DrawTextOptions::clip()));
    assert!(!both.is_set(DrawTextOptions::enable_color_font()));
    assert!(both.is_set(DrawTextOptions::none()));
    assert!(DrawTextOptions::none().is_set(DrawTextOptions::none()));
}

#[test]
fn draw_text_options_clear() {
    let mut x = DrawTextOptions(7);
    x.clear(DrawTextOptions::clip());
    assert_eq!(x.0, 5);
    assert!(!x.is_set(DrawTextOptions::clip()));
    assert!(x.is_set(DrawTextOptions::no_snap()));
    assert!(x.is_set(DrawTextOptions::enable_color_font()));
    x.clear(DrawTextOptions::none());
    assert_eq!(x.0, 5);
}

#[test]
fn draw_text_options_validate() {
    assert!(DrawTextOptions::none().validate());
    assert!(DrawTextOptions(7).validate());
    assert!(!DrawTextOptions(8).validate());
    assert!(!DrawTextOptions(0x8000_0001).validate());
    assert!(!(!DrawTextOptions::clip()).validate());
}

#[test]
fn draw_text_options_operators() {
    let a = DrawTextOptions(5);
    let b = DrawTextOptions(3);
    assert_eq!((a & b).0, 1);
    assert_eq!((a | b).0, 7);
    assert_eq!((a ^ b).0, 6);
    assert_eq!((!a).0, !5u32);
    assert!(!!a == a);
    let mut c = a;
    c &= b;
    assert_eq!(c.0, 1);
    c |= DrawTextOptions(4);
    assert_eq!(c.0, 5);
    c ^= DrawTextOptions(1);
    assert_eq!(c.0, 4);
}

#[test]
fn draw_text_options_debug_text() {
    assert_eq!(DrawTextOptions::none().debug_string(), "DrawTextOptions(NONE)");
    assert_eq!(DrawTextOptions::clip().debug_string(), "DrawTextOptions(CLIP)");
    assert_eq!(
        (DrawTextOptions::no_snap() | DrawTextOptions::clip()).debug_string(),
        "DrawTextOptions(NO_SNAP | CLIP)"
    );
    assert_eq!(
        DrawTextOptions(7).debug_string(),
        "DrawTextOptions(NO_SNAP | CLIP | ENABLE_COLOR_FONT)"
    );
    assert_eq!(DrawTextOptions(8).debug_string(), "DrawTextOptions(NONE)");
    assert_eq!(DrawTextOptions(12).debug_string(), "DrawTextOptions(ENABLE_COLOR_FONT)");
}

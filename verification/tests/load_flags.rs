use freetype::load_flag::{LoadFlag, ALL_LOAD_BITS};
use freetype_sys as ffi;

#[test]
fn named_flags_have_freetypes_bits() {
    assert_eq!(LoadFlag::DEFAULT().bits(), 0);
    assert_eq!(LoadFlag::NO_SCALE().bits(), 1);
    assert_eq!(LoadFlag::NO_HINTING().bits(), 2);
    assert_eq!(LoadFlag::RENDER().bits(), 4);
    assert_eq!(LoadFlag::NO_BITMAP().bits(), 8);
    assert_eq!(LoadFlag::VERTICAL_LAYOUT().bits(), 0x10);
    assert_eq!(LoadFlag::FORCE_AUTOHINT().bits(), 0x20);
    assert_eq!(LoadFlag::CROP_BITMAP().bits(), 0x40);
    assert_eq!(LoadFlag::PEDANTIC().bits(), 0x80);
    assert_eq!(LoadFlag::IGNORE_GLOBAL_ADVANCE_WITH().bits(), 0x200);
    assert_eq!(LoadFlag::NO_RECURSE().bits(), 0x400);
    assert_eq!(LoadFlag::IGNORE_TRANSFORM().bits(), 0x800);
    assert_eq!(LoadFlag::MONOCHROME().bits(), 0x1000);
    assert_eq!(LoadFlag::LINEAR_DESIGN().bits(), 0x2000);
    assert_eq!(LoadFlag::NO_AUTOHINT().bits(), 0x8000);
    assert_eq!(LoadFlag::TARGET_NORMAL().bits(), 0);
    assert_eq!(LoadFlag::TARGET_LIGHT().bits(), 0x1_0000);
    assert_eq!(LoadFlag::TARGET_MONO().bits(), 0x2_0000);
    assert_eq!(LoadFlag::TARGET_LCD().bits(), 0x3_0000);
    assert_eq!(LoadFlag::TARGET_LCD_V().bits(), 0x4_0000);
    assert_eq!(LoadFlag::COLOR().bits(), 0x10_0000);
}

#[test]
fn named_flags_match_freetype_sys() {
    assert_eq!(LoadFlag::DEFAULT().bits(), ffi::FT_LOAD_DEFAULT);
    assert_eq!(LoadFlag::NO_SCALE().bits(), ffi::FT_LOAD_NO_SCALE);
    assert_eq!(LoadFlag::NO_HINTING().bits(), ffi::FT_LOAD_NO_HINTING);
    assert_eq!(LoadFlag::RENDER().bits(), ffi::FT_LOAD_RENDER);
    assert_eq!(LoadFlag::NO_BITMAP().bits(), ffi::FT_LOAD_NO_BITMAP);
    assert_eq!(LoadFlag::VERTICAL_LAYOUT().bits(), ffi::FT_LOAD_VERTICAL_LAYOUT);
    assert_eq!(LoadFlag::FORCE_AUTOHINT().bits(), ffi::FT_LOAD_FORCE_AUTOHINT);
    assert_eq!(LoadFlag::CROP_BITMAP().bits(), ffi::FT_LOAD_CROP_BITMAP);
    assert_eq!(LoadFlag::PEDANTIC().bits(), ffi::FT_LOAD_PEDANTIC);
    assert_eq!(
        LoadFlag::IGNORE_GLOBAL_ADVANCE_WITH().bits(),
        ffi::FT_LOAD_IGNORE_GLOBAL_ADVANCE_WIDTH
    );
    assert_eq!(LoadFlag::NO_RECURSE().bits(), ffi::FT_LOAD_NO_RECURSE);
    assert_eq!(LoadFlag::IGNORE_TRANSFORM().bits(), ffi::FT_LOAD_IGNORE_TRANSFORM);
    assert_eq!(LoadFlag::MONOCHROME().bits(), ffi::FT_LOAD_MONOCHROME);
    assert_eq!(LoadFlag::LINEAR_DESIGN().bits(), ffi::FT_LOAD_LINEAR_DESIGN);
    assert_eq!(LoadFlag::NO_AUTOHINT().bits(), ffi::FT_LOAD_NO_AUTOHINT);
    assert_eq!(LoadFlag::TARGET_NORMAL().bits(), ffi::FT_LOAD_TARGET_NORMAL);
    assert_eq!(LoadFlag::TARGET_LIGHT().bits(), ffi::FT_LOAD_TARGET_LIGHT);
    assert_eq!(LoadFlag::TARGET_MONO().bits(), ffi::FT_LOAD_TARGET_MONO);
    assert_eq!(LoadFlag::TARGET_LCD().bits(), ffi::FT_LOAD_TARGET_LCD);
    assert_eq!(LoadFlag::TARGET_LCD_V().bits(), ffi::FT_LOAD_TARGET_LCD_V);
    assert_eq!(LoadFlag::COLOR().bits(), ffi::FT_LOAD_COLOR);
}

#[test]
fn all_is_the_union_of_every_named_flag() {
    let every = [
        LoadFlag::NO_SCALE(), LoadFlag::NO_HINTING(), LoadFlag::RENDER(),
        LoadFlag::NO_BITMAP(), LoadFlag::VERTICAL_LAYOUT(), LoadFlag::FORCE_AUTOHINT(),
        LoadFlag::CROP_BITMAP(), LoadFlag::PEDANTIC(), LoadFlag::IGNORE_GLOBAL_ADVANCE_WITH(),
        LoadFlag::NO_RECURSE(), LoadFlag::IGNORE_TRANSFORM(), LoadFlag::MONOCHROME(),
        LoadFlag::LINEAR_DESIGN(), LoadFlag::NO_AUTOHINT(), LoadFlag::TARGET_LIGHT(),
        LoadFlag::TARGET_MONO(), LoadFlag::TARGET_LCD(), LoadFlag::TARGET_LCD_V(),
        LoadFlag::COLOR(),
    ];
    let mut u = LoadFlag::empty();
    for f in every {
        u = u.union(f);
    }
    assert_eq!(u, LoadFlag::all());
    assert_eq!(u.bits(), ALL_LOAD_BITS);
    assert!(u.is_all());
    assert_eq!(ALL_LOAD_BITS, 0x17_beff);
}

#[test]
fn from_bits_refuses_unknown_bits() {
    assert_eq!(from_bits_value(0x4 | 0x2), Some(0x6));
    assert_eq!(from_bits_value(0x100), None);
    assert_eq!(from_bits_value(0x4000), None);
    assert_eq!(from_bits_value(0x8_0000), None);
    assert_eq!(from_bits_value(-1), None);
    assert_eq!(LoadFlag::from_bits_truncate(-1).bits(), ALL_LOAD_BITS);
    assert_eq!(LoadFlag::from_bits_truncate(0x104).bits(), 0x4);
}

fn from_bits_value(b: i32) -> Option<i32> {
    LoadFlag::from_bits(b).map(|f| f.bits())
}

#[test]
fn insert_then_contains() {
    let mut f = LoadFlag::RENDER();
    f.insert(LoadFlag::NO_HINTING());
    assert!(f.contains(LoadFlag::NO_HINTING()));
    assert!(f.contains(LoadFlag::RENDER()));
    assert_eq!(f.bits(), 6);
}

#[test]
fn remove_clears_only_what_was_removed() {
    let mut f = LoadFlag::RENDER().union(LoadFlag::NO_HINTING()).union(LoadFlag::COLOR());
    f.remove(LoadFlag::NO_HINTING());
    assert!(!f.intersects(LoadFlag::NO_HINTING()));
    assert!(f.contains(LoadFlag::RENDER()));
    assert!(f.contains(LoadFlag::COLOR()));
    assert_eq!(f.bits(), 0x10_0004);
}

#[test]
fn union_commutes_and_keeps_empty_neutral() {
    let a = LoadFlag::TARGET_MONO();
    let b = LoadFlag::PEDANTIC();
    assert_eq!(a.union(b), b.union(a));
    assert_eq!(a.union(LoadFlag::empty()), a);
    assert!(LoadFlag::empty().is_empty());
    assert!(LoadFlag::DEFAULT().is_empty());
}

#[test]
fn intersection_and_difference() {
    let a = LoadFlag::RENDER().union(LoadFlag::NO_SCALE());
    let b = LoadFlag::RENDER().union(LoadFlag::COLOR());
    assert_eq!(a.intersection(b).bits(), 4);
    assert_eq!(a.difference(b).bits(), 1);
    assert!(!LoadFlag::RENDER().intersects(LoadFlag::NO_SCALE()));
}

#[test]
fn flags_are_their_bits() {
    let f = LoadFlag::TARGET_LCD().union(LoadFlag::RENDER());
    assert_eq!(LoadFlag::from_bits(f.bits()), Some(f));
}

#[test]
fn targets_overlap_bitwise() {
    // The render targets share one field, so LCD (3) contains LIGHT (1) and MONO (2).
    assert!(LoadFlag::TARGET_LCD().contains(LoadFlag::TARGET_LIGHT()));
    assert!(LoadFlag::TARGET_LCD().contains(LoadFlag::TARGET_MONO()));
    assert!(!LoadFlag::TARGET_LCD_V().intersects(LoadFlag::TARGET_LCD()));
    assert!(LoadFlag::RENDER().contains(LoadFlag::DEFAULT()));
}

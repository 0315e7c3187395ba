use freetype::face::KerningMode;
use freetype::library::LcdFilter;
use freetype::render_mode::RenderMode;
use freetype_sys as ffi;

#[test]
fn kerning_modes_have_freetypes_numbers() {
    assert_eq!(KerningMode::KerningDefault.value(), ffi::FT_KERNING_DEFAULT);
    assert_eq!(KerningMode::KerningUnfitted.value(), ffi::FT_KERNING_UNFITTED);
    assert_eq!(KerningMode::KerningUnscaled.value(), ffi::FT_KERNING_UNSCALED);
}

#[test]
fn render_modes_have_freetypes_numbers() {
    assert_eq!(RenderMode::Normal.value(), ffi::FT_RENDER_MODE_NORMAL);
    assert_eq!(RenderMode::Light.value(), ffi::FT_RENDER_MODE_LIGHT);
    assert_eq!(RenderMode::Mono.value(), ffi::FT_RENDER_MODE_MONO);
    assert_eq!(RenderMode::Lcd.value(), ffi::FT_RENDER_MODE_LCD);
    assert_eq!(RenderMode::LcdV.value(), ffi::FT_RENDER_MODE_LCD_V);
    assert_eq!(RenderMode::Sdf.value(), ffi::FT_RENDER_MODE_SDF);
}

#[test]
fn lcd_filters_have_freetypes_numbers() {
    assert_eq!(LcdFilter::LcdFilterNone.value(), ffi::FT_LCD_FILTER_NONE);
    assert_eq!(LcdFilter::LcdFilterDefault.value(), ffi::FT_LCD_FILTER_DEFAULT);
    // FreeType's ftlcdfil.h numbers the light filter 2.
    assert_eq!(LcdFilter::LcdFilterLight.value(), 2);
    assert_eq!(LcdFilter::LcdFilterLegacy.value(), ffi::FT_LCD_FILTER_LEGACY);
}

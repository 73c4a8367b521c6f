//! Locale normalization.

use window_sizing::locale::normalize_locale;

#[test]
fn region_suffix_is_dropped() {
    assert_eq!(normalize_locale("en-US"), "en");
    assert_eq!(normalize_locale("es_ES"), "es");
    assert_eq!(normalize_locale("zh-Hans-CN"), "zh");
}

#[test]
fn case_is_folded() {
    assert_eq!(normalize_locale("EN-US"), "en");
    assert_eq!(normalize_locale("Fr"), "fr");
}

#[test]
fn bare_codes_pass_through() {
    assert_eq!(normalize_locale("de"), "de");
    assert_eq!(normalize_locale(""), "");
}

//! Scale resolution and decimal parsing.

use window_sizing::decimal::parse_positive_decimal;
use window_sizing::decimal::scale_dim;
use window_sizing::decimal::ScaleFactor;
use window_sizing::scale::resolve_scale;
use window_sizing::scale::scale_from_monitors_xml;
use window_sizing::scale::scale_from_settings_output;

fn parts(f: ScaleFactor) -> (u64, u64) {
    (f.num, f.den)
}

#[test]
fn file_factor_wins() {
    let f = resolve_scale("linux", Some("<scale>1.5</scale>"), Some("uint32 3"));
    assert_eq!(parts(f), (15, 10));
}

#[test]
fn settings_factor_when_no_file() {
    let f = resolve_scale("linux", None, Some("uint32 2"));
    assert_eq!(parts(f), (2, 1));
}

#[test]
fn identity_when_both_fail() {
    assert_eq!(parts(resolve_scale("linux", None, None)), (1, 1));
    assert_eq!(parts(resolve_scale("linux", Some("garbage"), Some("garbage"))), (1, 1));
}

#[test]
fn identity_off_linux() {
    assert_eq!(parts(resolve_scale("macos", Some("<scale>2</scale>"), None)), (1, 1));
    assert_eq!(parts(resolve_scale("windows", None, Some("uint32 2"))), (1, 1));
    assert_eq!(parts(resolve_scale("haiku", Some("<scale>2</scale>"), None)), (1, 1));
}

#[test]
fn sub_unity_factor_is_captured() {
    // The file's value is kept even below one; only the caller's
    // "apply if above one" rule ignores it.
    let f = resolve_scale("linux", Some("<scale>0.5</scale>"), Some("uint32 2"));
    assert_eq!(parts(f), (5, 10));
}

#[test]
fn monitors_xml_parsing() {
    assert_eq!(scale_from_monitors_xml("<scale>2</scale>").map(parts), Some((2, 1)));
    assert_eq!(
        scale_from_monitors_xml("<monitors><scale> 1.75 </scale></monitors>").map(parts),
        Some((175, 100))
    );
    assert_eq!(scale_from_monitors_xml("<scale>1.5").map(parts), None);
    assert_eq!(scale_from_monitors_xml("</scale>1.5<scale>").map(parts), None);
    assert_eq!(scale_from_monitors_xml("<scale></scale>").map(parts), None);
    assert_eq!(scale_from_monitors_xml("<scale>abc</scale><scale>2</scale>").map(parts), None);
    assert_eq!(scale_from_monitors_xml("").map(parts), None);
}

#[test]
fn settings_output_parsing() {
    assert_eq!(scale_from_settings_output("uint32 2").map(parts), Some((2, 1)));
    assert_eq!(scale_from_settings_output(" uint32 2\n").map(parts), Some((2, 1)));
    assert_eq!(scale_from_settings_output("2").map(parts), Some((2, 1)));
    assert_eq!(scale_from_settings_output("uint32 0").map(parts), None);
    assert_eq!(scale_from_settings_output("uint32").map(parts), None);
    assert_eq!(scale_from_settings_output("").map(parts), None);
}

#[test]
fn decimal_forms() {
    assert_eq!(parse_positive_decimal("2").map(parts), Some((2, 1)));
    assert_eq!(parse_positive_decimal("1.5").map(parts), Some((15, 10)));
    assert_eq!(parse_positive_decimal(".5").map(parts), Some((5, 10)));
    assert_eq!(parse_positive_decimal("5.").map(parts), Some((5, 1)));
    assert_eq!(parse_positive_decimal("0.50").map(parts), Some((50, 100)));
    assert_eq!(
        parse_positive_decimal("1.7487922906875610").map(parts),
        Some((17487922906875610, 10000000000000000))
    );
    assert_eq!(parse_positive_decimal("0").map(parts), None);
    assert_eq!(parse_positive_decimal("0.0").map(parts), None);
    assert_eq!(parse_positive_decimal("-1.5").map(parts), None);
    assert_eq!(parse_positive_decimal("+1.5").map(parts), None);
    assert_eq!(parse_positive_decimal("1.5.2").map(parts), None);
    assert_eq!(parse_positive_decimal(".").map(parts), None);
    assert_eq!(parse_positive_decimal("").map(parts), None);
    assert_eq!(parse_positive_decimal("1e3").map(parts), None);
    // more than eighteen digits in all
    assert_eq!(parse_positive_decimal("1234567890123456789").map(parts), None);
}

#[test]
fn scaling_is_exact_and_capped() {
    assert_eq!(scale_dim(342, ScaleFactor { num: 2, den: 1 }), 684);
    assert_eq!(scale_dim(342, ScaleFactor { num: 15, den: 10 }), 513);
    // truncation toward zero
    assert_eq!(scale_dim(569, ScaleFactor { num: 125, den: 100 }), 711);
    // a huge factor saturates at the largest dimension
    assert_eq!(
        scale_dim(342, ScaleFactor { num: 1000000000000000000, den: 1 }),
        u32::MAX
    );
}

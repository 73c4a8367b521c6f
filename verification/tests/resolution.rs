//! End-to-end window-size resolution.

use window_sizing::get_window_size;

#[test]
fn base_sizes_windows() {
    assert_eq!(get_window_size("windows", "beginner", None, None), (362, 510));
    assert_eq!(get_window_size("windows", "intermediate", None, None), (619, 762));
    assert_eq!(get_window_size("windows", "expert", None, None), (1123, 762));
}

#[test]
fn base_sizes_linux_unscaled() {
    assert_eq!(get_window_size("linux", "beginner", None, None), (342, 450));
    assert_eq!(get_window_size("linux", "intermediate", None, None), (569, 680));
    assert_eq!(get_window_size("linux", "expert", None, None), (1013, 680));
}

#[test]
fn base_sizes_macos() {
    assert_eq!(get_window_size("macos", "beginner", None, None), (362, 510));
    assert_eq!(get_window_size("macos", "intermediate", None, None), (619, 762));
    assert_eq!(get_window_size("macos", "expert", None, None), (1123, 762));
}

#[test]
fn unknown_difficulty_falls_back_to_beginner() {
    assert_eq!(get_window_size("windows", "hardcore", None, None), (362, 510));
    assert_eq!(get_window_size("linux", "hardcore", None, None), (342, 450));
    assert_eq!(get_window_size("macos", "", None, None), (362, 510));
    assert_eq!(get_window_size("linux", "Beginner", None, None), (342, 450));
}

#[test]
fn unknown_platform_uses_macos_bucket() {
    assert_eq!(get_window_size("freebsd", "expert", None, None), (1123, 762));
    assert_eq!(
        get_window_size("freebsd", "intermediate", None, None),
        get_window_size("macos", "intermediate", None, None)
    );
}

#[test]
fn scale_two_doubles_base() {
    let r = get_window_size("linux", "beginner", Some("<scale>2</scale>"), None);
    assert_eq!(r, (684, 900));
}

#[test]
fn factor_at_most_one_leaves_base() {
    for probe in [
        "<scale>1</scale>",
        "<scale>1.0</scale>",
        "<scale>0.5</scale>",
        "<scale>0</scale>",
        "<scale>-2</scale>",
        "<scale>abc</scale>",
        "<scale>2",
        "no tags at all",
    ] {
        assert_eq!(get_window_size("linux", "beginner", Some(probe), None), (342, 450));
    }
}

#[test]
fn file_takes_precedence_over_settings() {
    let r = get_window_size(
        "linux",
        "beginner",
        Some("<scale>1.5</scale>"),
        Some("uint32 3"),
    );
    assert_eq!(r, (513, 675));
}

#[test]
fn settings_output_used_when_file_absent() {
    let r = get_window_size("linux", "beginner", None, Some("uint32 2"));
    assert_eq!(r, (684, 900));
}

#[test]
fn settings_ignored_when_file_has_factor() {
    let with_settings = get_window_size(
        "linux",
        "expert",
        Some("<scale>1.5</scale>"),
        Some("uint32 2"),
    );
    let without_settings = get_window_size("linux", "expert", Some("<scale>1.5</scale>"), None);
    assert_eq!(with_settings, without_settings);
}

#[test]
fn probes_ignored_off_linux() {
    assert_eq!(
        get_window_size("windows", "beginner", Some("<scale>3</scale>"), Some("uint32 3")),
        (362, 510)
    );
    assert_eq!(
        get_window_size("macos", "expert", Some("<scale>2</scale>"), Some("uint32 2")),
        (1123, 762)
    );
}

#[test]
fn repeated_calls_agree() {
    let a = get_window_size("linux", "intermediate", Some("<scale>1.25</scale>"), None);
    let b = get_window_size("linux", "intermediate", Some("<scale>1.25</scale>"), None);
    assert_eq!(a, b);
    assert_eq!(a, (711, 850));
}

#[test]
fn fractional_scale_truncates_toward_zero() {
    // 342 * 1.7487922906875610 = 598.086963415...; 450 * it = 786.956530809...
    let r = get_window_size(
        "linux",
        "beginner",
        Some("<scale>1.7487922906875610</scale>"),
        None,
    );
    assert_eq!(r, (598, 786));
}

use aether::utils::{find_project_root, format_duration, format_size, u64_to_string, validate_app_name};

#[test]
fn test_format_size() {
    assert_eq!(format_size(512), "512 B");
    assert_eq!(format_size(1024), "1.0 KB");
    assert_eq!(format_size(1536), "1.5 KB");
    assert_eq!(format_size(1048576), "1.0 MB");
}

#[test]
fn test_format_duration() {
    assert_eq!(format_duration(30), "30s");
    assert_eq!(format_duration(90), "1m 30s");
    assert_eq!(format_duration(3661), "1h 1m");
}

#[test]
fn test_validate_app_name() {
    assert!(validate_app_name("my-app").is_ok());
    assert!(validate_app_name("myapp123").is_ok());
    assert!(validate_app_name("").is_err());
    assert!(validate_app_name("My-App").is_err());
    assert!(validate_app_name("-invalid").is_err());
    assert!(validate_app_name("invalid-").is_err());
}

#[test]
fn test_format_size_units() {
    assert_eq!(format_size(0), "0 B");
    assert_eq!(format_size(1023), "1023 B");
    assert_eq!(format_size(1073741824), "1.0 GB");
    assert_eq!(format_size(1536 * 1024), "1.5 MB");
}

#[test]
fn test_format_duration_boundaries() {
    assert_eq!(format_duration(0), "0s");
    assert_eq!(format_duration(59), "59s");
    assert_eq!(format_duration(60), "1m 0s");
    assert_eq!(format_duration(3600), "1h 0m");
    assert_eq!(format_duration(7322), "2h 2m");
}

#[test]
fn test_validate_app_name_limits() {
    let long_ok: String = "a".repeat(63);
    assert!(validate_app_name(&long_ok).is_ok());
    let too_long: String = "a".repeat(64);
    assert!(validate_app_name(&too_long).is_err());
    assert!(validate_app_name("a").is_ok());
    assert!(validate_app_name("has_underscore").is_err());
    assert!(validate_app_name("has space").is_err());
}

#[test]
fn test_find_project_root() {
    assert_eq!(find_project_root(&vec![false, true, true]), Some(1));
    assert_eq!(find_project_root(&vec![true]), Some(0));
    assert_eq!(find_project_root(&vec![false, false]), None);
    assert_eq!(find_project_root(&vec![]), None);
}

#[test]
fn test_decimal_rendering() {
    assert_eq!(u64_to_string(0), "0");
    assert_eq!(u64_to_string(7), "7");
    assert_eq!(u64_to_string(105), "105");
    assert_eq!(u64_to_string(18446744073709551615), "18446744073709551615");
}

#[test]
fn test_format_size_rounding() {
    // 1280 B is exactly 1.25 KB: the tie rounds to the even tenth.
    assert_eq!(format_size(1280), "1.2 KB");
    assert_eq!(format_size(1312), "1.3 KB");
    assert_eq!(format_size(1024 * 1024 - 1), "1024.0 KB");
}

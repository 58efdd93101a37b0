use badge_admin_core::numfmt::format_pence;
use badge_admin_core::version::{build_version_info, parse_version_line};

#[test]
fn test_parse_version_line_full() {
    let (image, build_time, git_commit) =
        parse_version_line("registry/app:1.2.3,2025-01-01T00:00:00Z,abc123");
    assert_eq!(image, "registry/app:1.2.3");
    assert_eq!(build_time, "2025-01-01T00:00:00Z");
    assert_eq!(git_commit, "abc123");
}

#[test]
fn test_parse_version_line_partial() {
    let (image, build_time, git_commit) = parse_version_line("registry/app:1.2.3,2025-01-01");
    assert_eq!(image, "registry/app:1.2.3");
    assert_eq!(build_time, "2025-01-01");
    assert_eq!(git_commit, "unknown");

    let (image, build_time, git_commit) = parse_version_line("registry/app:1.2.3");
    assert_eq!(image, "registry/app:1.2.3");
    assert_eq!(build_time, "unknown");
    assert_eq!(git_commit, "unknown");
}

#[test]
fn test_parse_version_line_trims_and_keeps_extra_commas() {
    let (image, build_time, git_commit) = parse_version_line("  app:1,t1,c1,extra \n");
    assert_eq!(image, "app:1");
    assert_eq!(build_time, "t1");
    assert_eq!(git_commit, "c1,extra");
}

#[test]
fn test_build_version_info() {
    let v = build_version_info(
        Some("app:1,t1,c1".to_string()),
        Some("production".to_string()),
    );
    assert_eq!(v.service, "foxy-fabrications-admin");
    assert_eq!(v.image, "app:1");
    assert_eq!(v.build_time, "t1");
    assert_eq!(v.git_commit, "c1");
    assert_eq!(v.environment, "production");

    let v = build_version_info(None, None);
    assert_eq!(v.image, "unknown");
    assert_eq!(v.build_time, "unknown");
    assert_eq!(v.git_commit, "unknown");
    assert_eq!(v.environment, "unknown");
}

#[test]
fn test_format_pence_exact() {
    assert_eq!(format_pence(4498), "£44.98");
    assert_eq!(format_pence(0), "£0.00");
    assert_eq!(format_pence(5), "£0.05");
    assert_eq!(format_pence(99999999), "£999999.99");
    assert_eq!(format_pence(100), "£1.00");
}

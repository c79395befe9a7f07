use eigen_core::format::format_bytes;

#[test]
fn bytes_below_one_kilobyte_render_as_integers() {
    assert_eq!(format_bytes(0), "0 B");
    assert_eq!(format_bytes(1), "1 B");
    assert_eq!(format_bytes(1023), "1023 B");
}

#[test]
fn kilobytes_render_with_two_decimals() {
    assert_eq!(format_bytes(1024), "1.00 KB");
    assert_eq!(format_bytes(1536), "1.50 KB");
    assert_eq!(format_bytes(1535), "1.50 KB");
    assert_eq!(format_bytes(1126), "1.10 KB");
    assert_eq!(format_bytes(10 * 1024), "10.00 KB");
}

#[test]
fn larger_units_are_selected_by_magnitude() {
    assert_eq!(format_bytes(1024 * 1024), "1.00 MB");
    assert_eq!(format_bytes(1073741824), "1.00 GB");
    assert_eq!(format_bytes(1024u64 * 1024 * 1024 * 1024), "1.00 TB");
    assert_eq!(format_bytes(3 * 1024 * 1024 + 512 * 1024), "3.50 MB");
}

#[test]
fn value_just_below_a_unit_rounds_within_the_smaller_unit() {
    assert_eq!(format_bytes(1024 * 1024 - 1), "1024.00 KB");
}

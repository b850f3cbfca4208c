use grpc_mem_bench::memory::parse_memory_limit;

#[test]
fn plain_numbers_are_bytes() {
    assert_eq!(parse_memory_limit("0"), Some(0));
    assert_eq!(parse_memory_limit("123"), Some(123));
    assert_eq!(parse_memory_limit("18446744073709551615"), Some(u64::MAX));
}

#[test]
fn unit_suffixes_scale() {
    assert_eq!(parse_memory_limit("2K"), Some(2 * 1024));
    assert_eq!(parse_memory_limit("512M"), Some(512 * 1024 * 1024));
    assert_eq!(parse_memory_limit("1G"), Some(1024 * 1024 * 1024));
}

#[test]
fn lower_case_units_are_accepted() {
    assert_eq!(parse_memory_limit("512m"), Some(512 * 1024 * 1024));
    assert_eq!(parse_memory_limit("3k"), Some(3 * 1024));
    assert_eq!(parse_memory_limit("2g"), Some(2 * 1024 * 1024 * 1024));
}

#[test]
fn surrounding_whitespace_is_trimmed() {
    assert_eq!(parse_memory_limit("  1G"), Some(1024 * 1024 * 1024));
    assert_eq!(parse_memory_limit("1G  "), Some(1024 * 1024 * 1024));
    assert_eq!(parse_memory_limit("\t 64M \n"), Some(64 * 1024 * 1024));
}

#[test]
fn missing_digits_are_rejected() {
    assert_eq!(parse_memory_limit(""), None);
    assert_eq!(parse_memory_limit("   "), None);
    assert_eq!(parse_memory_limit("M"), None);
    assert_eq!(parse_memory_limit("G12"), None);
}

#[test]
fn unknown_units_are_rejected() {
    assert_eq!(parse_memory_limit("12X"), None);
    assert_eq!(parse_memory_limit("1KB"), None);
    assert_eq!(parse_memory_limit("1 G"), None);
    assert_eq!(parse_memory_limit("12.5M"), None);
}

#[test]
fn values_beyond_64_bits_are_rejected() {
    // One past u64::MAX.
    assert_eq!(parse_memory_limit("18446744073709551616"), None);
    // The digits fit but the scaled value does not.
    assert_eq!(parse_memory_limit("18446744073709551615K"), None);
    assert_eq!(parse_memory_limit("17179869184G"), None);
    // The largest count of binary billions that still fits.
    assert_eq!(parse_memory_limit("17179869183G"), Some(17179869183 * 1024 * 1024 * 1024));
}

use fileshare::size::{human_readable_size, push_decimal};

#[test]
fn bytes_below_one_kilobyte() {
    assert_eq!(human_readable_size(0), "0.00 B");
    assert_eq!(human_readable_size(1), "1.00 B");
    assert_eq!(human_readable_size(1023), "1023.00 B");
}

#[test]
fn scaled_units() {
    assert_eq!(human_readable_size(1024), "1.00 KB");
    assert_eq!(human_readable_size(1536), "1.50 KB");
    assert_eq!(human_readable_size(1048576), "1.00 MB");
    assert_eq!(human_readable_size(3 * 1073741824), "3.00 GB");
    assert_eq!(human_readable_size(5 * 1099511627776), "5.00 TB");
}

#[test]
fn terabytes_is_the_largest_unit() {
    assert_eq!(human_readable_size(1024 * 1099511627776), "1024.00 TB");
    assert_eq!(human_readable_size(u64::MAX), "16777216.00 TB");
}

#[test]
fn rounding_carries_into_the_integer_part() {
    assert_eq!(human_readable_size(1048575), "1024.00 KB");
}

#[test]
fn rounding_ties_go_to_even() {
    assert_eq!(human_readable_size(1152), "1.12 KB");
    assert_eq!(human_readable_size(1408), "1.38 KB");
    assert_eq!(human_readable_size(1100), "1.07 KB");
}

#[test]
fn decimal_text() {
    let mut s = String::from("n=");
    push_decimal(&mut s, 0);
    assert_eq!(s, "n=0");
    let mut s = String::new();
    push_decimal(&mut s, 340282366920938463463374607431768211455);
    assert_eq!(s, "340282366920938463463374607431768211455");
}

use drivogram::sizes::{humanize_size, humanize_uploads};
use drivogram::text::parse_u128;
use drivogram::types::UploadData;

#[test]
fn parse_plain_numbers() {
    assert_eq!(parse_u128("0"), Some(0));
    assert_eq!(parse_u128("123"), Some(123));
    assert_eq!(parse_u128("+7"), Some(7));
    assert_eq!(parse_u128("007"), Some(7));
}

#[test]
fn parse_rejects_what_std_rejects() {
    for s in ["", "+", "-1", "12a", " 1", "1 ", "++1", "1.5"] {
        assert_eq!(parse_u128(s), None, "{:?}", s);
        assert_eq!(parse_u128(s), s.parse::<u128>().ok(), "{:?}", s);
    }
}

#[test]
fn parse_limits() {
    assert_eq!(parse_u128("340282366920938463463374607431768211455"), Some(u128::MAX));
    assert_eq!(parse_u128("340282366920938463463374607431768211456"), None);
    assert_eq!(parse_u128("99999999999999999999999999999999999999999x"), None);
}

#[test]
fn parse_agrees_with_std() {
    for s in ["1", "+0", "18446744073709551616", "42", "+340282366920938463463374607431768211455"] {
        assert_eq!(parse_u128(s), s.parse::<u128>().ok(), "{:?}", s);
    }
}

#[test]
fn small_sizes_stay_in_bytes() {
    assert_eq!(humanize_size("0"), Some("0 B".to_string()));
    assert_eq!(humanize_size("999"), Some("999 B".to_string()));
    assert_eq!(humanize_size("1000"), Some("1000 B".to_string()));
}

#[test]
fn larger_sizes_take_a_unit() {
    assert_eq!(humanize_size("1500"), Some("1.50 KB".to_string()));
    assert_eq!(humanize_size("2000000"), Some("2.00 MB".to_string()));
}

#[test]
fn unreadable_size() {
    assert_eq!(humanize_size("12 KB"), None);
    assert_eq!(humanize_size(""), None);
}

fn upload(name: &str, size: &str) -> UploadData {
    UploadData {
        filename: name.to_string(),
        content: "text/plain".to_string(),
        filesize: size.to_string(),
        filekey: format!("key-{}", name),
    }
}

#[test]
fn uploads_listing_shows_units() {
    let mut uploads = vec![upload("a.txt", "12"), upload("b.bin", "1500")];
    humanize_uploads(&mut uploads);
    assert_eq!(uploads, vec![upload("a.txt", "12 B"), upload("b.bin", "1.50 KB")]);
    let mut none: Vec<UploadData> = Vec::new();
    humanize_uploads(&mut none);
    assert!(none.is_empty());
}

#[test]
fn decimal_numerals_read_back() {
    for n in [0u128, 9, 10, 1000, 123456789, u128::MAX] {
        assert_eq!(parse_u128(&n.to_string()), Some(n));
    }
    assert_eq!(humanize_size(&1000u128.to_string()), Some("1000 B".to_string()));
}

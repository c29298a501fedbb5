use angulito::naming::{export_file_name, overlay_color};
use angulito::text::{push_decimal, push_zero_padded};

#[test]
fn export_name_pads_every_field() {
    assert_eq!(
        export_file_name(2024, 0, 5, 9, 3, 7, "80"),
        "angulito_2024-01-05_09-03-07_80deg.png"
    );
}

#[test]
fn export_name_counts_months_from_one() {
    assert_eq!(
        export_file_name(2025, 11, 31, 23, 59, 58, "135"),
        "angulito_2025-12-31_23-59-58_135deg.png"
    );
}

#[test]
fn export_name_keeps_long_fields_whole() {
    assert_eq!(
        export_file_name(12345, 8, 10, 100, 0, 0, "0"),
        "angulito_12345-09-10_100-00-00_0deg.png"
    );
    assert_eq!(
        export_file_name(7, 8, 10, 1, 0, 0, "5"),
        "angulito_0007-09-10_01-00-00_5deg.png"
    );
}

#[test]
fn overlay_color_is_css_rgb() {
    assert_eq!(overlay_color(), "rgb(0, 200, 230)");
}

#[test]
fn decimal_rendering() {
    for (n, text) in [(0u64, "0"), (9, "9"), (10, "10"), (205, "205"), (u64::MAX, "18446744073709551615")] {
        let mut s = String::from("x");
        push_decimal(&mut s, n);
        assert_eq!(s, format!("x{text}"));
    }
}

#[test]
fn zero_padding() {
    let mut s = String::new();
    push_zero_padded(&mut s, 42, 5);
    assert_eq!(s, "00042");
    let mut s = String::new();
    push_zero_padded(&mut s, 123456, 3);
    assert_eq!(s, "123456");
    let mut s = String::new();
    push_zero_padded(&mut s, 0, 0);
    assert_eq!(s, "0");
}

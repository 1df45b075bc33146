use cpu_applet::percent_label;

#[test]
fn label_of_zero() {
    assert_eq!(percent_label(0), "0%");
}

#[test]
fn label_of_two_digits() {
    assert_eq!(percent_label(51), "51%");
}

#[test]
fn label_of_hundred() {
    assert_eq!(percent_label(100), "100%");
}

#[test]
fn label_of_largest_value() {
    assert_eq!(percent_label(u16::MAX), "65535%");
}

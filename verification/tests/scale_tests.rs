use mermaid_it::scale::Scale;

#[test]
fn scale_one_preserves_dimensions() {
    let s = Scale::one();
    assert_eq!(s.scaled_dimension(400), 400);
    assert_eq!(s.scaled_dimension(300), 300);
    assert_eq!(s.scaled_dimension(1), 1);
    assert_eq!(s.scaled_dimension(0), 0);
}

#[test]
fn scale_two_doubles_dimensions() {
    let s = Scale::from_milli(2000);
    assert_eq!(s.scaled_dimension(400), 800);
    assert_eq!(s.scaled_dimension(300), 600);
}

#[test]
fn scaled_dimension_truncates_toward_zero() {
    let s = Scale::from_milli(1500);
    assert_eq!(s.scaled_dimension(333), 499);
    let t = Scale::from_milli(999);
    assert_eq!(t.scaled_dimension(1), 0);
}

#[test]
fn scaled_dimension_saturates() {
    let s = Scale::from_milli(u32::MAX);
    assert_eq!(s.scaled_dimension(u32::MAX), u32::MAX);
}

#[test]
fn tiny_scale_rounds_small_dimensions_to_zero() {
    let s = Scale::from_milli(1);
    assert_eq!(s.scaled_dimension(400), 0);
    assert_eq!(s.scaled_dimension(999), 0);
    assert_eq!(s.scaled_dimension(1000), 1);
}

#[test]
fn scale_text_has_three_fractional_digits() {
    assert_eq!(Scale::one().text(), "1.000");
    assert_eq!(Scale::from_milli(2500).text(), "2.500");
    assert_eq!(Scale::from_milli(50).text(), "0.050");
    assert_eq!(Scale::from_milli(3).text(), "0.003");
    assert_eq!(Scale::from_milli(12345).text(), "12.345");
}

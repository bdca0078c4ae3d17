use omma_dashboard::text::{id_label, population_label, progress_label, u32_to_dec};

#[test]
fn renders_zero() {
    assert_eq!(u32_to_dec(0), "0");
}

#[test]
fn renders_single_digits() {
    assert_eq!(u32_to_dec(7), "7");
    assert_eq!(u32_to_dec(9), "9");
}

#[test]
fn renders_multiple_digits() {
    assert_eq!(u32_to_dec(10), "10");
    assert_eq!(u32_to_dec(42), "42");
    assert_eq!(u32_to_dec(150), "150");
    assert_eq!(u32_to_dec(1000), "1000");
}

#[test]
fn renders_the_largest_value() {
    assert_eq!(u32_to_dec(u32::MAX), "4294967295");
}

#[test]
fn progress_labels() {
    assert_eq!(progress_label(1, 2), "1/2");
    assert_eq!(progress_label(0, 3), "0/3");
    assert_eq!(progress_label(3, 3), "3/3");
    assert_eq!(progress_label(12, 34), "12/34");
}

#[test]
fn population_labels() {
    assert_eq!(population_label(0), "Population: 0");
    assert_eq!(population_label(150), "Population: 150");
    assert_eq!(population_label(90), "Population: 90");
}

#[test]
fn id_labels() {
    assert_eq!(id_label("b0b18929..."), "ID: b0b18929...");
    assert_eq!(id_label(""), "ID: ");
}

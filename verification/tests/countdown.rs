use entur_display::numfmt::countdown_string;
use entur_display::numfmt::pad_start_5;
use entur_display::numfmt::u64_to_dec;

#[test]
fn decimal_digits_exact() {
    assert_eq!(u64_to_dec(0), "0");
    assert_eq!(u64_to_dec(7), "7");
    assert_eq!(u64_to_dec(10), "10");
    assert_eq!(u64_to_dec(120), "120");
    assert_eq!(u64_to_dec(u64::MAX), "18446744073709551615");
}

#[test]
fn countdown_truncates_toward_zero() {
    assert_eq!(countdown_string(119, 0), "1 Min");
    assert_eq!(countdown_string(120, 0), "2 Min");
    assert_eq!(countdown_string(90, 0), "1 Min");
    assert_eq!(countdown_string(59, 0), "0 Min");
    assert_eq!(countdown_string(0, 0), "0 Min");
}

#[test]
fn countdown_past_departure_renders_as_is() {
    assert_eq!(countdown_string(-90, 0), "-1 Min");
    assert_eq!(countdown_string(-30, 0), "0 Min");
    assert_eq!(countdown_string(-120, 0), "-2 Min");
}

#[test]
fn countdown_uses_both_instants() {
    assert_eq!(countdown_string(1_000_119, 1_000_000), "1 Min");
    assert_eq!(countdown_string(0, 600), "-10 Min");
}

#[test]
fn pad_start_fixed_width() {
    assert_eq!(pad_start_5("7"), "    7");
    assert_eq!(pad_start_5("1 Min"), "1 Min");
    assert_eq!(pad_start_5("12 Min"), "12 Min");
    assert_eq!(pad_start_5(""), "     ");
}

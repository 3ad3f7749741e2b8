use baudacious::domain::frequency::{data_mode_for_frequency, Frequency};

fn mode(hz: f64) -> &'static str {
    data_mode_for_frequency(Frequency::from_bits(hz.to_bits()))
}

fn whole(hz: f64) -> u64 {
    Frequency::from_bits(hz.to_bits()).as_whole_hertz()
}

#[test]
fn below_10mhz_is_lsb() {
    assert_eq!(mode(7_074_000.0), "DATA-LSB"); // 40m
    assert_eq!(mode(3_580_000.0), "DATA-LSB"); // 80m
}

#[test]
fn above_10mhz_is_usb() {
    assert_eq!(mode(14_070_000.0), "DATA-USB"); // 20m
    assert_eq!(mode(21_080_000.0), "DATA-USB"); // 15m
}

#[test]
fn sixty_meters_is_usb_exception() {
    assert_eq!(mode(5_357_000.0), "DATA-USB"); // 60m calling freq
    assert_eq!(mode(5_332_000.0), "DATA-USB"); // lower edge
    assert_eq!(mode(5_405_000.0), "DATA-USB"); // upper edge
}

#[test]
fn boundary_at_10mhz_is_usb() {
    assert_eq!(mode(10_000_000.0), "DATA-USB"); // 30m lower edge
}

#[test]
fn neighbours_of_the_band_edges() {
    assert_eq!(mode(f64::from_bits(5_332_000.0f64.to_bits() - 1)), "DATA-LSB");
    assert_eq!(mode(f64::from_bits(5_405_000.0f64.to_bits() + 1)), "DATA-LSB");
    assert_eq!(mode(f64::from_bits(10_000_000.0f64.to_bits() - 1)), "DATA-LSB");
    assert_eq!(mode(5_405_000.25), "DATA-LSB");
}

#[test]
fn unusual_doubles_follow_double_comparison() {
    assert_eq!(mode(0.0), "DATA-LSB");
    assert_eq!(mode(-0.0), "DATA-LSB");
    assert_eq!(mode(-14_070_000.0), "DATA-LSB");
    assert_eq!(mode(f64::NEG_INFINITY), "DATA-LSB");
    assert_eq!(mode(f64::INFINITY), "DATA-USB");
    assert_eq!(mode(f64::NAN), "DATA-USB");
    assert_eq!(mode(-f64::NAN), "DATA-USB");
}

#[test]
fn whole_hertz_agrees_with_the_cast() {
    let cases = [
        0.0,
        -0.0,
        0.5,
        0.999_999,
        1.0,
        1.5,
        1000.0,
        14_070_000.0,
        14_070_000.75,
        4_503_599_627_370_495.5,
        4_503_599_627_370_496.0,
        9_007_199_254_740_993.0,
        1.0e18,
        18_446_744_073_709_549_568.0,
        18_446_744_073_709_551_616.0,
        1.0e300,
        -1.0,
        -1.0e30,
        f64::MIN_POSITIVE,
        f64::INFINITY,
        f64::NEG_INFINITY,
        f64::NAN,
    ];
    for hz in cases {
        assert_eq!(whole(hz), hz as u64, "{hz}");
    }
}

#[test]
fn bits_survive() {
    for hz in [0.1, 7_074_000.0, -3.5, f64::INFINITY] {
        let f = Frequency::from_bits(hz.to_bits());
        assert_eq!(f64::from_bits(f.to_bits()), hz);
    }
}

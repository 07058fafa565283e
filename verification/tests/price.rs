use storefront::products::price::Price;

fn price(value: f64) -> Price {
    Price::from_bits(value.to_bits())
}

#[test]
fn positive_prices_are_those_greater_than_zero() {
    let values = [
        10.0,
        0.01,
        1.0e-320,
        f64::MIN_POSITIVE,
        f64::MAX,
        f64::INFINITY,
        0.0,
        -0.0,
        -1.0,
        -1.0e-320,
        f64::MIN,
        f64::NEG_INFINITY,
        f64::NAN,
        -f64::NAN,
    ];
    for value in values {
        assert_eq!(price(value).is_positive(), value > 0.0, "{}", value);
    }
}

#[test]
fn price_keeps_its_bits() {
    let bits = 12.5f64.to_bits();
    assert_eq!(Price::from_bits(bits).to_bits(), bits);
    assert_eq!(f64::from_bits(price(12.5).to_bits()), 12.5);
}

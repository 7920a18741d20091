use configurator::node::NodeNumber;
use configurator::number::{Number, NumberValue, NumberValueLight, F32, F64};

#[test]
fn as_u128() {
    assert_eq!(Number::U8(200).as_u128(), Some(200));
    assert_eq!(Number::I8(-1).as_u128(), None);
    assert_eq!(Number::I128(5).as_u128(), Some(5));
    assert_eq!(Number::U128(u128::MAX).as_u128(), Some(u128::MAX));
    assert_eq!(Number::F64(F64(1.5f64.to_bits())).as_u128(), None);
}

#[test]
fn as_i128() {
    assert_eq!(Number::U8(200).as_i128(), Some(200));
    assert_eq!(Number::I8(-1).as_i128(), Some(-1));
    assert_eq!(Number::U128(u128::MAX).as_i128(), None);
    assert_eq!(Number::U128(i128::MAX as u128).as_i128(), Some(i128::MAX));
    assert_eq!(Number::I128(i128::MIN).as_i128(), Some(i128::MIN));
    assert_eq!(Number::F32(F32(1.5f32.to_bits())).as_i128(), None);
}

#[test]
fn number_value_round_trips() {
    let n = Number::I64(-42);
    assert_eq!(NumberValue::from_number(&n).to_number(), n);
    let f = Number::F64(F64(3.25f64.to_bits()));
    assert_eq!(NumberValue::from_number(&f).to_number(), f);
}

#[test]
fn kind_from_str() {
    assert_eq!(
        NumberValue::kind_from_str("uint8"),
        Some(NumberValueLight::U8)
    );
    assert_eq!(
        NumberValue::kind_from_str("int128"),
        Some(NumberValueLight::I128)
    );
    assert_eq!(
        NumberValue::kind_from_str("float64"),
        Some(NumberValueLight::F64)
    );
    assert_eq!(NumberValue::kind_from_str("float"), Some(NumberValueLight::F32));
    assert_eq!(NumberValue::kind_from_str("decimal"), None);
}

#[test]
fn render_numbers() {
    assert_eq!(configurator::number::render_u128(0), "0");
    assert_eq!(configurator::number::render_u128(105), "105");
    assert_eq!(
        configurator::number::render_number(&NumberValue::I32(-78)),
        "-78"
    );
    assert_eq!(
        configurator::number::render_number(&NumberValue::I128(i128::MIN)),
        "-170141183460469231731687303715884105728"
    );
    assert_eq!(
        configurator::number::render_number(&NumberValue::U64(u64::MAX)),
        "18446744073709551615"
    );
    // float bits are opaque to the core: no text is rendered for them
    assert_eq!(
        configurator::number::render_number(&NumberValue::F64(2.0f64.to_bits())),
        ""
    );
}

#[test]
fn parse_by_kind() {
    let n = NodeNumber::new(NumberValueLight::U8);
    assert_eq!(n.try_parse_from_str("250"), Ok(NumberValue::U8(250)));
    assert!(n.try_parse_from_str("256").is_err());
    assert!(n.try_parse_from_str("-1").is_err());
    assert!(n.try_parse_from_str("zz").is_err());
    assert!(n.try_parse_from_str("").is_err());

    let i = NodeNumber::new(NumberValueLight::I16);
    assert_eq!(i.try_parse_from_str("-32768"), Ok(NumberValue::I16(i16::MIN)));
    assert_eq!(i.try_parse_from_str("+7"), Ok(NumberValue::I16(7)));
    assert!(i.try_parse_from_str("32768").is_err());

    // float text is the embedding layer's concern
    let f = NodeNumber::new(NumberValueLight::F64);
    assert!(f.try_parse_from_str("1.5").is_err());
}

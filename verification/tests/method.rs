use sockrs5::error::SocksError;
use sockrs5::msg::method::FixedMethod;
use sockrs5::msg::method::Method;

#[test]
fn method_byte_total_bijection() {
    for b in 0u8..=255 {
        let m = Method::from_u8(b).expect("every byte denotes a method");
        assert_eq!(m.to_u8(), b);
    }
}

#[test]
fn method_byte_classification() {
    assert_eq!(Method::from_u8(0x00).unwrap(), Method::Fixed(FixedMethod::NoAuth));
    assert_eq!(Method::from_u8(0x01).unwrap(), Method::Fixed(FixedMethod::GssApi));
    assert_eq!(Method::from_u8(0x02).unwrap(), Method::Fixed(FixedMethod::UsePass));
    assert_eq!(Method::from_u8(0xFF).unwrap(), Method::Fixed(FixedMethod::NoAcceptable));
    assert_eq!(Method::from_u8(0x03).unwrap(), Method::IanaAssigned(0x03));
    assert_eq!(Method::from_u8(0x7F).unwrap(), Method::IanaAssigned(0x7F));
    assert_eq!(Method::from_u8(0x80).unwrap(), Method::Private(0x80));
    assert_eq!(Method::from_u8(0xFE).unwrap(), Method::Private(0xFE));
}

#[test]
fn fixed_method_to_u8() {
    assert_eq!(FixedMethod::NoAuth.to_u8(), 0x00);
    assert_eq!(FixedMethod::GssApi.to_u8(), 0x01);
    assert_eq!(FixedMethod::UsePass.to_u8(), 0x02);
    assert_eq!(FixedMethod::NoAcceptable.to_u8(), 0xFF);
}

#[test]
fn fixed_method_try_from_u8_reserved() {
    assert_eq!(FixedMethod::try_from_u8(0x00).unwrap(), FixedMethod::NoAuth);
    assert_eq!(FixedMethod::try_from_u8(0x01).unwrap(), FixedMethod::GssApi);
    assert_eq!(FixedMethod::try_from_u8(0x02).unwrap(), FixedMethod::UsePass);
    assert_eq!(FixedMethod::try_from_u8(0xFF).unwrap(), FixedMethod::NoAcceptable);
}

#[test]
fn fixed_method_try_from_u8_unknown() {
    assert_eq!(FixedMethod::try_from_u8(0x03), Err(SocksError::UnknownMethod(0x03)));
    assert_eq!(FixedMethod::try_from_u8(0x80), Err(SocksError::UnknownMethod(0x80)));
}

use sockrs5::error::SocksError;
use sockrs5::msg::message::MethodSelection;
use sockrs5::msg::message::VersionMessage;
use sockrs5::msg::method::FixedMethod;
use sockrs5::msg::method::Method;

#[test]
fn version_message_new_sets_version() {
    let msg = VersionMessage::new(vec![Method::Fixed(FixedMethod::NoAuth)]);
    assert_eq!(msg.ver, 0x05);
    assert_eq!(msg.methods, vec![Method::Fixed(FixedMethod::NoAuth)]);
}

#[test]
fn version_message_parse() {
    let msg = VersionMessage::from_bytes(&[5, 2, 0, 2]).unwrap();
    assert_eq!(msg.ver, 5);
    assert_eq!(
        msg.methods,
        vec![Method::Fixed(FixedMethod::NoAuth), Method::Fixed(FixedMethod::UsePass)]
    );
}

#[test]
fn version_message_parse_ignores_trailing_bytes() {
    let msg = VersionMessage::from_bytes(&[5, 1, 0xFF, 7, 7]).unwrap();
    assert_eq!(msg.methods, vec![Method::Fixed(FixedMethod::NoAcceptable)]);
}

#[test]
fn version_message_too_short() {
    assert_eq!(VersionMessage::from_bytes(&[]), Err(SocksError::VersionMessageTooShort));
    assert_eq!(VersionMessage::from_bytes(&[5]), Err(SocksError::VersionMessageTooShort));
}

#[test]
fn version_message_unsupported_version() {
    assert_eq!(VersionMessage::from_bytes(&[4, 1, 0]), Err(SocksError::UnsupportedVersion(4)));
}

#[test]
fn version_message_incomplete_methods() {
    assert_eq!(VersionMessage::from_bytes(&[5, 3, 0]), Err(SocksError::IncompleteVersionMessage));
    assert_eq!(VersionMessage::from_bytes(&[5, 1]), Err(SocksError::IncompleteVersionMessage));
}

#[test]
fn version_message_parse_largest_method_count() {
    let mut bytes = vec![5u8, 255];
    for b in 0u8..=254 {
        bytes.push(b);
    }
    let msg = VersionMessage::from_bytes(&bytes).unwrap();
    assert_eq!(msg.methods.len(), 255);
    assert_eq!(msg.methods[0], Method::Fixed(FixedMethod::NoAuth));
    assert_eq!(msg.methods[3], Method::IanaAssigned(3));
    assert_eq!(msg.methods[254], Method::Private(254));
    // One byte short of the declared count is incomplete.
    let short = &bytes[..bytes.len() - 1];
    assert_eq!(VersionMessage::from_bytes(short), Err(SocksError::IncompleteVersionMessage));
}

#[test]
fn method_selection_to_bytes() {
    let sel = MethodSelection::new(Method::Fixed(FixedMethod::NoAuth));
    assert_eq!(sel.ver, 0x05);
    assert_eq!(sel.to_bytes(), [0x05, 0x00]);
    let sel = MethodSelection::new(Method::Fixed(FixedMethod::NoAcceptable));
    assert_eq!(sel.to_bytes(), [0x05, 0xFF]);
}

#[test]
fn method_selection_parse() {
    let sel = MethodSelection::from_bytes(&[5, 2]).unwrap();
    assert_eq!(sel.ver, 5);
    assert_eq!(sel.method, Method::Fixed(FixedMethod::UsePass));
}

#[test]
fn method_selection_parse_errors() {
    assert_eq!(MethodSelection::from_bytes(&[5]), Err(SocksError::VersionMessageTooShort));
    assert_eq!(MethodSelection::from_bytes(&[4, 0]), Err(SocksError::UnsupportedVersion(4)));
}

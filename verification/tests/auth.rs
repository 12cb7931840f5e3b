use sockrs5::auth::reply::AuthReply;
use sockrs5::auth::reply::AuthStatus;
use sockrs5::auth::request::AuthRequest;
use sockrs5::error::SocksError;

#[test]
fn auth_request_new_sets_version() {
    let req = AuthRequest::new("user".to_string(), "pass".to_string());
    assert_eq!(req.ver, 0x01);
    assert_eq!(req.uname, "user");
    assert_eq!(req.passwd, "pass");
}

#[test]
fn auth_request_parse() {
    let bytes = [1, 5, b'a', b'd', b'm', b'i', b'n', 5, b'a', b'd', b'm', b'i', b'n'];
    let req = AuthRequest::from_bytes(&bytes).unwrap();
    assert_eq!(req.ver, 1);
    assert_eq!(req.uname, "admin");
    assert_eq!(req.passwd, "admin");
}

#[test]
fn auth_request_parse_empty_fields() {
    let req = AuthRequest::from_bytes(&[1, 0, 0]).unwrap();
    assert_eq!(req.uname, "");
    assert_eq!(req.passwd, "");
}

#[test]
fn auth_request_too_short() {
    assert_eq!(AuthRequest::from_bytes(&[]), Err(SocksError::AuthMessageTooShort));
    assert_eq!(AuthRequest::from_bytes(&[1]), Err(SocksError::AuthMessageTooShort));
}

#[test]
fn auth_request_unsupported_version() {
    assert_eq!(AuthRequest::from_bytes(&[2, 0, 0]), Err(SocksError::UnsupportedAuthVersion(2)));
}

#[test]
fn auth_request_truncated_username() {
    assert_eq!(
        AuthRequest::from_bytes(&[1, 5, b'a', b'b']),
        Err(SocksError::AuthFailed("truncated before username".to_string()))
    );
}

#[test]
fn auth_request_invalid_utf8_username() {
    assert_eq!(
        AuthRequest::from_bytes(&[1, 2, 0xFF, 0xFE, 0]),
        Err(SocksError::AuthFailed("invalid UTF-8 in username".to_string()))
    );
}

#[test]
fn auth_request_truncated_password() {
    assert_eq!(
        AuthRequest::from_bytes(&[1, 1, b'u', 5, b'a']),
        Err(SocksError::AuthFailed("truncated before password".to_string()))
    );
}

#[test]
fn auth_request_invalid_utf8_password() {
    assert_eq!(
        AuthRequest::from_bytes(&[1, 1, b'u', 2, 0xC3, 0x28]),
        Err(SocksError::AuthFailed("invalid UTF-8 in password".to_string()))
    );
}

#[test]
fn auth_reply_new_and_to_bytes() {
    let ok = AuthReply::new(AuthStatus::Success);
    assert_eq!(ok.ver, 0x01);
    assert_eq!(ok.to_bytes(), [0x01, 0x00]);
    let bad = AuthReply::new(AuthStatus::Failure);
    assert_eq!(bad.to_bytes(), [0x01, 0x01]);
}

#[test]
fn auth_reply_parse() {
    let ok = AuthReply::from_bytes(&[1, 0]).unwrap();
    assert_eq!(ok.status, AuthStatus::Success);
    // Any non-zero status byte is failure.
    let bad = AuthReply::from_bytes(&[1, 7]).unwrap();
    assert_eq!(bad.status, AuthStatus::Failure);
}

#[test]
fn auth_reply_parse_errors() {
    assert_eq!(AuthReply::from_bytes(&[1]), Err(SocksError::AuthMessageTooShort));
    assert_eq!(AuthReply::from_bytes(&[1, 0, 0]), Err(SocksError::AuthMessageTooShort));
    assert_eq!(AuthReply::from_bytes(&[2, 0]), Err(SocksError::UnsupportedAuthVersion(2)));
}

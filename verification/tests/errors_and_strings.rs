use rabbitmq::cstring::{c_string, c_string_arg};
use rabbitmq::error::{Error, NulError};

#[test]
fn descriptions_name_each_error() {
    let nul = NulError { position: 0, bytes: vec![0] };
    assert_eq!(Error::Cstring(nul).description(), "nul byte found in data");
    assert_eq!(Error::TCPSocket.description(), "creat TCP socket error");
    assert_eq!(Error::Status(-9).description(), "creat TCP socket status");
    assert_eq!(Error::Decode.description(), "Decode error");
    assert_eq!(Error::Reply.description(), "Reply error");
    assert_eq!(Error::Frame.description(), "Frame error");
}

#[test]
fn nul_error_converts_into_cstring_error() {
    let nul = NulError { position: 2, bytes: vec![104, 105, 0] };
    let e: Error = Error::from(nul.clone());
    assert_eq!(e, Error::Cstring(nul));
}

#[test]
fn c_string_appends_a_nul() {
    assert_eq!(c_string("guest"), Ok(b"guest\0".to_vec()));
    assert_eq!(c_string(""), Ok(vec![0u8]));
}

#[test]
fn c_string_keeps_utf8_bytes() {
    assert_eq!(c_string("h\u{e9}"), Ok(vec![104u8, 0xc3, 0xa9, 0]));
}

#[test]
fn c_string_names_the_first_nul() {
    let r = c_string("a\0b\0");
    assert_eq!(r, Err(NulError { position: 1, bytes: b"a\0b\0".to_vec() }));
    let r = c_string("\0");
    assert_eq!(r, Err(NulError { position: 0, bytes: vec![0] }));
}

#[test]
fn c_string_arg_reports_a_cstring_error() {
    assert_eq!(c_string_arg("/"), Ok(b"/\0".to_vec()));
    assert_eq!(
        c_string_arg("x\0"),
        Err(Error::Cstring(NulError { position: 1, bytes: b"x\0".to_vec() }))
    );
}

use vglite_rs::{wrap_result, Error};

#[test]
fn status_codes_map_one_to_one() {
    let expected = [
        (1, Error::InvalidArgument),
        (2, Error::OutOfMemory),
        (3, Error::NoContext),
        (4, Error::Timeout),
        (5, Error::OutOfResource),
        (6, Error::GenericIO),
        (7, Error::NotSupport),
        (8, Error::AlreadyExists),
        (9, Error::NotAligned),
        (10, Error::FlexaTimeOut),
        (11, Error::FlexaHandshakeFail),
        (12, Error::Unknown),
        (u32::MAX, Error::Unknown),
    ];
    for (code, e) in expected {
        assert_eq!(Error::from(code), e);
        assert_eq!(wrap_result(7u8, code), Err(e));
    }
}

#[test]
fn success_carries_value() {
    assert_eq!(wrap_result("done", 0), Ok("done"));
}

use vglite_rs::{Buffer, Error, Format, Surface};

#[test]
fn it_works() {
    let _buffer = Surface::new(0, 0, Format::BGR565).and_then(|s| Buffer::allocated(s, 0));
    assert!(matches!(_buffer, Err(Error::InvalidArgument)));
    assert_eq!(4, 4);
}

use readpassphrase_3::Error;
use readpassphrase_3::IoError;
use readpassphrase_3::PASSWORD_LEN;
use readpassphrase_3::PrimitiveOutcome;
use readpassphrase_3::SecretBuf;
use readpassphrase_3::Utf8Error;
use readpassphrase_3::getpass;
use readpassphrase_3::readpassphrase;
use readpassphrase_3::readpassphrase_into;

#[test]
fn test_empty() {
    // A buffer with no usable capacity fails deterministically with an
    // invalid-argument classification, whatever the primitive reported.
    let err = readpassphrase_into(SecretBuf::with_capacity(0), PrimitiveOutcome::Success)
        .unwrap_err();
    let err: Error = Error::from(err);
    assert_eq!(err, Error::Io(IoError::InvalidInput));

    let buf: Vec<u8> = Vec::new();
    let err = readpassphrase(&buf, PrimitiveOutcome::Success).unwrap_err();
    assert_eq!(err, Error::Io(IoError::InvalidInput));
}

#[test]
fn test_transfer_returns_secret() {
    // Capacity 8, the primitive wrote "secret\0": the text is "secret" with
    // logical length 6, and the returned value adopted the whole storage.
    let storage = vec![b's', b'e', b'c', b'r', b'e', b't', 0, 0];
    let buf = SecretBuf::from_filled(storage);
    let text = readpassphrase_into(buf, PrimitiveOutcome::Success).unwrap();
    assert_eq!(text.len(), 6);
    assert_eq!(text.to_bytes(), b"secret".to_vec());
    assert_eq!(text.capacity(), 8);
    assert!(text.len() <= text.capacity() - 1);
}

#[test]
fn test_transfer_empty_secret() {
    let buf = SecretBuf::from_filled(vec![0]);
    let text = readpassphrase_into(buf, PrimitiveOutcome::Success).unwrap();
    assert!(text.is_empty());
    assert_eq!(text.len(), 0);
    assert_eq!(text.capacity(), 1);
}

#[test]
fn test_transfer_multibyte_secret() {
    let buf = SecretBuf::from_filled(vec![0xc3, 0xa9, 0x21, 0, 0xff, 0xff]);
    let text = readpassphrase_into(buf, PrimitiveOutcome::Success).unwrap();
    assert_eq!(text.len(), 3);
    assert_eq!(text.to_bytes(), vec![0xc3, 0xa9, 0x21]);
    assert_eq!(text.byte_at(0), 0xc3);
}

#[test]
fn test_transfer_invalid_utf8_reclaims_zeroed() {
    // The primitive wrote invalid text and then a terminator into an 8-byte
    // buffer: the transfer shape reports a decode failure, and the buffer
    // comes back with logical length 0 and all 8 bytes zero.
    let storage = vec![0xff, 0xfe, b'a', 0, 1, 2, 3, 4];
    let buf = SecretBuf::from_filled(storage);
    let err = readpassphrase_into(buf, PrimitiveOutcome::Success).unwrap_err();
    match err.error() {
        Error::Utf8(u) => assert_eq!(u.valid_up_to, 0),
        Error::Io(_) => panic!("expected a decode failure"),
    }
    let back = err.into_bytes();
    assert_eq!(back.len(), 0);
    assert_eq!(back.capacity(), 8);
    for i in 0..8 {
        assert_eq!(back.byte_at(i), 0);
    }
}

#[test]
fn test_transfer_failure_erases_buffer() {
    // Even when the primitive failed after (possibly) writing, every byte
    // of the declared capacity is zero once the error value exists.
    let storage = vec![b'h', b'u', b's', b'h', 0, 9, 9, 9];
    let buf = SecretBuf::from_filled(storage);
    let err = readpassphrase_into(buf, PrimitiveOutcome::Failure(13)).unwrap_err();
    assert_eq!(*err.error(), Error::Io(IoError::Os(13)));
    let back = err.into_bytes();
    assert_eq!(back.capacity(), 8);
    assert_eq!(back.len(), 0);
    for i in 0..8 {
        assert_eq!(back.byte_at(i), 0);
    }
}

#[test]
fn test_take_once_then_empty() {
    // The first reclaim returns the carried buffer; a second reclaim
    // returns a fresh zero-capacity buffer instead of aliasing the first.
    let buf = SecretBuf::with_capacity(8);
    let mut err = readpassphrase_into(buf, PrimitiveOutcome::Failure(4)).unwrap_err();
    assert!(err.has_buffer());
    let first = err.take();
    assert_eq!(first.capacity(), 8);
    assert!(!err.has_buffer());
    let second = err.take();
    assert_eq!(second.capacity(), 0);
    assert_eq!(second.len(), 0);
}

#[test]
fn test_borrow_returns_view() {
    let mut buf = vec![0u8; 16];
    buf[0] = b'p';
    buf[1] = b'w';
    let text = readpassphrase(&buf, PrimitiveOutcome::Success).unwrap();
    assert_eq!(text, "pw");
    assert_eq!(text.len(), 2);
    // The view borrows the caller's own storage; nothing was copied.
    assert_eq!(text.as_bytes().as_ptr(), buf.as_ptr());
    assert!(text.len() <= buf.len() - 1);
}

#[test]
fn test_borrow_failure_io() {
    // The primitive reported failure for a 256-byte buffer: the borrow
    // shape surfaces an Io error and never touches the caller's buffer.
    let buf = vec![0u8; 256];
    let err = readpassphrase(&buf, PrimitiveOutcome::Failure(5)).unwrap_err();
    assert_eq!(err, Error::Io(IoError::Os(5)));
    assert_eq!(buf, vec![0u8; 256]);
}

#[test]
fn test_borrow_invalid_utf8() {
    let buf = vec![0x61, 0x80, 0, 0];
    let err = readpassphrase(&buf, PrimitiveOutcome::Success).unwrap_err();
    assert_eq!(err, Error::Utf8(Utf8Error { valid_up_to: 1 }));
}

#[test]
fn test_getpass_success() {
    let mut v = SecretBuf::with_capacity(PASSWORD_LEN).into_vec();
    let written = b"hunter2";
    for (i, b) in written.iter().enumerate() {
        v[i] = *b;
    }
    let buf = SecretBuf::from_filled(v);
    let text = getpass(buf, PrimitiveOutcome::Success).unwrap();
    assert_eq!(text.len(), 7);
    assert_eq!(text.to_bytes(), b"hunter2".to_vec());
    assert_eq!(text.capacity(), PASSWORD_LEN);
}

#[test]
fn test_getpass_failure_plain_error() {
    let buf = SecretBuf::with_capacity(PASSWORD_LEN);
    let err = getpass(buf, PrimitiveOutcome::Failure(4)).unwrap_err();
    assert_eq!(err, Error::Io(IoError::Os(4)));
}

#[test]
fn test_password_len() {
    assert_eq!(PASSWORD_LEN, 256);
}

#[test]
fn test_error_from_parts() {
    assert_eq!(Error::from(IoError::Os(3)), Error::Io(IoError::Os(3)));
    assert_eq!(Error::from(IoError::InvalidInput), Error::Io(IoError::InvalidInput));
    assert_eq!(
        Error::from(Utf8Error { valid_up_to: 2 }),
        Error::Utf8(Utf8Error { valid_up_to: 2 })
    );
}

use readpassphrase_3::validate_utf8;

#[test]
fn test_validate_accepts_well_formed() {
    let empty: Vec<u8> = Vec::new();
    assert_eq!(validate_utf8(&empty, 0), Ok(()));

    let ascii = b"password".to_vec();
    assert_eq!(validate_utf8(&ascii, 8), Ok(()));

    // Smallest and largest two-byte scalars.
    assert_eq!(validate_utf8(&vec![0xc2, 0x80], 2), Ok(()));
    assert_eq!(validate_utf8(&vec![0xdf, 0xbf], 2), Ok(()));

    // Three-byte forms around their edges: the smallest, the last scalar
    // before the surrogate range, the first after it, and the largest.
    assert_eq!(validate_utf8(&vec![0xe0, 0xa0, 0x80], 3), Ok(()));
    assert_eq!(validate_utf8(&vec![0xed, 0x9f, 0xbf], 3), Ok(()));
    assert_eq!(validate_utf8(&vec![0xee, 0x80, 0x80], 3), Ok(()));
    assert_eq!(validate_utf8(&vec![0xef, 0xbf, 0xbf], 3), Ok(()));

    // Four-byte forms: the smallest and the very last scalar.
    assert_eq!(validate_utf8(&vec![0xf0, 0x90, 0x80, 0x80], 4), Ok(()));
    assert_eq!(validate_utf8(&vec![0xf4, 0x8f, 0xbf, 0xbf], 4), Ok(()));
}

#[test]
fn test_validate_rejects_stray_continuation() {
    assert_eq!(validate_utf8(&vec![0x80], 1), Err(0));
    assert_eq!(validate_utf8(&vec![0x61, 0xbf, 0x62], 3), Err(1));
}

#[test]
fn test_validate_rejects_overlong() {
    assert_eq!(validate_utf8(&vec![0xc0, 0x80], 2), Err(0));
    assert_eq!(validate_utf8(&vec![0xc1, 0xbf], 2), Err(0));
    assert_eq!(validate_utf8(&vec![0xe0, 0x9f, 0xbf], 3), Err(0));
    assert_eq!(validate_utf8(&vec![0xf0, 0x8f, 0xbf, 0xbf], 4), Err(0));
}

#[test]
fn test_validate_rejects_surrogates() {
    assert_eq!(validate_utf8(&vec![0xed, 0xa0, 0x80], 3), Err(0));
    assert_eq!(validate_utf8(&vec![0xed, 0xbf, 0xbf], 3), Err(0));
}

#[test]
fn test_validate_rejects_past_last_scalar() {
    assert_eq!(validate_utf8(&vec![0xf4, 0x90, 0x80, 0x80], 4), Err(0));
    assert_eq!(validate_utf8(&vec![0xf5, 0x80, 0x80, 0x80], 4), Err(0));
    assert_eq!(validate_utf8(&vec![0xf8, 0x80], 2), Err(0));
    assert_eq!(validate_utf8(&vec![0xff], 1), Err(0));
}

#[test]
fn test_validate_rejects_truncated() {
    assert_eq!(validate_utf8(&vec![0xc3], 1), Err(0));
    assert_eq!(validate_utf8(&vec![0xe0, 0xa0], 2), Err(0));
    assert_eq!(validate_utf8(&vec![0xf0, 0x90, 0x80], 3), Err(0));
    // The failure position is where the last whole scalar ended.
    assert_eq!(validate_utf8(&vec![0x61, 0xc3], 2), Err(1));
    assert_eq!(validate_utf8(&vec![0xc3, 0xa9, 0xe0], 3), Err(2));
}

#[test]
fn test_validate_reads_only_prefix() {
    // Only the first n bytes count; garbage past them is not looked at.
    let v = vec![0x61, 0xff];
    assert_eq!(validate_utf8(&v, 1), Ok(()));
    assert_eq!(validate_utf8(&v, 2), Err(1));
}

use readpassphrase_3::ECHO_ON;
use readpassphrase_3::FORCELOWER;
use readpassphrase_3::FORCEUPPER;
use readpassphrase_3::Flags;
use readpassphrase_3::REQUIRE_TTY;
use readpassphrase_3::SEVENBIT;
use readpassphrase_3::STDIN;

#[test]
fn test_flag_bit_values() {
    assert_eq!(ECHO_ON, 0x01);
    assert_eq!(REQUIRE_TTY, 0x02);
    assert_eq!(FORCELOWER, 0x04);
    assert_eq!(FORCEUPPER, 0x08);
    assert_eq!(SEVENBIT, 0x10);
    assert_eq!(STDIN, 0x20);
}

#[test]
fn test_flags_empty_and_default() {
    assert_eq!(Flags::empty().bits(), 0);
    assert_eq!(Flags::default().bits(), 0);
    assert_eq!(Flags::default(), Flags::empty());
}

#[test]
fn test_flags_union_and_contains() {
    let echo = Flags::from_bits(ECHO_ON);
    let stdin = Flags::from_bits(STDIN);
    let both = echo.union(&stdin);
    assert_eq!(both.bits(), ECHO_ON | STDIN);
    assert!(both.contains(&echo));
    assert!(both.contains(&stdin));
    assert!(!echo.contains(&stdin));
    assert!(both.contains(&Flags::empty()));
}

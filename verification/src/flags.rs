//! Flag bits accepted by the external passphrase primitive.

use vstd::prelude::*;

verus! {

/// Leave echo on.
pub const ECHO_ON: i32 = 0x01;

/// Fail if there is no controlling terminal.
pub const REQUIRE_TTY: i32 = 0x02;

/// Force input to lower case.
pub const FORCELOWER: i32 = 0x04;

/// Force input to upper case.
pub const FORCEUPPER: i32 = 0x08;

/// Strip the high bit from each input byte.
pub const SEVENBIT: i32 = 0x10;

/// Read from standard input instead of the controlling terminal.
pub const STDIN: i32 = 0x20;

/// A set of flag bits for the external passphrase primitive.
///
/// The default (no bit set) means echo is disabled. The flags are carried
/// through to the primitive unchanged; nothing in this crate's own logic
/// depends on them.
#[derive(Clone, Copy, Debug, PartialEq, Eq, Structural)]
pub struct Flags {
    bits: i32,
}

impl Flags {
    /// The raw bit pattern this set carries.
    pub closed spec fn spec_bits(&self) -> i32 {
        self.bits
    }

    /// The empty set: every flag off, meaning echo is disabled.
    pub fn empty() -> (r: Flags)
        ensures
            r.spec_bits() == 0,
    {
        Flags { bits: 0 }
    }

    /// A set holding exactly the given bit pattern.
    pub fn from_bits(bits: i32) -> (r: Flags)
        ensures
            r.spec_bits() == bits,
    {
        Flags { bits }
    }

    /// The raw bit pattern, in the form the primitive takes.
    pub fn bits(&self) -> (r: i32)
        ensures
            r == self.spec_bits(),
    {
        self.bits
    }

    /// The set holding the bits of both `self` and `other`.
    pub fn union(&self, other: &Flags) -> (r: Flags)
        ensures
            r.spec_bits() == (self.spec_bits() | other.spec_bits()),
    {
        Flags { bits: self.bits | other.bits }
    }

    /// True when every bit of `other` is set in `self`.
    pub fn contains(&self, other: &Flags) -> (r: bool)
        ensures
            r == ((self.spec_bits() & other.spec_bits()) == other.spec_bits()),
    {
        (self.bits & other.bits) == other.bits
    }
}

impl Default for Flags {
    /// The default set is the empty set.
    fn default() -> (r: Flags)
        ensures
            r.spec_bits() == 0,
    {
        Flags { bits: 0 }
    }
}

} // verus!

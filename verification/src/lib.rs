//! Buffer-lifecycle core for reading a secret line of text through an
//! external passphrase primitive.
//!
//! The platform primitive itself (prompt display, echo suppression, terminal
//! handling) is a collaborator that lives outside this crate; callers invoke
//! it and hand its outcome to the entry points here. This crate owns the hard
//! part around that call: taking ownership of caller memory, locating the
//! terminator the primitive wrote, validating the secret bytes as UTF-8
//! without copying them, and guaranteeing that on every failure path the
//! buffer handed back to the caller has been erased down to its full declared
//! capacity.

use vstd::prelude::*;

mod buffer;
mod error;
mod flags;
mod read;
mod secret;
mod utf8check;
mod zeroize;

pub use buffer::SecretBuf;
pub use buffer::lemma_zeroize_idempotent;
pub use buffer::zeroized_from;
pub use error::Error;
pub use error::IntoError;
pub use error::IoError;
pub use error::Utf8Error;
pub use flags::ECHO_ON;
pub use flags::FORCELOWER;
pub use flags::FORCEUPPER;
pub use flags::Flags;
pub use flags::REQUIRE_TTY;
pub use flags::SEVENBIT;
pub use flags::STDIN;
pub use read::PrimitiveOutcome;
pub use read::contains_nul;
pub use read::getpass;
pub use read::is_terminator_at;
pub use read::lemma_terminator_at_pos;
pub use read::readpassphrase;
pub use read::readpassphrase_into;
pub use read::secret_of;
pub use read::terminator_pos;
pub use secret::SecretString;
pub use utf8check::utf8_error_at;
pub use utf8check::validate_utf8;
pub use zeroize::Zeroize;

verus! {

/// Size of the buffer used by [`getpass`](crate::getpass) callers.
///
/// The primitive null-terminates what it writes, so the longest secret a
/// buffer of this size can carry is `PASSWORD_LEN - 1` bytes.
pub const PASSWORD_LEN: usize = 256;

} // verus!

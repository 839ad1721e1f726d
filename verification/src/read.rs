//! The call shapes composed around the external passphrase primitive.
//!
//! The primitive itself — the platform function that shows a prompt and
//! reads a secret from the terminal — blocks, does I/O, and lives outside
//! this crate. Callers invoke it against the raw capacity region and hand
//! its outcome to the entry points here, which own everything around that
//! call: the usable-capacity check, the scan for the terminator the
//! primitive wrote, the validation of the secret bytes as UTF-8, and the
//! erase-and-wrap discipline on every failure path.

use vstd::prelude::*;
use vstd::string::StringSliceAdditionalSpecFns;
use vstd::utf8::valid_utf8;

use crate::buffer::SecretBuf;
use crate::error::Error;
use crate::error::IntoError;
use crate::error::IoError;
use crate::error::Utf8Error;
use crate::secret::SecretString;
use crate::utf8check::utf8_error_at;
use crate::utf8check::validate_utf8;
use crate::zeroize::Zeroize;

verus! {

/// What the external primitive reported for one call.
#[derive(Clone, Copy, Debug, PartialEq, Eq, Structural)]
pub enum PrimitiveOutcome {
    /// The primitive returned the buffer: the secret stands in it,
    /// terminated by a zero byte.
    Success,
    /// The primitive returned its failure signal; the payload is the
    /// platform's last reported error code.
    Failure(i32),
}

/// True when some byte of `s` is zero.
pub open spec fn contains_nul(s: Seq<u8>) -> bool {
    exists|i: int| 0 <= i < s.len() && s[i] == 0
}

/// True when position `i` holds the terminator: the first zero byte of `s`.
pub open spec fn is_terminator_at(s: Seq<u8>, i: int) -> bool {
    &&& 0 <= i < s.len()
    &&& s[i] == 0
    &&& forall|j: int| 0 <= j < i ==> s[j] != 0
}

/// The position of the terminator: the first zero byte of `s`.
pub open spec fn terminator_pos(s: Seq<u8>) -> int {
    choose|i: int| is_terminator_at(s, i)
}

/// The secret byte run: everything before the terminator.
pub open spec fn secret_of(s: Seq<u8>) -> Seq<u8> {
    s.subrange(0, terminator_pos(s))
}

/// The terminator position is unique, so any position shown to hold the
/// first zero byte is `terminator_pos`.
pub proof fn lemma_terminator_at_pos(s: Seq<u8>, i: int)
    requires
        is_terminator_at(s, i),
    ensures
        terminator_pos(s) == i,
{
    assert(exists|k: int| is_terminator_at(s, k));
    let j = terminator_pos(s);
    assert(is_terminator_at(s, j));
    if j < i {
        assert(s[j] != 0);
    }
    if i < j {
        assert(s[i] != 0);
    }
}

/// Scan the first `n` bytes of `bytes` for the terminator.
fn find_terminator(bytes: &[u8], n: usize) -> (r: Option<usize>)
    requires
        n <= bytes@.len(),
    ensures
        ({
            let s = bytes@.subrange(0, n as int);
            match r {
                Some(p) => is_terminator_at(s, p as int),
                None => !contains_nul(s),
            }
        }),
{
    let ghost s = bytes@.subrange(0, n as int);
    let mut i: usize = 0;
    while i < n
        invariant
            i <= n,
            n <= bytes@.len(),
            s == bytes@.subrange(0, n as int),
            forall|j: int| 0 <= j < i ==> s[j] != 0,
        decreases n - i,
    {
        if bytes[i] == 0 {
            return Some(i);
        }
        i = i + 1;
    }
    None
}

/// Read a secret through the transfer shape: the caller moves the capacity
/// buffer in, the primitive has already filled it in place, and the secret
/// is returned as owned text built from the same storage — no byte is
/// copied between the primitive's write and the returned value.
///
/// On any failure the buffer comes back inside the error with its logical
/// length reset and every byte of its declared capacity erased:
/// - the primitive's failure signal becomes an `Io` error carrying the
///   platform's error code;
/// - a buffer with no usable capacity fails deterministically with an
///   `Io`-classified invalid-argument error, before any scan;
/// - a secret that is not valid UTF-8 becomes a `Utf8` error carrying the
///   position where decoding stopped.
pub fn readpassphrase_into(buf: SecretBuf, outcome: PrimitiveOutcome) -> (r: Result<
    SecretString,
    IntoError,
>)
    requires
        buf.wf(),
        outcome is Success && buf.spec_capacity() > 0 ==> contains_nul(buf.region()),
    ensures
        r is Ok <==> (outcome is Success && buf.spec_capacity() > 0 && valid_utf8(
            secret_of(buf.region()),
        )),
        match r {
            Ok(text) => {
                &&& text.wf()
                &&& text.region() == buf.region()
                &&& text.spec_len() == terminator_pos(buf.region())
                &&& text.contents() == secret_of(buf.region())
                &&& text.spec_len() < buf.spec_capacity()
            },
            Err(e) => {
                &&& e.wf()
                &&& e.has_buffer_spec()
                &&& (e.spec_buf() matches Some(b) ==> b.wf() && b.erased() && b.spec_capacity()
                    == buf.spec_capacity())
                &&& (outcome matches PrimitiveOutcome::Failure(code) ==> e.spec_error()
                    == Error::Io(IoError::Os(code)))
                &&& (outcome is Success && buf.spec_capacity() == 0 ==> e.spec_error()
                    == Error::Io(IoError::InvalidInput))
                &&& (outcome is Success && buf.spec_capacity() > 0 ==> (e.spec_error() matches Error::Utf8(u)
                    && utf8_error_at(secret_of(buf.region()), u.valid_up_to as int)))
            },
        },
{
    let ghost region = buf.region();
    match outcome {
        PrimitiveOutcome::Failure(code) => {
            let mut b = buf;
            b.zeroize();
            Err(IntoError::new(Error::Io(IoError::Os(code)), b))
        },
        PrimitiveOutcome::Success => {
            if buf.capacity() == 0 {
                let mut b = buf;
                b.zeroize();
                Err(IntoError::new(Error::Io(IoError::InvalidInput), b))
            } else {
                let v = buf.into_vec();
                let n = v.len();
                proof {
                    assert(v@.subrange(0, n as int) =~= region);
                }
                match find_terminator(v.as_slice(), n) {
                    Some(p) => {
                        proof {
                            lemma_terminator_at_pos(region, p as int);
                            assert(v@.subrange(0, p as int) =~= secret_of(region));
                        }
                        match validate_utf8(v.as_slice(), p) {
                            Ok(()) => Ok(SecretString::adopt(v, p)),
                            Err(vu) => {
                                let mut b = SecretBuf::from_filled(v);
                                b.zeroize();
                                Err(
                                    IntoError::new(
                                        Error::Utf8(Utf8Error { valid_up_to: vu }),
                                        b,
                                    ),
                                )
                            },
                        }
                    },
                    None => {
                        // Unreachable: the primitive's contract says the
                        // terminator exists in the written region.
                        proof {
                            assert(false);
                        }
                        let mut b = SecretBuf::from_filled(v);
                        b.zeroize();
                        Err(IntoError::new(Error::Io(IoError::InvalidInput), b))
                    },
                }
            }
        },
    }
}

/// Relies on `str::from_utf8`: a byte slice that is valid UTF-8 converts
/// in place to the string slice whose encoding is exactly those bytes, and
/// the conversion cannot fail on such input.
#[verifier::external_body]
fn bytes_as_str(v: &[u8]) -> (r: &str)
    requires
        valid_utf8(v@),
    ensures
        r.spec_bytes() == v@,
{
    std::str::from_utf8(v).unwrap()
}

/// Read a secret through the borrow shape: the caller keeps ownership of
/// the buffer the primitive filled, and a successful call returns the
/// secret as a text view borrowed from that same buffer — the prefix up to
/// the terminator, alive exactly as long as the caller's own buffer.
///
/// Nothing is copied and nothing is erased here: on failure the buffer's
/// contents are the caller's to erase, since the caller never gave up
/// ownership.
pub fn readpassphrase<'a>(buf: &'a [u8], outcome: PrimitiveOutcome) -> (r: Result<&'a str, Error>)
    requires
        outcome is Success && buf@.len() > 0 ==> contains_nul(buf@),
    ensures
        r is Ok <==> (outcome is Success && buf@.len() > 0 && valid_utf8(secret_of(buf@))),
        match r {
            Ok(text) => {
                &&& text.spec_bytes() == secret_of(buf@)
                &&& text.spec_bytes().len() == terminator_pos(buf@)
                &&& valid_utf8(text.spec_bytes())
                &&& text.spec_bytes().len() < buf@.len()
            },
            Err(e) => {
                &&& (outcome matches PrimitiveOutcome::Failure(code) ==> e == Error::Io(
                    IoError::Os(code),
                ))
                &&& (outcome is Success && buf@.len() == 0 ==> e == Error::Io(
                    IoError::InvalidInput,
                ))
                &&& (outcome is Success && buf@.len() > 0 ==> (e matches Error::Utf8(u)
                    && utf8_error_at(secret_of(buf@), u.valid_up_to as int)))
            },
        },
{
    match outcome {
        PrimitiveOutcome::Failure(code) => Err(Error::Io(IoError::Os(code))),
        PrimitiveOutcome::Success => {
            let n = buf.len();
            if n == 0 {
                return Err(Error::Io(IoError::InvalidInput));
            }
            proof {
                assert(buf@.subrange(0, n as int) =~= buf@);
            }
            match find_terminator(buf, n) {
                Some(p) => {
                    proof {
                        lemma_terminator_at_pos(buf@, p as int);
                        assert(buf@.subrange(0, p as int) =~= secret_of(buf@));
                    }
                    match validate_utf8(buf, p) {
                        Ok(()) => {
                            let prefix: &[u8] = &buf[0..p];
                            Ok(bytes_as_str(prefix))
                        },
                        Err(vu) => Err(Error::Utf8(Utf8Error { valid_up_to: vu })),
                    }
                },
                None => {
                    // Unreachable: the primitive's contract says the
                    // terminator exists in the written region.
                    proof {
                        assert(false);
                    }
                    Err(Error::Io(IoError::InvalidInput))
                },
            }
        },
    }
}

/// Read a secret through the transfer shape and fold the buffer away: any
/// error comes back as a plain [`Error`], and the carried buffer — already
/// erased down to its declared capacity — is released on the spot.
pub fn getpass(buf: SecretBuf, outcome: PrimitiveOutcome) -> (r: Result<SecretString, Error>)
    requires
        buf.wf(),
        outcome is Success && buf.spec_capacity() > 0 ==> contains_nul(buf.region()),
    ensures
        r is Ok <==> (outcome is Success && buf.spec_capacity() > 0 && valid_utf8(
            secret_of(buf.region()),
        )),
        match r {
            Ok(text) => {
                &&& text.wf()
                &&& text.region() == buf.region()
                &&& text.spec_len() == terminator_pos(buf.region())
                &&& text.contents() == secret_of(buf.region())
                &&& text.spec_len() < buf.spec_capacity()
            },
            Err(e) => {
                &&& (outcome matches PrimitiveOutcome::Failure(code) ==> e == Error::Io(
                    IoError::Os(code),
                ))
                &&& (outcome is Success && buf.spec_capacity() == 0 ==> e == Error::Io(
                    IoError::InvalidInput,
                ))
                &&& (outcome is Success && buf.spec_capacity() > 0 ==> (e matches Error::Utf8(u)
                    && utf8_error_at(secret_of(buf.region()), u.valid_up_to as int)))
            },
        },
{
    match readpassphrase_into(buf, outcome) {
        Ok(text) => Ok(text),
        Err(e) => Err(Error::from(e)),
    }
}

} // verus!

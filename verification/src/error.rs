//! The failure taxonomy and the error value that carries the buffer back.

use vstd::prelude::*;

use crate::buffer::SecretBuf;

verus! {

/// Why the external primitive's call failed.
#[derive(Clone, Copy, Debug, PartialEq, Eq, Structural)]
pub enum IoError {
    /// The buffer offered to the primitive had no usable capacity.
    InvalidInput,
    /// The primitive itself reported failure; the payload is the platform's
    /// last reported error code.
    Os(i32),
}

/// Why the secret byte run was rejected as text.
///
/// `valid_up_to` is the decode diagnostic: the bytes before it are valid
/// UTF-8, and no well-formed scalar encoding starts at it.
#[derive(Clone, Copy, Debug, PartialEq, Eq, Structural)]
pub struct Utf8Error {
    pub valid_up_to: usize,
}

/// Errors that can occur while reading a secret.
#[derive(Clone, Copy, Debug, PartialEq, Eq, Structural)]
pub enum Error {
    /// The external primitive failed, or was handed no usable capacity.
    Io(IoError),
    /// The entered secret was not UTF-8.
    Utf8(Utf8Error),
}

impl From<IoError> for Error {
    fn from(v: IoError) -> (r: Error) {
        Error::Io(v)
    }
}

impl vstd::std_specs::convert::FromSpecImpl<IoError> for Error {
    open spec fn obeys_from_spec() -> bool {
        true
    }

    open spec fn from_spec(v: IoError) -> Error {
        Error::Io(v)
    }
}

impl From<Utf8Error> for Error {
    fn from(v: Utf8Error) -> (r: Error) {
        Error::Utf8(v)
    }
}

impl vstd::std_specs::convert::FromSpecImpl<Utf8Error> for Error {
    open spec fn obeys_from_spec() -> bool {
        true
    }

    open spec fn from_spec(v: Utf8Error) -> Error {
        Error::Utf8(v)
    }
}

/// An [`Error`] that carries the caller's buffer back after a failed
/// ownership-transferring read.
///
/// The buffer it holds has already been erased: its logical length is zero
/// and every byte of its declared capacity is zero. Because of that, a
/// caller that discards the value without reclaiming the buffer leaks no
/// secret byte — the teardown releases an already-zero region.
#[derive(Debug)]
pub struct IntoError {
    err: Error,
    buf: Option<SecretBuf>,
}

impl IntoError {
    /// The failure reason carried by this value.
    pub closed spec fn spec_error(&self) -> Error {
        self.err
    }

    /// The buffer carried by this value, if it has not been reclaimed.
    pub closed spec fn spec_buf(&self) -> Option<SecretBuf> {
        self.buf
    }

    /// True while the buffer has not been reclaimed.
    pub open spec fn has_buffer_spec(&self) -> bool {
        self.spec_buf() is Some
    }

    /// Any buffer this value holds has been erased down to its capacity.
    pub open spec fn wf(&self) -> bool {
        self.spec_buf() matches Some(b) ==> b.wf() && b.erased()
    }

    /// Wrap a failure reason together with an already-erased buffer.
    pub(crate) fn new(err: Error, buf: SecretBuf) -> (r: IntoError)
        requires
            buf.wf(),
            buf.erased(),
        ensures
            r.wf(),
            r.spec_error() == err,
            r.spec_buf() == Some(buf),
    {
        IntoError { err, buf: Some(buf) }
    }

    /// The [`Error`] corresponding to this value.
    pub fn error(&self) -> (r: &Error)
        ensures
            *r == self.spec_error(),
    {
        &self.err
    }

    /// True while the buffer has not been reclaimed.
    pub fn has_buffer(&self) -> (r: bool)
        ensures
            r == self.has_buffer_spec(),
    {
        self.buf.is_some()
    }

    /// Reclaim the buffer, consuming the error value.
    pub fn into_bytes(self) -> (r: SecretBuf)
        requires
            self.has_buffer_spec(),
        ensures
            Some(r) == self.spec_buf(),
    {
        match self.buf {
            Some(b) => b,
            // Unreachable: the precondition says the buffer is still here.
            None => SecretBuf::empty(),
        }
    }

    /// Reclaim the buffer, leaving the error value behind.
    ///
    /// The first call returns the carried buffer; any later call returns a
    /// fresh buffer of capacity zero instead of aliasing the first.
    pub fn take(&mut self) -> (r: SecretBuf)
        ensures
            final(self).spec_error() == old(self).spec_error(),
            final(self).spec_buf() is None,
            final(self).wf(),
            old(self).spec_buf() matches Some(b) ==> r == b,
            old(self).spec_buf() is None ==> r.wf() && r.erased() && r.spec_capacity() == 0,
    {
        match self.buf.take() {
            Some(b) => b,
            None => SecretBuf::empty(),
        }
    }
}

impl From<IntoError> for Error {
    fn from(v: IntoError) -> (r: Error) {
        v.err
    }
}

impl vstd::std_specs::convert::FromSpecImpl<IntoError> for Error {
    open spec fn obeys_from_spec() -> bool {
        true
    }

    open spec fn from_spec(v: IntoError) -> Error {
        v.spec_error()
    }
}

} // verus!

//! Signatures of authors and committers.
use vstd::prelude::*;
use vstd::string::StringSliceAdditionalSpecFns;
use vstd::utf8::valid_utf8;
use crate::text::str_from_utf8;

verus! {

/// A person's name and email address, with the time of the action.
pub struct Signature {
    name: Vec<u8>,
    email: Vec<u8>,
    seconds: i64,
    offset_minutes: i32,
}

/// The abstract value of a signature.
pub struct SignatureView {
    pub name: Seq<u8>,
    pub email: Seq<u8>,
    pub seconds: i64,
    pub offset_minutes: i32,
}

impl View for Signature {
    type V = SignatureView;

    closed spec fn view(&self) -> SignatureView {
        SignatureView {
            name: self.name@,
            email: self.email@,
            seconds: self.seconds,
            offset_minutes: self.offset_minutes,
        }
    }
}

/// `r` is the text of `bytes` when they are valid UTF-8, and an error otherwise.
pub open spec fn spec_text_of(bytes: Seq<u8>, r: Result<&str, std::str::Utf8Error>) -> bool {
    match r {
        Ok(s) => valid_utf8(bytes) && s.spec_bytes() == bytes,
        Err(_) => !valid_utf8(bytes),
    }
}

impl Signature {
    /// Creates a signature from its name, its email, and the time of the
    /// action: seconds since the epoch and the offset from UTC in minutes.
    pub fn from_parts(name: Vec<u8>, email: Vec<u8>, seconds: i64, offset_minutes: i32) -> (s:
        Signature)
        ensures
            s@ == (SignatureView { name: name@, email: email@, seconds, offset_minutes }),
    {
        Signature { name, email, seconds, offset_minutes }
    }

    /// Gets the name on the signature as a byte slice.
    pub fn name_bytes(&self) -> (b: &[u8])
        ensures
            b@ == self@.name,
    {
        self.name.as_slice()
    }

    /// Gets the email on the signature as a byte slice.
    pub fn email_bytes(&self) -> (b: &[u8])
        ensures
            b@ == self@.email,
    {
        self.email.as_slice()
    }

    /// Gets the name on the signature; an error if it is not valid UTF-8.
    pub fn name(&self) -> (r: Result<&str, std::str::Utf8Error>)
        ensures
            spec_text_of(self@.name, r),
    {
        str_from_utf8(self.name.as_slice())
    }

    /// Gets the email on the signature; an error if it is not valid UTF-8.
    pub fn email(&self) -> (r: Result<&str, std::str::Utf8Error>)
        ensures
            spec_text_of(self@.email, r),
    {
        str_from_utf8(self.email.as_slice())
    }

    /// Seconds since the epoch of the time of the action.
    pub fn seconds(&self) -> (t: i64)
        ensures
            t == self@.seconds,
    {
        self.seconds
    }

    /// Offset from UTC of the time of the action, in minutes.
    pub fn offset_minutes(&self) -> (m: i32)
        ensures
            m == self@.offset_minutes,
    {
        self.offset_minutes
    }
}

} // verus!

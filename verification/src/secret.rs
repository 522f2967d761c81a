//! A secret-bearing string value.
//!
//! The wrapper keeps the raw value behind one explicitly named accessor and
//! offers a fixed redaction marker for any diagnostic output. The type
//! deliberately implements no generic formatting trait, so no derived
//! diagnostic path can render the value.

use vstd::prelude::*;

verus! {

/// A string whose value must never reach logs or diagnostics in cleartext.
pub struct Secret {
    value: String,
}

impl View for Secret {
    type V = Seq<char>;

    closed spec fn view(&self) -> Seq<char> {
        self.value@
    }
}

impl Secret {
    /// Wraps a raw string as a secret.
    pub fn new(value: String) -> (r: Secret)
        ensures
            r@ == value@,
    {
        Secret { value }
    }

    /// The one deliberate way to read the raw value.
    pub fn expose_secret(&self) -> (r: &str)
        ensures
            r@ == self@,
    {
        self.value.as_str()
    }

    /// A fixed placeholder for diagnostics; independent of the wrapped value.
    pub fn redacted(&self) -> (r: &'static str)
        ensures
            r@ == "[REDACTED]"@,
    {
        "[REDACTED]"
    }
}

impl Clone for Secret {
    fn clone(&self) -> (r: Self)
        ensures
            r@ == self@,
    {
        Secret { value: self.value.clone() }
    }
}

} // verus!

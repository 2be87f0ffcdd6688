//! Numbers with a fraction, held as text.

use vstd::prelude::*;

verus! {

/// A floating-point number by its shortest decimal form, such as `0.99`, `2` or `0.0003`.
#[derive(Debug, PartialEq)]
pub struct Real {
    pub text: String,
}

impl Real {
    /// Makes a number of its decimal form.
    pub fn of(text: &str) -> (r: Self)
        ensures
            r.text@ == text@,
    {
        Real { text: text.to_owned() }
    }
}

impl Clone for Real {
    fn clone(&self) -> (r: Self)
        ensures
            r == *self,
    {
        Real { text: self.text.clone() }
    }
}

} // verus!

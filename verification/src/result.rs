use vstd::prelude::*;

verus! {

/// The error of every fallible operation of the hub: a message.
#[derive(Clone, PartialEq, Eq, Debug)]
pub struct RHomeError {
    s: String,
}

/// A result whose error is an [`RHomeError`].
pub type RHomeResult<T> = Result<T, RHomeError>;

impl RHomeError {
    /// The message that this error carries.
    pub closed spec fn message(&self) -> Seq<char> {
        self.s@
    }

    /// An error carrying the message `s`.
    pub fn new(s: String) -> (e: Self)
        ensures
            e.message() == s@,
    {
        RHomeError { s }
    }

    /// The message of this error, as text.
    pub fn text(&self) -> (r: String)
        ensures
            r@ == self.message(),
    {
        self.s.clone()
    }
}

} // verus!

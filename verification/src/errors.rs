use vstd::prelude::*;

verus! {

/// An error carried out of an input/output step, holding only a message for
/// the user.
pub struct IoError {
    message: String,
}

impl View for IoError {
    type V = Seq<char>;

    closed spec fn view(&self) -> Seq<char> {
        self.message@
    }
}

impl IoError {
    pub fn new(message: String) -> (r: Self)
        ensures
            r@ == message@,
    {
        Self { message }
    }

    /// The stored message, surrendered.
    pub fn message(self) -> (r: String)
        ensures
            r@ == self@,
    {
        self.message
    }
}

} // verus!

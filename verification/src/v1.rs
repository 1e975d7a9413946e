//! The first version of the HTTP interface: what its handlers answer.

use vstd::prelude::*;

verus! {

/// The greeting that the index of the interface answers with.
#[derive(Clone, Debug, PartialEq, Eq)]
pub struct Hellow {
    msg: String,
}

impl View for Hellow {
    type V = Seq<char>;

    closed spec fn view(&self) -> Seq<char> {
        self.msg@
    }
}

impl Hellow {
    /// The text of the greeting.
    pub fn msg(&self) -> (text: &str)
        ensures
            text@ == self@,
    {
        self.msg.as_str()
    }
}

/// The answer of the index: the greeting `hi`.
pub fn index() -> (greeting: Hellow)
    ensures
        greeting@ == "hi"@,
{
    Hellow { msg: "hi".to_owned() }
}

} // verus!

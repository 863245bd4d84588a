use vstd::prelude::*;

verus! {

/// A borrowed sequence of instruction words, ready to be run.
///
/// `Env::verify` makes one from words that pass its checks.
#[derive(Debug, Clone, Copy, PartialEq, Eq)]
pub struct Program<'a> {
    data: &'a [u64],
}

impl<'a> View for Program<'a> {
    type V = Seq<u64>;

    closed spec fn view(&self) -> Seq<u64> {
        self.data@
    }
}

impl<'a> Program<'a> {
    /// Wraps `data` without verifying it.
    ///
    /// This bypasses every check of the verifier: the interpreter still
    /// stops with an error on an instruction that it cannot execute, but
    /// nothing is known in advance of such a program.
    pub fn from_raw(data: &'a [u64]) -> (r: Program<'a>)
        ensures
            r@ == data@,
    {
        Program { data }
    }

    /// The instruction words.
    pub fn words(&self) -> (r: &'a [u64])
        ensures
            r@ == self@,
    {
        self.data
    }
}

} // verus!

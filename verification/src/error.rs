//! The one error type of the pipeline.

use vstd::prelude::*;
use vstd::string::*;

verus! {

/// What went wrong, in English. The wording is the only classification there
/// is: each stage has fixed phrasings, and callers print the message as it is.
#[derive(Debug, PartialEq, Eq)]
pub struct ProgramError {
    pub message: String,
}

impl View for ProgramError {
    type V = Seq<char>;

    open spec fn view(&self) -> Seq<char> {
        self.message@
    }
}

impl ProgramError {
    /// An error that carries `message` unchanged.
    pub fn new(message: String) -> (error: ProgramError)
        ensures
            error@ == message@,
    {
        ProgramError { message }
    }
}

/// A result that carries text, as mathematics: the text's characters, or the
/// error's message.
pub open spec fn text_outcome(result: Result<String, ProgramError>) -> Result<
    Seq<char>,
    Seq<char>,
> {
    match result {
        Ok(text) => Ok(text@),
        Err(error) => Err(error@),
    }
}

} // verus!

//! The prompt shown before input is read: its text and whether it is
//! printed again before every retry.

use vstd::prelude::*;

verus! {

/// A prompt message together with the flag that decides whether the
/// prompt is repeated before every retry of the read loop.
#[derive(Clone)]
pub struct PromptMsg {
    /// The text written to the output sink.
    pub msg: String,
    /// When true the prompt is printed again before each retry.
    pub repeat: bool,
}

/// The mathematical content of a [`PromptMsg`]: the text as a sequence of
/// characters and the repeat flag.
pub struct PromptModel {
    /// The prompt text.
    pub msg: Seq<char>,
    /// When true the prompt is printed again before each retry.
    pub repeat: bool,
}

impl View for PromptMsg {
    type V = PromptModel;

    open spec fn view(&self) -> PromptModel {
        PromptModel { msg: self.msg@, repeat: self.repeat }
    }
}

impl PromptMsg {
    /// An empty, non-repeating prompt.
    pub fn new() -> (r: Self)
        ensures
            r@.msg == Seq::<char>::empty(),
            !r@.repeat,
    {
        Self { msg: String::new(), repeat: false }
    }

    /// A non-repeating prompt with the given text.
    pub fn from_str(s: &str) -> (r: Self)
        ensures
            r@.msg == s@,
            !r@.repeat,
    {
        Self { msg: s.to_owned(), repeat: false }
    }

    /// A prompt with the given text that is repeated before every retry.
    pub fn repeat_from_str(s: &str) -> (r: Self)
        ensures
            r@.msg == s@,
            r@.repeat,
    {
        Self { msg: s.to_owned(), repeat: true }
    }
}

} // verus!

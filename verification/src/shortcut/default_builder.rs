//! Input settings tailored to specific target types: a suitable
//! repeating prompt and fallback error message for each.

use vstd::prelude::*;

use crate::prompt_msg::PromptModel;
use crate::shortcut::input;
use crate::stream::{Sink, Source};
use crate::target::{InputTarget, MapperModel};
use crate::{InputBuild, InputBuilder};

verus! {

/// A target type with specifically tailored input settings: a
/// repeating prompt naming what to type, and a matching fallback
/// error message, with no tests and the standard streams.
pub trait DefaultBuilderSettings: InputTarget {
    /// The prompt text tailored to this type.
    spec fn tailored_prompt() -> Seq<char>;

    /// The fallback error message tailored to this type.
    spec fn tailored_err() -> Seq<char>;

    /// The tailored settings for this type.
    fn settings() -> (r: InputBuilder<Self>)
        ensures
            r.prompt_of() == (PromptModel { msg: Self::tailored_prompt(), repeat: true }),
            r.err_of() == Self::tailored_err(),
            r.tests_of() == Seq::<crate::TestModel<Self>>::empty(),
            r.mapper_of() == MapperModel::Ignore,
            r.source_of() == Source::Stdin,
            r.sink_of() == Sink::Stdout,
    ;
}

impl DefaultBuilderSettings for bool {
    open spec fn tailored_prompt() -> Seq<char> {
        "Please input true or false: "@
    }

    open spec fn tailored_err() -> Seq<char> {
        "Only type true or false."@
    }

    fn settings() -> (r: InputBuilder<Self>) {
        input().repeat_msg("Please input true or false: ").err("Only type true or false.")
    }
}

impl DefaultBuilderSettings for char {
    open spec fn tailored_prompt() -> Seq<char> {
        "Please input a character: "@
    }

    open spec fn tailored_err() -> Seq<char> {
        "Only type a single character."@
    }

    fn settings() -> (r: InputBuilder<Self>) {
        input().repeat_msg("Please input a character: ").err("Only type a single character.")
    }
}

impl DefaultBuilderSettings for i32 {
    open spec fn tailored_prompt() -> Seq<char> {
        "Please input an integer: "@
    }

    open spec fn tailored_err() -> Seq<char> {
        "Only type integers."@
    }

    fn settings() -> (r: InputBuilder<Self>) {
        input().repeat_msg("Please input an integer: ").err("Only type integers.")
    }
}

impl DefaultBuilderSettings for i64 {
    open spec fn tailored_prompt() -> Seq<char> {
        "Please input an integer: "@
    }

    open spec fn tailored_err() -> Seq<char> {
        "Only type integers."@
    }

    fn settings() -> (r: InputBuilder<Self>) {
        input().repeat_msg("Please input an integer: ").err("Only type integers.")
    }
}

impl DefaultBuilderSettings for u32 {
    open spec fn tailored_prompt() -> Seq<char> {
        "Please input a positive integer: "@
    }

    open spec fn tailored_err() -> Seq<char> {
        "Only type positive integers."@
    }

    fn settings() -> (r: InputBuilder<Self>) {
        input().repeat_msg("Please input a positive integer: ").err(
            "Only type positive integers.",
        )
    }
}

impl DefaultBuilderSettings for u64 {
    open spec fn tailored_prompt() -> Seq<char> {
        "Please input a positive integer: "@
    }

    open spec fn tailored_err() -> Seq<char> {
        "Only type positive integers."@
    }

    fn settings() -> (r: InputBuilder<Self>) {
        input().repeat_msg("Please input a positive integer: ").err(
            "Only type positive integers.",
        )
    }
}

/// Works like [`crate::shortcut::input`] but uses the settings that
/// [`DefaultBuilderSettings`] tailors to the target type.
pub fn input_new_d<T: DefaultBuilderSettings>() -> (r: InputBuilder<T>)
    ensures
        r.prompt_of() == (PromptModel { msg: T::tailored_prompt(), repeat: true }),
        r.err_of() == T::tailored_err(),
        r.tests_of() == Seq::<crate::TestModel<T>>::empty(),
        r.mapper_of() == MapperModel::Ignore,
        r.source_of() == Source::Stdin,
        r.sink_of() == Sink::Stdout,
{
    T::settings()
}

} // verus!

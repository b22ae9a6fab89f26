//! Shortcut functions for simple situations, avoiding the full
//! builder chain.

pub mod default_builder;

use vstd::prelude::*;

use crate::engine::{lemma_run_ok_validates, lemma_singleton_first_failing, run_model};
use crate::is_in_func::{pred_holds, IsInFunc};
use crate::stream::ReadError;
use crate::target::{ErrorMapper, InputTarget, MapperModel};
use crate::text::split_lines_spec;
use crate::{InputBuild, InputBuilder};

pub use default_builder::{input_new_d, DefaultBuilderSettings};

verus! {

/// The configuration the shortcut runners execute under: a fresh
/// session with the given tests and everything else at its defaults.
pub open spec fn shortcut_session<T: InputTarget>(tests: Seq<crate::TestModel<T>>) -> crate::engine::SessionModel<T> {
    crate::engine::SessionModel {
        prompt: crate::prompt_msg::PromptModel { msg: Seq::empty(), repeat: false },
        fallback: crate::default_err_text(),
        tests,
        mapper: MapperModel::Ignore,
        default: None,
    }
}

/// A fresh session with generic, minimal settings.
pub fn input<T: InputTarget>() -> (r: InputBuilder<T>)
    ensures
        r.prompt_of() == (crate::prompt_msg::PromptModel {
            msg: Seq::<char>::empty(),
            repeat: false,
        }),
        r.err_of() == crate::default_err_text(),
        r.tests_of() == Seq::<crate::TestModel<T>>::empty(),
        r.mapper_of() == MapperModel::Ignore,
        r.default_of() == None::<T>,
        r.source_of() == crate::stream::Source::Stdin,
        r.sink_of() == crate::stream::Sink::Stdout,
{
    InputBuilder::new()
}

/// Works like [`input`] but uses the settings that
/// [`DefaultBuilderSettings`] tailors to the target type.
pub fn input_d<T: DefaultBuilderSettings>() -> (r: InputBuilder<T>)
    ensures
        r.prompt_of() == (crate::prompt_msg::PromptModel {
            msg: T::tailored_prompt(),
            repeat: true,
        }),
        r.err_of() == T::tailored_err(),
        r.tests_of() == Seq::<crate::TestModel<T>>::empty(),
        r.mapper_of() == MapperModel::Ignore,
        r.source_of() == crate::stream::Source::Stdin,
        r.sink_of() == crate::stream::Sink::Stdout,
{
    T::settings()
}

/// Fetches from the given text a value that the single test accepts,
/// re-prompting within the text's lines until one passes: the run is
/// exactly the run model of a fresh session carrying that one test.
pub fn valid_input<T: InputTarget, F: IsInFunc<T>>(test: F, text: &str) -> (r: Result<
    T,
    ReadError,
>)
    ensures
        r == run_model(
            shortcut_session(seq![crate::TestModel { pred: test.pred_of(), err: None }]),
            split_lines_spec(text@),
        ).outcome,
        r matches Ok(v) ==> pred_holds(test.pred_of(), v),
{
    let compiled = test.contains_func();
    let ghost pm = compiled.model();
    let mut session = input::<T>().add_test(compiled).reading_from(text);
    let ghost cfgm = session.session();
    let ghost lns = session.source.lines();
    let r = session.try_get();
    proof {
        assert(cfgm.tests =~= seq![crate::TestModel { pred: pm, err: None }]);
        assert(cfgm == shortcut_session(seq![crate::TestModel { pred: pm, err: None }]));
        if r is Ok {
            lemma_run_ok_validates(cfgm, lns);
            lemma_singleton_first_failing(pm, r.unwrap());
        }
    }
    r
}

/// Fetches from the given text a value inside the range or listed
/// values of the constraint: the run is exactly the run model of a
/// fresh session carrying that one compiled constraint.
pub fn input_inside<T: InputTarget, U: IsInFunc<T>>(constraint: U, text: &str) -> (r: Result<
    T,
    ReadError,
>)
    ensures
        r == run_model(
            shortcut_session(seq![crate::TestModel { pred: constraint.pred_of(), err: None }]),
            split_lines_spec(text@),
        ).outcome,
        r matches Ok(v) ==> pred_holds(constraint.pred_of(), v),
{
    let compiled = constraint.contains_func();
    let ghost pm = compiled.model();
    let mut session = input::<T>().inside(compiled).reading_from(text);
    let ghost cfgm = session.session();
    let ghost lns = session.source.lines();
    let r = session.try_get();
    proof {
        assert(cfgm.tests =~= seq![crate::TestModel { pred: pm, err: None }]);
        assert(cfgm == shortcut_session(seq![crate::TestModel { pred: pm, err: None }]));
        if r is Ok {
            lemma_run_ok_validates(cfgm, lns);
            lemma_singleton_first_failing(pm, r.unwrap());
        }
    }
    r
}

/// Fetches from the given text a value that parses, with no further
/// validation: the run is exactly the run model of a fresh session
/// with no tests.
pub fn simple_input<T: InputTarget>(text: &str) -> (r: Result<T, ReadError>)
    ensures
        r == run_model(shortcut_session(Seq::<crate::TestModel<T>>::empty()), split_lines_spec(text@)).outcome,
{
    let mut session = input::<T>().reading_from(text);
    session.try_get()
}

/// A mapper that quotes the parse failure's own description, for use
/// in [`InputBuild::err_match`].
pub fn with_display() -> (r: ErrorMapper)
    ensures
        r@ == MapperModel::Displayed,
{
    ErrorMapper::Displayed
}

/// A mapper that quotes the parse failure's own description; kept for
/// callers of the older naming — use [`with_display`] instead.
pub fn with_description() -> (r: ErrorMapper)
    ensures
        r@ == MapperModel::Described,
{
    ErrorMapper::Described
}

} // verus!

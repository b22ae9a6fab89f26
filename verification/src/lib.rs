//! A small library for reading a line of text, parsing it into a target
//! type, validating the parsed value against an ordered list of tests,
//! and re-prompting on failure until a valid value is produced.
//!
//! A session is configured through the builder types and executed with
//! their `get` / `try_get` operations; constraints — ranges, value
//! sets, exclusions — are compiled into uniform membership predicates
//! by the [`is_in_func`] module.

pub mod engine;
pub mod is_in_func;
pub mod line;
pub mod prompt_msg;
pub mod shortcut;
pub mod stream;
pub mod target;
pub mod text;

use vstd::prelude::*;

use crate::engine::{read_input, run_model, SessionModel};
use crate::is_in_func::{Bound, IsInFunc, Pred, PredModel, ValueRange};
use crate::prompt_msg::{PromptModel, PromptMsg};
use crate::stream::{ReadError, Sink, Source};
use crate::target::{ErrorMapper, InputTarget, MapperModel};
use crate::text::{split_lines, split_lines_spec};
use vstd::pervasive::unreached;

verus! {

/// One compiled validation unit: a membership predicate over the
/// parsed value, plus an optional message shown when the predicate
/// rejects it.
#[derive(Clone)]
pub struct Test<T> {
    /// The compiled predicate.
    pub func: Pred<T>,
    /// The message this test surfaces when it fails; `None` defers to
    /// the session's fallback message.
    pub err: Option<String>,
}

/// The mathematical content of a [`Test`].
pub struct TestModel<T> {
    /// The compiled predicate.
    pub pred: PredModel<T>,
    /// The message this test surfaces when it fails, if any.
    pub err: Option<Seq<char>>,
}

impl<T> Test<T> {
    /// The mathematical content of this test.
    pub open spec fn model(self) -> TestModel<T> {
        TestModel { pred: self.func.model(), err: self.err.deep_view() }
    }
}

/// The mathematical content of a list of tests, in declaration order.
pub open spec fn tests_model<T>(ts: Seq<Test<T>>) -> Seq<TestModel<T>> {
    ts.map_values(|t: Test<T>| t.model())
}

/// The fallback error message a fresh session starts with.
pub open spec fn default_err_text() -> Seq<char> {
    "That value does not pass. Please try again"@
}

/// The configuration operations shared by [`InputBuilder`] and
/// [`InputBuilderOnce`]. Each operation returns the updated
/// configuration and leaves every other setting as it was; the spec
/// observers below say which setting each operation touches.
pub trait InputBuild<T: InputTarget>: Sized {
    /// The prompt and its repeat flag.
    spec fn prompt_of(self) -> PromptModel;

    /// The fallback error message.
    spec fn err_of(self) -> Seq<char>;

    /// The compiled tests, in declaration order.
    spec fn tests_of(self) -> Seq<TestModel<T>>;

    /// The parse-failure mapper.
    spec fn mapper_of(self) -> MapperModel;

    /// The default value, if one is configured.
    spec fn default_of(self) -> Option<T>;

    /// The input source.
    spec fn source_of(self) -> Source;

    /// The output sink.
    spec fn sink_of(self) -> Sink;

    /// Sets a prompt that is printed once, when input is first
    /// requested.
    fn msg(self, msg: &str) -> (r: Self)
        ensures
            r.prompt_of() == (PromptModel { msg: msg@, repeat: false }),
            r.err_of() == self.err_of(),
            r.tests_of() == self.tests_of(),
            r.mapper_of() == self.mapper_of(),
            r.default_of() == self.default_of(),
            r.source_of() == self.source_of(),
            r.sink_of() == self.sink_of(),
    ;

    /// Sets a prompt that is printed before every attempt.
    fn repeat_msg(self, msg: &str) -> (r: Self)
        ensures
            r.prompt_of() == (PromptModel { msg: msg@, repeat: true }),
            r.err_of() == self.err_of(),
            r.tests_of() == self.tests_of(),
            r.mapper_of() == self.mapper_of(),
            r.default_of() == self.default_of(),
            r.source_of() == self.source_of(),
            r.sink_of() == self.sink_of(),
    ;

    /// Changes the fallback error message.
    fn err(self, err: &str) -> (r: Self)
        ensures
            r.err_of() == err@,
            r.prompt_of() == self.prompt_of(),
            r.tests_of() == self.tests_of(),
            r.mapper_of() == self.mapper_of(),
            r.default_of() == self.default_of(),
            r.source_of() == self.source_of(),
            r.sink_of() == self.sink_of(),
    ;

    /// Appends a validation test without a custom message.
    fn add_test(self, test: Pred<T>) -> (r: Self)
        ensures
            r.tests_of() == self.tests_of().push(
                TestModel { pred: test.model(), err: None },
            ),
            r.prompt_of() == self.prompt_of(),
            r.err_of() == self.err_of(),
            r.mapper_of() == self.mapper_of(),
            r.default_of() == self.default_of(),
            r.source_of() == self.source_of(),
            r.sink_of() == self.sink_of(),
    ;

    /// Appends a validation test with its own failure message.
    fn add_err_test(self, test: Pred<T>, err: &str) -> (r: Self)
        ensures
            r.tests_of() == self.tests_of().push(
                TestModel { pred: test.model(), err: Some(err@) },
            ),
            r.prompt_of() == self.prompt_of(),
            r.err_of() == self.err_of(),
            r.mapper_of() == self.mapper_of(),
            r.default_of() == self.default_of(),
            r.source_of() == self.source_of(),
            r.sink_of() == self.sink_of(),
    ;

    /// Removes every validation test added so far.
    fn clear_tests(self) -> (r: Self)
        ensures
            r.tests_of() == Seq::<TestModel<T>>::empty(),
            r.prompt_of() == self.prompt_of(),
            r.err_of() == self.err_of(),
            r.mapper_of() == self.mapper_of(),
            r.default_of() == self.default_of(),
            r.source_of() == self.source_of(),
            r.sink_of() == self.sink_of(),
    ;

    /// Sets the mapper that turns a parse failure into a custom
    /// message.
    fn err_match(self, err_match: ErrorMapper) -> (r: Self)
        ensures
            r.mapper_of() == err_match@,
            r.prompt_of() == self.prompt_of(),
            r.err_of() == self.err_of(),
            r.tests_of() == self.tests_of(),
            r.default_of() == self.default_of(),
            r.source_of() == self.source_of(),
            r.sink_of() == self.sink_of(),
    ;

    /// Appends the test compiled from a constraint description,
    /// without a custom message.
    fn inside<U: IsInFunc<T>>(self, constraint: U) -> (r: Self)
        ensures
            r.tests_of() == self.tests_of().push(
                TestModel { pred: constraint.pred_of(), err: None },
            ),
            r.prompt_of() == self.prompt_of(),
            r.err_of() == self.err_of(),
            r.mapper_of() == self.mapper_of(),
            r.default_of() == self.default_of(),
            r.source_of() == self.source_of(),
            r.sink_of() == self.sink_of(),
    ;

    /// Appends the test compiled from a constraint description, with
    /// its own failure message.
    fn inside_err<U: IsInFunc<T>>(self, constraint: U, err: &str) -> (r: Self)
        ensures
            r.tests_of() == self.tests_of().push(
                TestModel { pred: constraint.pred_of(), err: Some(err@) },
            ),
            r.prompt_of() == self.prompt_of(),
            r.err_of() == self.err_of(),
            r.mapper_of() == self.mapper_of(),
            r.default_of() == self.default_of(),
            r.source_of() == self.source_of(),
            r.sink_of() == self.sink_of(),
    ;

    /// Toggles whether the prompt is printed once or before every
    /// attempt.
    fn toggle_msg_repeat(self) -> (r: Self)
        ensures
            r.prompt_of() == (PromptModel {
                msg: self.prompt_of().msg,
                repeat: !self.prompt_of().repeat,
            }),
            r.err_of() == self.err_of(),
            r.tests_of() == self.tests_of(),
            r.mapper_of() == self.mapper_of(),
            r.default_of() == self.default_of(),
            r.source_of() == self.source_of(),
            r.sink_of() == self.sink_of(),
    ;

    /// Reads input from the given text instead of standard input; the
    /// text is split into newline-delimited lines.
    fn reading_from(self, text: &str) -> (r: Self)
        ensures
            r.source_of().is_buffer(),
            r.source_of().lines() == split_lines_spec(text@),
            r.prompt_of() == self.prompt_of(),
            r.err_of() == self.err_of(),
            r.tests_of() == self.tests_of(),
            r.mapper_of() == self.mapper_of(),
            r.default_of() == self.default_of(),
            r.sink_of() == self.sink_of(),
    ;

    /// Sends prompts and failure messages to the given sink instead of
    /// standard output.
    fn prompting_on(self, prompt_output: Sink) -> (r: Self)
        ensures
            r.sink_of() == prompt_output,
            r.prompt_of() == self.prompt_of(),
            r.err_of() == self.err_of(),
            r.tests_of() == self.tests_of(),
            r.mapper_of() == self.mapper_of(),
            r.default_of() == self.default_of(),
            r.source_of() == self.source_of(),
    ;

    /// Sends prompts and failure messages to standard error instead of
    /// standard output.
    fn prompting_on_stderr(self) -> (r: Self)
        ensures
            r.sink_of() == Sink::Stderr,
            r.prompt_of() == self.prompt_of(),
            r.err_of() == self.err_of(),
            r.tests_of() == self.tests_of(),
            r.mapper_of() == self.mapper_of(),
            r.default_of() == self.default_of(),
            r.source_of() == self.source_of(),
    ;
}

/// Convenience constraints, each a single compiled test appended to
/// the list: minimum, maximum, both, and exclusion of one value.
pub trait InputConstraints<T: InputTarget>: InputBuild<T> {
    /// Requires the value to be at least `min`.
    fn min(self, min: T) -> (r: Self)
        ensures
            r.tests_of() == self.tests_of().push(
                TestModel {
                    pred: PredModel::InRange(
                        ValueRange { start: Bound::Included(min), end: Bound::<T>::Unbounded },
                    ),
                    err: None,
                },
            ),
            r.prompt_of() == self.prompt_of(),
            r.err_of() == self.err_of(),
            r.mapper_of() == self.mapper_of(),
            r.default_of() == self.default_of(),
            r.source_of() == self.source_of(),
            r.sink_of() == self.sink_of(),
    ;

    /// Requires the value to be at least `min`, with a custom message.
    fn min_err(self, min: T, err: &str) -> (r: Self)
        ensures
            r.tests_of() == self.tests_of().push(
                TestModel {
                    pred: PredModel::InRange(
                        ValueRange { start: Bound::Included(min), end: Bound::<T>::Unbounded },
                    ),
                    err: Some(err@),
                },
            ),
            r.prompt_of() == self.prompt_of(),
            r.err_of() == self.err_of(),
            r.mapper_of() == self.mapper_of(),
            r.default_of() == self.default_of(),
            r.source_of() == self.source_of(),
            r.sink_of() == self.sink_of(),
    ;

    /// Requires the value to be at most `max`.
    fn max(self, max: T) -> (r: Self)
        ensures
            r.tests_of() == self.tests_of().push(
                TestModel {
                    pred: PredModel::InRange(
                        ValueRange { start: Bound::<T>::Unbounded, end: Bound::Included(max) },
                    ),
                    err: None,
                },
            ),
            r.prompt_of() == self.prompt_of(),
            r.err_of() == self.err_of(),
            r.mapper_of() == self.mapper_of(),
            r.default_of() == self.default_of(),
            r.source_of() == self.source_of(),
            r.sink_of() == self.sink_of(),
    ;

    /// Requires the value to be at most `max`, with a custom message.
    fn max_err(self, max: T, err: &str) -> (r: Self)
        ensures
            r.tests_of() == self.tests_of().push(
                TestModel {
                    pred: PredModel::InRange(
                        ValueRange { start: Bound::<T>::Unbounded, end: Bound::Included(max) },
                    ),
                    err: Some(err@),
                },
            ),
            r.prompt_of() == self.prompt_of(),
            r.err_of() == self.err_of(),
            r.mapper_of() == self.mapper_of(),
            r.default_of() == self.default_of(),
            r.source_of() == self.source_of(),
            r.sink_of() == self.sink_of(),
    ;

    /// Requires the value to lie in `[min, max]`.
    fn min_max(self, min: T, max: T) -> (r: Self)
        ensures
            r.tests_of() == self.tests_of().push(
                TestModel {
                    pred: PredModel::InRange(
                        ValueRange { start: Bound::Included(min), end: Bound::Included(max) },
                    ),
                    err: None,
                },
            ),
            r.prompt_of() == self.prompt_of(),
            r.err_of() == self.err_of(),
            r.mapper_of() == self.mapper_of(),
            r.default_of() == self.default_of(),
            r.source_of() == self.source_of(),
            r.sink_of() == self.sink_of(),
    ;

    /// Requires the value to lie in `[min, max]`, with a custom
    /// message.
    fn min_max_err(self, min: T, max: T, err: &str) -> (r: Self)
        ensures
            r.tests_of() == self.tests_of().push(
                TestModel {
                    pred: PredModel::InRange(
                        ValueRange { start: Bound::Included(min), end: Bound::Included(max) },
                    ),
                    err: Some(err@),
                },
            ),
            r.prompt_of() == self.prompt_of(),
            r.err_of() == self.err_of(),
            r.mapper_of() == self.mapper_of(),
            r.default_of() == self.default_of(),
            r.source_of() == self.source_of(),
            r.sink_of() == self.sink_of(),
    ;

    /// Rejects one value.
    fn not(self, this: T) -> (r: Self)
        ensures
            r.tests_of() == self.tests_of().push(
                TestModel { pred: PredModel::NotEq(this), err: None },
            ),
            r.prompt_of() == self.prompt_of(),
            r.err_of() == self.err_of(),
            r.mapper_of() == self.mapper_of(),
            r.default_of() == self.default_of(),
            r.source_of() == self.source_of(),
            r.sink_of() == self.sink_of(),
    ;

    /// Rejects one value, with a custom message.
    fn not_err(self, this: T, err: &str) -> (r: Self)
        ensures
            r.tests_of() == self.tests_of().push(
                TestModel { pred: PredModel::NotEq(this), err: Some(err@) },
            ),
            r.prompt_of() == self.prompt_of(),
            r.err_of() == self.err_of(),
            r.mapper_of() == self.mapper_of(),
            r.default_of() == self.default_of(),
            r.source_of() == self.source_of(),
            r.sink_of() == self.sink_of(),
    ;
}

/// The settings used to fetch one input value. `try_get` borrows the
/// settings mutably — only its source and sink change — so a session
/// can be run multiple times. This type has no default-value support;
/// [`InputBuilder::default`] converts it into the one-shot variant
/// that has.
#[derive(Clone)]
pub struct InputBuilder<T> {
    /// The prompt and its repeat flag.
    pub msg: PromptMsg,
    /// The fallback error message.
    pub err: String,
    /// The compiled tests, in declaration order.
    pub tests: Vec<Test<T>>,
    /// The parse-failure mapper.
    pub err_match: ErrorMapper,
    /// The input source.
    pub source: Source,
    /// The output sink.
    pub sink: Sink,
}

impl<T: InputTarget> InputBuilder<T> {
    /// The configuration this builder runs under: no default value.
    pub open spec fn session(self) -> SessionModel<T> {
        SessionModel {
            prompt: self.msg@,
            fallback: self.err@,
            tests: tests_model(self.tests@),
            mapper: self.err_match@,
            default: None,
        }
    }

    /// A fresh session: no prompt, the generic fallback message, no
    /// tests, no custom mapper, reading standard input and writing
    /// standard output.
    pub fn new() -> (r: Self)
        ensures
            r.prompt_of() == (PromptModel { msg: Seq::<char>::empty(), repeat: false }),
            r.err_of() == default_err_text(),
            r.tests_of() == Seq::<TestModel<T>>::empty(),
            r.mapper_of() == MapperModel::Ignore,
            r.default_of() == None::<T>,
            r.source_of() == Source::Stdin,
            r.sink_of() == Sink::Stdout,
    {
        let r = InputBuilder {
            msg: PromptMsg::new(),
            err: "That value does not pass. Please try again".to_owned(),
            tests: Vec::new(),
            err_match: ErrorMapper::Ignore,
            source: Source::Stdin,
            sink: Sink::Stdout,
        };
        proof {
            assert(r.tests_of() =~= Seq::<TestModel<T>>::empty());
        }
        r
    }

    /// Fetches the input: runs the whole retry loop on this session's
    /// source and sink. The source must be an in-memory buffer, and
    /// the run on it must succeed; `get` returns exactly the value the
    /// run model produces.
    pub fn get(&mut self) -> (r: T)
        requires
            old(self).source.is_buffer(),
            run_model(old(self).session(), old(self).source.lines()).outcome is Ok,
        ensures
            ({
                let m = run_model(old(self).session(), old(self).source.lines());
                &&& r == m.outcome.unwrap()
                &&& final(self).source.is_buffer()
                &&& final(self).source.lines() == m.left
                &&& old(self).sink.is_buffer() ==> final(self).sink.is_buffer()
                    && final(self).sink.chunks() == old(self).sink.chunks().push(old(self).msg@.msg)
                    + m.out
                &&& !old(self).sink.is_buffer() ==> final(self).sink == old(self).sink
            }),
            final(self).msg == old(self).msg,
            final(self).err == old(self).err,
            final(self).tests == old(self).tests,
            final(self).err_match == old(self).err_match,
            crate::engine::first_failing(tests_model(old(self).tests@), r) is None,
    {
        match self.try_get() {
            Ok(v) => v,
            Err(_) => unreached(),
        }
    }

    /// Fetches the input, surfacing a read failure instead of
    /// requiring the run to succeed. The run is exactly the run model
    /// of this session on the source's lines.
    pub fn try_get(&mut self) -> (r: Result<T, ReadError>)
        requires
            old(self).source.is_buffer(),
        ensures
            ({
                let m = run_model(old(self).session(), old(self).source.lines());
                &&& r == m.outcome
                &&& final(self).source.is_buffer()
                &&& final(self).source.lines() == m.left
                &&& old(self).sink.is_buffer() ==> final(self).sink.is_buffer()
                    && final(self).sink.chunks() == old(self).sink.chunks().push(old(self).msg@.msg)
                    + m.out
                &&& !old(self).sink.is_buffer() ==> final(self).sink == old(self).sink
            }),
            final(self).msg == old(self).msg,
            final(self).err == old(self).err,
            final(self).tests == old(self).tests,
            final(self).err_match == old(self).err_match,
            r matches Ok(v) ==> crate::engine::first_failing(
                tests_model(old(self).tests@),
                v,
            ) is None,
    {
        read_input(
            &self.msg,
            self.err.as_str(),
            None,
            &self.tests,
            &self.err_match,
            &mut self.source,
            &mut self.sink,
        )
    }

    /// Adds a default value, turning this session into the one-shot
    /// variant: the default is returned, unvalidated, when the
    /// submitted line is empty.
    pub fn default(self, default: T) -> (r: InputBuilderOnce<T>)
        ensures
            r.builder == self,
            r.default == Some(default),
    {
        InputBuilderOnce { builder: self, default: Some(default) }
    }

    /// Appends one compiled test with an optional custom message.
    fn test_err_opt(self, func: Pred<T>, err: Option<String>) -> (r: Self)
        ensures
            r.tests@ == self.tests@.push(Test { func, err }),
            r.msg == self.msg,
            r.err == self.err,
            r.err_match == self.err_match,
            r.source == self.source,
            r.sink == self.sink,
    {
        let mut tests = self.tests;
        tests.push(Test { func, err });
        InputBuilder {
            msg: self.msg,
            err: self.err,
            tests,
            err_match: self.err_match,
            source: self.source,
            sink: self.sink,
        }
    }
}

impl<T: InputTarget> InputBuild<T> for InputBuilder<T> {
    open spec fn prompt_of(self) -> PromptModel {
        self.msg@
    }

    open spec fn err_of(self) -> Seq<char> {
        self.err@
    }

    open spec fn tests_of(self) -> Seq<TestModel<T>> {
        tests_model(self.tests@)
    }

    open spec fn mapper_of(self) -> MapperModel {
        self.err_match@
    }

    open spec fn default_of(self) -> Option<T> {
        None
    }

    open spec fn source_of(self) -> Source {
        self.source
    }

    open spec fn sink_of(self) -> Sink {
        self.sink
    }

    fn msg(self, msg: &str) -> (r: Self) {
        InputBuilder {
            msg: PromptMsg::from_str(msg),
            err: self.err,
            tests: self.tests,
            err_match: self.err_match,
            source: self.source,
            sink: self.sink,
        }
    }

    fn repeat_msg(self, msg: &str) -> (r: Self) {
        InputBuilder {
            msg: PromptMsg::repeat_from_str(msg),
            err: self.err,
            tests: self.tests,
            err_match: self.err_match,
            source: self.source,
            sink: self.sink,
        }
    }

    fn err(self, err: &str) -> (r: Self) {
        InputBuilder {
            msg: self.msg,
            err: err.to_owned(),
            tests: self.tests,
            err_match: self.err_match,
            source: self.source,
            sink: self.sink,
        }
    }

    fn add_test(self, test: Pred<T>) -> (r: Self) {
        self.test_err_opt(test, None)
    }

    fn add_err_test(self, test: Pred<T>, err: &str) -> (r: Self) {
        self.test_err_opt(test, Some(err.to_owned()))
    }

    fn clear_tests(self) -> (r: Self) {
        let r = InputBuilder {
            msg: self.msg,
            err: self.err,
            tests: Vec::new(),
            err_match: self.err_match,
            source: self.source,
            sink: self.sink,
        };
        proof {
            assert(r.tests_of() =~= Seq::<TestModel<T>>::empty());
        }
        r
    }

    fn err_match(self, err_match: ErrorMapper) -> (r: Self) {
        InputBuilder {
            msg: self.msg,
            err: self.err,
            tests: self.tests,
            err_match,
            source: self.source,
            sink: self.sink,
        }
    }

    fn inside<U: IsInFunc<T>>(self, constraint: U) -> (r: Self) {
        self.test_err_opt(constraint.contains_func(), None)
    }

    fn inside_err<U: IsInFunc<T>>(self, constraint: U, err: &str) -> (r: Self) {
        self.test_err_opt(constraint.contains_func(), Some(err.to_owned()))
    }

    fn toggle_msg_repeat(self) -> (r: Self) {
        InputBuilder {
            msg: PromptMsg { msg: self.msg.msg, repeat: !self.msg.repeat },
            err: self.err,
            tests: self.tests,
            err_match: self.err_match,
            source: self.source,
            sink: self.sink,
        }
    }

    fn reading_from(self, text: &str) -> (r: Self) {
        InputBuilder {
            msg: self.msg,
            err: self.err,
            tests: self.tests,
            err_match: self.err_match,
            source: Source::Buffer(split_lines(text)),
            sink: self.sink,
        }
    }

    fn prompting_on(self, prompt_output: Sink) -> (r: Self) {
        InputBuilder {
            msg: self.msg,
            err: self.err,
            tests: self.tests,
            err_match: self.err_match,
            source: self.source,
            sink: prompt_output,
        }
    }

    fn prompting_on_stderr(self) -> (r: Self) {
        InputBuilder {
            msg: self.msg,
            err: self.err,
            tests: self.tests,
            err_match: self.err_match,
            source: self.source,
            sink: Sink::Stderr,
        }
    }
}

impl<T: InputTarget> InputConstraints<T> for InputBuilder<T> {
    fn min(self, min: T) -> (r: Self) {
        self.inside(ValueRange::at_least(min))
    }

    fn min_err(self, min: T, err: &str) -> (r: Self) {
        self.inside_err(ValueRange::at_least(min), err)
    }

    fn max(self, max: T) -> (r: Self) {
        self.inside(ValueRange::at_most(max))
    }

    fn max_err(self, max: T, err: &str) -> (r: Self) {
        self.inside_err(ValueRange::at_most(max), err)
    }

    fn min_max(self, min: T, max: T) -> (r: Self) {
        self.inside(ValueRange::inclusive(min, max))
    }

    fn min_max_err(self, min: T, max: T, err: &str) -> (r: Self) {
        self.inside_err(ValueRange::inclusive(min, max), err)
    }

    fn not(self, this: T) -> (r: Self) {
        self.add_test(Pred::NotEq(this))
    }

    fn not_err(self, this: T, err: &str) -> (r: Self) {
        self.add_err_test(Pred::NotEq(this), err)
    }
}

/// The one-shot variant of a session: the settings plus an optional
/// default value. Its `get` consumes the session, and an empty
/// submitted line yields the default, unvalidated.
#[derive(Clone)]
pub struct InputBuilderOnce<T> {
    /// The wrapped settings.
    pub builder: InputBuilder<T>,
    /// The value an empty line yields.
    pub default: Option<T>,
}

impl<T: InputTarget> InputBuilderOnce<T> {
    /// The configuration this session runs under: the wrapped
    /// settings, with the default value.
    pub open spec fn session(self) -> SessionModel<T> {
        SessionModel {
            prompt: self.builder.msg@,
            fallback: self.builder.err@,
            tests: tests_model(self.builder.tests@),
            mapper: self.builder.err_match@,
            default: self.default,
        }
    }

    /// Fetches the input, consuming the session. The source must be
    /// an in-memory buffer, and the run on it must succeed; `get`
    /// returns exactly the value the run model produces.
    pub fn get(self) -> (r: T)
        requires
            self.builder.source.is_buffer(),
            run_model(self.session(), self.builder.source.lines()).outcome is Ok,
        ensures
            r == run_model(self.session(), self.builder.source.lines()).outcome.unwrap(),
    {
        match self.try_get() {
            Ok(v) => v,
            Err(_) => unreached(),
        }
    }

    /// Fetches the input, consuming the session and surfacing a read
    /// failure instead of requiring the run to succeed.
    pub fn try_get(self) -> (r: Result<T, ReadError>)
        requires
            self.builder.source.is_buffer(),
        ensures
            r == run_model(self.session(), self.builder.source.lines()).outcome,
            r matches Ok(v) ==> (crate::engine::first_failing(
                tests_model(self.builder.tests@),
                v,
            ) is None || self.default == Some(v)),
    {
        let mut b = self.builder;
        read_input(
            &b.msg,
            b.err.as_str(),
            self.default,
            &b.tests,
            &b.err_match,
            &mut b.source,
            &mut b.sink,
        )
    }
}

impl<T: InputTarget> InputBuild<T> for InputBuilderOnce<T> {
    open spec fn prompt_of(self) -> PromptModel {
        self.builder.msg@
    }

    open spec fn err_of(self) -> Seq<char> {
        self.builder.err@
    }

    open spec fn tests_of(self) -> Seq<TestModel<T>> {
        tests_model(self.builder.tests@)
    }

    open spec fn mapper_of(self) -> MapperModel {
        self.builder.err_match@
    }

    open spec fn default_of(self) -> Option<T> {
        self.default
    }

    open spec fn source_of(self) -> Source {
        self.builder.source
    }

    open spec fn sink_of(self) -> Sink {
        self.builder.sink
    }

    fn msg(self, msg: &str) -> (r: Self) {
        InputBuilderOnce { builder: self.builder.msg(msg), default: self.default }
    }

    fn repeat_msg(self, msg: &str) -> (r: Self) {
        InputBuilderOnce { builder: self.builder.repeat_msg(msg), default: self.default }
    }

    fn err(self, err: &str) -> (r: Self) {
        InputBuilderOnce { builder: self.builder.err(err), default: self.default }
    }

    fn add_test(self, test: Pred<T>) -> (r: Self) {
        InputBuilderOnce { builder: self.builder.add_test(test), default: self.default }
    }

    fn add_err_test(self, test: Pred<T>, err: &str) -> (r: Self) {
        InputBuilderOnce { builder: self.builder.add_err_test(test, err), default: self.default }
    }

    fn clear_tests(self) -> (r: Self) {
        InputBuilderOnce { builder: self.builder.clear_tests(), default: self.default }
    }

    fn err_match(self, err_match: ErrorMapper) -> (r: Self) {
        InputBuilderOnce { builder: self.builder.err_match(err_match), default: self.default }
    }

    fn inside<U: IsInFunc<T>>(self, constraint: U) -> (r: Self) {
        InputBuilderOnce { builder: self.builder.inside(constraint), default: self.default }
    }

    fn inside_err<U: IsInFunc<T>>(self, constraint: U, err: &str) -> (r: Self) {
        InputBuilderOnce { builder: self.builder.inside_err(constraint, err), default: self.default }
    }

    fn toggle_msg_repeat(self) -> (r: Self) {
        InputBuilderOnce { builder: self.builder.toggle_msg_repeat(), default: self.default }
    }

    fn reading_from(self, text: &str) -> (r: Self) {
        InputBuilderOnce { builder: self.builder.reading_from(text), default: self.default }
    }

    fn prompting_on(self, prompt_output: Sink) -> (r: Self) {
        InputBuilderOnce { builder: self.builder.prompting_on(prompt_output), default: self.default }
    }

    fn prompting_on_stderr(self) -> (r: Self) {
        InputBuilderOnce { builder: self.builder.prompting_on_stderr(), default: self.default }
    }
}

impl<T: InputTarget> InputConstraints<T> for InputBuilderOnce<T> {
    fn min(self, min: T) -> (r: Self) {
        self.inside(ValueRange::at_least(min))
    }

    fn min_err(self, min: T, err: &str) -> (r: Self) {
        self.inside_err(ValueRange::at_least(min), err)
    }

    fn max(self, max: T) -> (r: Self) {
        self.inside(ValueRange::at_most(max))
    }

    fn max_err(self, max: T, err: &str) -> (r: Self) {
        self.inside_err(ValueRange::at_most(max), err)
    }

    fn min_max(self, min: T, max: T) -> (r: Self) {
        self.inside(ValueRange::inclusive(min, max))
    }

    fn min_max_err(self, min: T, max: T, err: &str) -> (r: Self) {
        self.inside_err(ValueRange::inclusive(min, max), err)
    }

    fn not(self, this: T) -> (r: Self) {
        self.add_test(Pred::NotEq(this))
    }

    fn not_err(self, this: T, err: &str) -> (r: Self) {
        self.add_err_test(Pred::NotEq(this), err)
    }
}

} // verus!


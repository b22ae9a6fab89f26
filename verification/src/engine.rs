//! The input session engine: handling one submitted line — parse,
//! validate, resolve the error message — and the read–parse–validate
//! retry loop, together with the mathematical model of a whole run.

use vstd::prelude::*;

use crate::is_in_func::pred_holds;
use crate::prompt_msg::PromptMsg;
use crate::stream::{ReadError, Sink, Source};
use crate::target::{mapper_msg_opt, ErrorMapper, InputTarget, MapperModel, ParseError};
use crate::text::{chars_of, trim, trim_spec};
use crate::{tests_model, Test, TestModel};

verus! {

/// The index of the first test that rejects `v`, if any.
pub open spec fn first_failing<T: InputTarget>(tests: Seq<TestModel<T>>, v: T) -> Option<int>
    decreases tests.len(),
{
    if tests.len() == 0 {
        None
    } else if !pred_holds(tests[0].pred, v) {
        Some(0int)
    } else {
        match first_failing(tests.drop_first(), v) {
            None => None,
            Some(i) => Some(i + 1),
        }
    }
}

/// The message a failing test surfaces: its own, or the fallback.
pub open spec fn test_msg<T>(t: TestModel<T>, fallback: Seq<char>) -> Seq<char> {
    match t.err {
        Some(m) => m,
        None => fallback,
    }
}

/// The message a parse failure surfaces: the mapper's answer, or the
/// fallback.
pub open spec fn parse_fail_msg(m: MapperModel, e: ParseError, fallback: Seq<char>) -> Seq<
    char,
> {
    match mapper_msg_opt(m, e) {
        Some(s) => s,
        None => fallback,
    }
}

/// What handling one submitted line yields: the parsed value when it
/// parses and every test accepts it, otherwise the message to print.
/// Tests are evaluated in declaration order and the first failing test
/// supplies the message.
pub open spec fn line_outcome<T: InputTarget>(
    line: Seq<char>,
    fallback: Seq<char>,
    tests: Seq<TestModel<T>>,
    mapper: MapperModel,
) -> Result<T, Seq<char>> {
    match T::parse_spec(trim_spec(line)) {
        Ok(v) => match first_failing(tests, v) {
            None => Ok(v),
            Some(i) => Err(test_msg(tests[i], fallback)),
        },
        Err(e) => Err(parse_fail_msg(mapper, e, fallback)),
    }
}

/// Evaluation order matches declaration order: no test fails iff every
/// test accepts the value, and the first failing index — the one whose
/// message is surfaced — rejects the value while every earlier test
/// accepts it.
pub proof fn lemma_first_failing<T: InputTarget>(tests: Seq<TestModel<T>>, v: T)
    ensures
        first_failing(tests, v) is None <==> (forall|j: int|
            0 <= j < tests.len() ==> pred_holds(tests[j].pred, v)),
        first_failing(tests, v) matches Some(i) ==> 0 <= i < tests.len() && !pred_holds(
            tests[i].pred,
            v,
        ) && (forall|j: int| 0 <= j < i ==> pred_holds(tests[j].pred, v)),
    decreases tests.len(),
{
    if tests.len() > 0 {
        let rest = tests.drop_first();
        lemma_first_failing(rest, v);
        assert(forall|j: int| 0 <= j < rest.len() ==> rest[j] == tests[j + 1]);
        if pred_holds(tests[0].pred, v) {
            match first_failing(rest, v) {
                None => {
                    assert forall|j: int| 0 <= j < tests.len() implies pred_holds(
                        tests[j].pred,
                        v,
                    ) by {
                        if j > 0 {
                            assert(rest[j - 1] == tests[j]);
                            assert(pred_holds(rest[j - 1].pred, v));
                        }
                    }
                },
                Some(i) => {
                    assert(first_failing(tests, v) == Some(i + 1));
                    assert(rest[i] == tests[i + 1]);
                    assert(!pred_holds(tests[i + 1].pred, v));
                    assert forall|j: int| 0 <= j < i + 1 implies pred_holds(
                        tests[j].pred,
                        v,
                    ) by {
                        if j > 0 {
                            assert(rest[j - 1] == tests[j]);
                            assert(pred_holds(rest[j - 1].pred, v));
                        }
                    }
                },
            }
        }
    }
}

/// The first index at which the pointwise outcomes locate a failure is
/// what [`first_failing`] returns.
pub proof fn lemma_first_failing_at<T: InputTarget>(tests: Seq<TestModel<T>>, v: T, i: int)
    requires
        0 <= i < tests.len(),
        !pred_holds(tests[i].pred, v),
        forall|j: int| 0 <= j < i ==> pred_holds(#[trigger] tests[j].pred, v),
    ensures
        first_failing(tests, v) == Some(i),
    decreases i,
{
    if i == 0 {
    } else {
        assert(pred_holds(tests[0].pred, v));
        assert(forall|j: int|
            0 <= j < tests.drop_first().len() ==> tests.drop_first()[j] == tests[j + 1]);
        lemma_first_failing_at(tests.drop_first(), v, i - 1);
    }
}

/// Handles one submitted line: trims it, parses it, evaluates the
/// tests in order, and resolves the message of the first failure —
/// the specific message when one exists, the fallback otherwise.
pub fn parse_input<T: InputTarget>(
    input: String,
    err: &str,
    tests: &Vec<Test<T>>,
    err_pass: &ErrorMapper,
) -> (r: Result<T, String>)
    ensures
        ({
            let m = line_outcome::<T>(input@, err@, tests_model(tests@), err_pass@);
            match (r, m) {
                (Ok(a), Ok(b)) => a == b,
                (Err(s), Err(t)) => s@ == t,
                _ => false,
            }
        }),
{
    let cs = chars_of(input.as_str());
    let t = trim(&cs);
    let ghost models = tests_model(tests@);
    match T::parse_from(&t) {
        Ok(value) => {
            let mut i: usize = 0;
            while i < tests.len()
                invariant
                    i <= tests@.len(),
                    models == tests_model(tests@),
                    T::parse_spec(trim_spec(input@)) == Ok::<T, ParseError>(value),
                    forall|j: int| 0 <= j < i ==> pred_holds(#[trigger] models[j].pred, value),
                decreases tests@.len() - i,
            {
                let cur: &Test<T> = &tests[i];
                if !cur.func.eval(&value) {
                    proof {
                        assert(models[i as int] == tests@[i as int].model());
                        lemma_first_failing_at(models, value, i as int);
                    }
                    let msg = match &cur.err {
                        Some(m) => m.clone(),
                        None => err.to_owned(),
                    };
                    return Err(msg);
                }
                proof {
                    assert(models[i as int] == tests@[i as int].model());
                }
                i = i + 1;
            }
            proof {
                lemma_first_failing(models, value);
            }
            Ok(value)
        },
        Err(e) => {
            let msg = match err_pass.apply(&e) {
                Some(m) => m,
                None => err.to_owned(),
            };
            Err(msg)
        },
    }
}

/// The configuration a run of the engine works under, in mathematical
/// form.
pub struct SessionModel<T> {
    /// The prompt text and its repeat flag.
    pub prompt: crate::prompt_msg::PromptModel,
    /// The fallback error message.
    pub fallback: Seq<char>,
    /// The compiled tests, in declaration order.
    pub tests: Seq<TestModel<T>>,
    /// The parse-failure mapper.
    pub mapper: MapperModel,
    /// The default value, present only for one-shot sessions.
    pub default: Option<T>,
}

/// What a whole run of the engine does on a given list of input lines:
/// its outcome, the lines left unread, and the chunks written to the
/// sink after the initial prompt.
pub struct RunModel<T> {
    /// The value produced, or the read failure that ended the run.
    pub outcome: Result<T, ReadError>,
    /// The input lines left unread.
    pub left: Seq<Seq<char>>,
    /// The chunks written after the initial prompt: for every failed
    /// attempt its message, a line break, and — when the prompt
    /// repeats — the prompt text again.
    pub out: Seq<Seq<char>>,
}

/// The engine's state machine on a list of input lines: each line is
/// read, the empty line returns the default when one is configured,
/// otherwise the line is parsed and validated; a failure prints its
/// message and retries on the next line; running out of lines is the
/// read failure.
pub open spec fn run_model<T: InputTarget>(cfg: SessionModel<T>, lines: Seq<Seq<char>>) -> RunModel<
    T,
>
    decreases lines.len(),
{
    if lines.len() == 0 {
        RunModel { outcome: Err(ReadError::EndOfInput), left: lines, out: Seq::empty() }
    } else {
        let line = lines[0];
        let rest = lines.drop_first();
        if trim_spec(line).len() == 0 && cfg.default is Some {
            RunModel { outcome: Ok(cfg.default.unwrap()), left: rest, out: Seq::empty() }
        } else {
            match line_outcome::<T>(line, cfg.fallback, cfg.tests, cfg.mapper) {
                Ok(v) => RunModel { outcome: Ok(v), left: rest, out: Seq::empty() },
                Err(msg) => {
                    let cont = run_model(cfg, rest);
                    let echo = if cfg.prompt.repeat {
                        seq![msg, "\n"@, cfg.prompt.msg]
                    } else {
                        seq![msg, "\n"@]
                    };
                    RunModel { outcome: cont.outcome, left: cont.left, out: echo + cont.out }
                },
            }
        }
    }
}

/// When a default value is configured and the submitted line is empty
/// after trimming, the run returns the default at once: nothing is
/// parsed, no test is evaluated — the tests play no part — and no
/// message is printed.
pub proof fn lemma_default_short_circuit<T: InputTarget>(
    cfg: SessionModel<T>,
    lines: Seq<Seq<char>>,
)
    requires
        lines.len() > 0,
        trim_spec(lines[0]).len() == 0,
        cfg.default is Some,
    ensures
        run_model(cfg, lines) == (RunModel {
            outcome: Ok::<T, ReadError>(cfg.default.unwrap()),
            left: lines.drop_first(),
            out: Seq::<Seq<char>>::empty(),
        }),
{
}

/// Without a default value an empty line is parsed like any other:
/// for an integer target the parse of the empty string fails, its
/// message is the mapper's answer to the empty-string failure or the
/// fallback, and the run continues on the remaining lines.
pub proof fn lemma_empty_line_parses_empty(cfg: SessionModel<i64>, lines: Seq<Seq<char>>)
    requires
        lines.len() > 0,
        trim_spec(lines[0]).len() == 0,
        cfg.default is None,
    ensures
        line_outcome::<i64>(lines[0], cfg.fallback, cfg.tests, cfg.mapper) == Err::<i64, Seq<char>>(
            parse_fail_msg(cfg.mapper, ParseError::Empty, cfg.fallback),
        ),
        run_model(cfg, lines).outcome == run_model(cfg, lines.drop_first()).outcome,
{
    assert(trim_spec(lines[0]) =~= Seq::<char>::empty());
}

/// A value a run produces was either the configured default or
/// accepted by every test: the engine never returns a value that some
/// test rejects, except the unvalidated default.
pub proof fn lemma_run_ok_validates<T: InputTarget>(cfg: SessionModel<T>, lines: Seq<Seq<char>>)
    ensures
        run_model(cfg, lines).outcome matches Ok(v) ==> (first_failing(cfg.tests, v) is None
            || cfg.default == Some(v)),
    decreases lines.len(),
{
    if lines.len() > 0 {
        let line = lines[0];
        if trim_spec(line).len() == 0 && cfg.default is Some {
        } else {
            match line_outcome::<T>(line, cfg.fallback, cfg.tests, cfg.mapper) {
                Ok(v) => {},
                Err(_) => {
                    lemma_run_ok_validates(cfg, lines.drop_first());
                },
            }
        }
    }
}

/// A list of one message-less test accepts a value exactly when its
/// predicate does.
pub proof fn lemma_singleton_first_failing<T: InputTarget>(
    pm: crate::is_in_func::PredModel<T>,
    v: T,
)
    ensures
        first_failing(seq![TestModel { pred: pm, err: None }], v) is None <==> pred_holds(pm, v),
{
    let ts = seq![TestModel { pred: pm, err: None }];
    assert(ts[0].pred == pm);
    assert(ts.drop_first().len() == 0);
    if pred_holds(pm, v) {
        assert(first_failing(ts.drop_first(), v) is None);
    }
}

/// Runs the read–parse–validate–retry loop: prints the prompt once,
/// then reads lines until one yields a value — the configured default
/// on an empty line, or a parsed value every test accepts — printing
/// one message per failed attempt, and repeating the prompt before
/// each retry when its flag is set. Only a read failure ends the loop
/// without a value.
///
/// The source must be an in-memory buffer, which bounds the retries;
/// a session on the standard streams is driven by the caller's own
/// read loop around [`parse_input`]. The run is exactly [`run_model`],
/// and a produced value passed every test unless it was the
/// configured default.
pub fn read_input<T: InputTarget>(
    prompt: &PromptMsg,
    err: &str,
    default: Option<T>,
    tests: &Vec<Test<T>>,
    err_pass: &ErrorMapper,
    source: &mut Source,
    sink: &mut Sink,
) -> (r: Result<T, ReadError>)
    requires
        old(source).is_buffer(),
    ensures
        ({
            let m = run_model(
                SessionModel {
                    prompt: prompt@,
                    fallback: err@,
                    tests: tests_model(tests@),
                    mapper: err_pass@,
                    default,
                },
                old(source).lines(),
            );
            &&& r == m.outcome
            &&& final(source).is_buffer()
            &&& final(source).lines() == m.left
            &&& old(sink).is_buffer() ==> final(sink).is_buffer() && final(sink).chunks() == old(
                sink,
            ).chunks().push(prompt@.msg) + m.out
        }),
        !old(sink).is_buffer() ==> *final(sink) == *old(sink),
        r matches Ok(v) ==> (first_failing(tests_model(tests@), v) is None || default == Some(v)),
{
    let ghost cfg = SessionModel {
        prompt: prompt@,
        fallback: err@,
        tests: tests_model(tests@),
        mapper: err_pass@,
        default,
    };
    let ghost lines0 = source.lines();
    let ghost chunks0 = sink.chunks();
    let ghost m0 = run_model(cfg, lines0);
    let mut pending_default = default;
    let ghost mut written: Seq<Seq<char>> = Seq::empty();
    sink.put(prompt.msg.as_str());
    sink.flush_now();
    proof {
        assert(written + m0.out =~= m0.out);
    }
    loop
        invariant
            cfg == (SessionModel {
                prompt: prompt@,
                fallback: err@,
                tests: tests_model(tests@),
                mapper: err_pass@,
                default,
            }),
            lines0 == old(source).lines(),
            chunks0 == old(sink).chunks(),
            m0 == run_model(cfg, lines0),
            pending_default == default,
            source.is_buffer(),
            ({
                let cur = run_model(cfg, source.lines());
                &&& m0.outcome == cur.outcome
                &&& m0.left == cur.left
                &&& m0.out == written + cur.out
            }),
            old(sink).is_buffer() ==> sink.is_buffer() && sink.chunks() == chunks0.push(
                prompt@.msg,
            ) + written,
            !old(sink).is_buffer() ==> *sink == *old(sink),
        decreases source.lines().len(),
    {
        let ghost lines_i = source.lines();
        let ghost cur_pre = run_model(cfg, lines_i);
        let line = match source.read_one() {
            Ok(l) => l,
            Err(e) => {
                return Err(e);
            },
        };
        let cs = chars_of(line.as_str());
        let t = trim(&cs);
        if t.len() == 0 {
            let taken = pending_default.take();
            if let Some(d) = taken {
                return Ok(d);
            }
        }
        match parse_input(line, err, tests, err_pass) {
            Ok(v) => {
                proof {
                    if old(source).is_buffer() {
                        assert(cur_pre.outcome == Ok::<T, ReadError>(v));
                    }
                    lemma_first_failing(tests_model(tests@), v);
                }
                return Ok(v);
            },
            Err(msg) => {
                let ghost emitted = if cfg.prompt.repeat {
                    seq![msg@, "\n"@, cfg.prompt.msg]
                } else {
                    seq![msg@, "\n"@]
                };
                sink.put(msg.as_str());
                sink.put("\n");
                if prompt.repeat {
                    sink.put(prompt.msg.as_str());
                    sink.flush_now();
                }
                proof {
                    if old(sink).is_buffer() {
                        assert(sink.chunks() =~= chunks0.push(prompt@.msg) + (written + emitted));
                    }
                    if old(source).is_buffer() {
                        let cur_post = run_model(cfg, source.lines());
                        assert(cur_pre.out =~= emitted + cur_post.out);
                        assert(m0.out =~= (written + emitted) + cur_post.out);
                    }
                    written = written + emitted;
                }
            },
        }
    }
}

} // verus!

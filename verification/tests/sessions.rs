use read_input::is_in_func::{Pred, ValueRange};
use read_input::shortcut::{
    input, input_d, input_inside, input_new_d, simple_input, valid_input, with_description,
    with_display,
};
use read_input::stream::{ReadError, Sink};
use read_input::target::ErrorMapper;
use read_input::line::Line;
use read_input::text::split_lines;
use read_input::{InputBuild, InputBuilder, InputConstraints};

fn transcript(sink: &Sink) -> String {
    match sink {
        Sink::Buffer(chunks) => chunks.concat(),
        _ => panic!("expected an in-memory sink"),
    }
}

#[test]
fn range_session_retries_then_accepts() {
    let mut session: InputBuilder<i32> = input()
        .inside(ValueRange::half_open(4, 9))
        .err("1")
        .reading_from("3\n4")
        .prompting_on(Sink::buffer());
    assert_eq!(session.try_get(), Ok(4));
    assert_eq!(transcript(&session.sink), "1\n");
}

#[test]
fn inclusive_session_takes_upper_bound() {
    let mut session: InputBuilder<i32> = input()
        .inside(ValueRange::inclusive(4, 9))
        .err("1")
        .reading_from("9")
        .prompting_on(Sink::buffer());
    assert_eq!(session.try_get(), Ok(9));
    assert_eq!(transcript(&session.sink), "");

    let mut rejected: InputBuilder<i32> = input()
        .inside(ValueRange::inclusive(4, 9))
        .err("1")
        .reading_from("10\n5")
        .prompting_on(Sink::buffer());
    assert_eq!(rejected.try_get(), Ok(5));
    assert_eq!(transcript(&rejected.sink), "1\n");
}

#[test]
fn set_session_rejects_then_accepts() {
    let mut session: InputBuilder<i32> = input()
        .inside(vec![2, 6, 7])
        .err("1")
        .reading_from("3\n6")
        .prompting_on(Sink::buffer());
    assert_eq!(session.try_get(), Ok(6));
    assert_eq!(transcript(&session.sink), "1\n");
}

#[test]
fn default_value_skips_parse_and_tests() {
    let session = input::<i32>()
        .not(5)
        .reading_from("\n")
        .prompting_on(Sink::buffer())
        .default(5);
    assert_eq!(session.try_get(), Ok(5));
}

#[test]
fn default_value_needs_empty_line() {
    let session = input::<i32>().reading_from("7").default(5);
    assert_eq!(session.try_get(), Ok(7));
}

#[test]
fn empty_line_without_default_is_parsed_and_fails() {
    let mut session: InputBuilder<i32> = input()
        .reading_from("\n5")
        .prompting_on(Sink::buffer());
    assert_eq!(session.try_get(), Ok(5));
    assert_eq!(
        transcript(&session.sink),
        "That value does not pass. Please try again\n"
    );
}

#[test]
fn custom_mapper_message_wins_over_fallback() {
    let mut session: InputBuilder<i32> = input()
        .err_match(ErrorMapper::Always("bad".to_string()))
        .reading_from("oops\n7")
        .prompting_on(Sink::buffer());
    assert_eq!(session.try_get(), Ok(7));
    assert_eq!(transcript(&session.sink), "bad\n");
}

#[test]
fn first_failing_test_supplies_the_message() {
    let mut session: InputBuilder<i32> = input()
        .add_err_test(Pred::NotEq(5), "first")
        .add_err_test(Pred::NotEq(5), "second")
        .reading_from("5\n6")
        .prompting_on(Sink::buffer());
    assert_eq!(session.try_get(), Ok(6));
    assert_eq!(transcript(&session.sink), "first\n");
}

#[test]
fn test_message_beats_fallback_and_later_tests_wait() {
    let mut session: InputBuilder<i32> = input()
        .add_test(Pred::NotEq(5))
        .add_err_test(Pred::NotEq(6), "no six")
        .err("fallback")
        .reading_from("5\n6\n7")
        .prompting_on(Sink::buffer());
    assert_eq!(session.try_get(), Ok(7));
    assert_eq!(transcript(&session.sink), "fallback\nno six\n");
}

#[test]
fn repeating_prompt_is_reprinted_after_each_failure() {
    let mut session: InputBuilder<i32> = input()
        .repeat_msg("n: ")
        .err("1")
        .reading_from("x\n4")
        .prompting_on(Sink::buffer());
    assert_eq!(session.try_get(), Ok(4));
    assert_eq!(transcript(&session.sink), "n: 1\nn: ");
}

#[test]
fn toggle_msg_repeat_flips_the_flag() {
    let mut session: InputBuilder<i32> = input()
        .msg("n: ")
        .toggle_msg_repeat()
        .err("1")
        .reading_from("x\n4")
        .prompting_on(Sink::buffer());
    assert_eq!(session.try_get(), Ok(4));
    assert_eq!(transcript(&session.sink), "n: 1\nn: ");
}

#[test]
fn exhausted_input_surfaces_a_read_failure() {
    let mut session: InputBuilder<i32> = input()
        .err("1")
        .reading_from("x")
        .prompting_on(Sink::buffer());
    assert_eq!(session.try_get(), Err(ReadError::EndOfInput));
    assert_eq!(transcript(&session.sink), "1\n");
}

#[test]
fn empty_set_accepts_nothing() {
    let mut session: InputBuilder<i32> = input()
        .inside(Vec::<i32>::new())
        .err("1")
        .reading_from("2")
        .prompting_on(Sink::buffer());
    assert_eq!(session.try_get(), Err(ReadError::EndOfInput));
    assert_eq!(transcript(&session.sink), "1\n");
}

#[test]
fn min_max_and_not_constraints() {
    let mut low: InputBuilder<i64> = input().min(10).err("1").reading_from("9\n10");
    assert_eq!(low.try_get(), Ok(10));

    let mut high: InputBuilder<i64> = input().max(10).err("1").reading_from("11\n10");
    assert_eq!(high.try_get(), Ok(10));

    let mut both: InputBuilder<i64> = input().min_max(4, 6).err("1").reading_from("3\n7\n5");
    assert_eq!(both.try_get(), Ok(5));

    let mut not_six: InputBuilder<i64> = input().not(6).err("1").reading_from("6\n8");
    assert_eq!(not_six.try_get(), Ok(8));

    let mut labelled: InputBuilder<i64> = input()
        .min_err(10, "low")
        .max_err(20, "high")
        .not_err(15, "fifteen")
        .reading_from("9\n21\n15\n12")
        .prompting_on(Sink::buffer());
    assert_eq!(labelled.try_get(), Ok(12));
    assert_eq!(transcript(&labelled.sink), "low\nhigh\nfifteen\n");
}

#[test]
fn clear_tests_removes_all_tests() {
    let mut session: InputBuilder<i32> = input()
        .not(5)
        .min(100)
        .clear_tests()
        .reading_from("5");
    assert_eq!(session.try_get(), Ok(5));
}

#[test]
fn shortcut_helpers_run_whole_sessions() {
    let inside: Result<i32, ReadError> = input_inside(ValueRange::half_open(4, 9), "3\n4");
    assert_eq!(inside, Ok(4));

    let valid: Result<i32, ReadError> = valid_input(ValueRange::at_least(0), "-1\n2");
    assert_eq!(valid, Ok(2));

    let simple: Result<i32, ReadError> = simple_input("bruh\n5");
    assert_eq!(simple, Ok(5));
}

#[test]
fn tailored_settings_prompt_each_attempt() {
    let mut session = input_d::<u32>()
        .reading_from("-1\n3")
        .prompting_on(Sink::buffer());
    assert_eq!(session.try_get(), Ok(3));
    assert_eq!(
        transcript(&session.sink),
        "Please input a positive integer: Only type positive integers.\nPlease input a positive integer: "
    );

    let mut older = input_new_d::<i64>().reading_from("x\n12").prompting_on(Sink::buffer());
    assert_eq!(older.try_get(), Ok(12));
    assert_eq!(
        transcript(&older.sink),
        "Please input an integer: Only type integers.\nPlease input an integer: "
    );
}

#[test]
fn displayed_mapper_quotes_the_failure() {
    let mut empty: InputBuilder<i32> = input()
        .err_match(with_display())
        .reading_from("\n1")
        .prompting_on(Sink::buffer());
    assert_eq!(empty.try_get(), Ok(1));
    assert_eq!(
        transcript(&empty.sink),
        "Error: \"cannot parse an empty string\"\n"
    );

    let mut invalid: InputBuilder<i32> = input()
        .err_match(with_display())
        .reading_from("x\n1")
        .prompting_on(Sink::buffer());
    assert_eq!(invalid.try_get(), Ok(1));
    assert_eq!(
        transcript(&invalid.sink),
        "Error: \"invalid character in input\"\n"
    );

    let mut too_big: InputBuilder<i32> = input()
        .err_match(with_display())
        .reading_from("2147483648\n1")
        .prompting_on(Sink::buffer());
    assert_eq!(too_big.try_get(), Ok(1));
    assert_eq!(transcript(&too_big.sink), "Error: \"value out of range\"\n");

    let mut described: InputBuilder<i32> = input()
        .err_match(with_description())
        .reading_from("x\n1")
        .prompting_on(Sink::buffer());
    assert_eq!(described.try_get(), Ok(1));
    assert_eq!(
        transcript(&described.sink),
        "Error: \"invalid character in input\"\n"
    );
}

#[test]
fn by_kind_mapper_picks_the_matching_message() {
    let mapper = ErrorMapper::ByKind {
        empty: Some("was empty".to_string()),
        invalid: None,
        out_of_range: Some("too far".to_string()),
    };
    let mut session: InputBuilder<i32> = input()
        .err_match(mapper)
        .err("fallback")
        .reading_from("\nx\n9999999999\n4")
        .prompting_on(Sink::buffer());
    assert_eq!(session.try_get(), Ok(4));
    assert_eq!(
        transcript(&session.sink),
        "was empty\nfallback\ntoo far\n"
    );
}

#[test]
fn integer_parsing_edges() {
    let mut max64: InputBuilder<i64> = input().reading_from("9223372036854775807");
    assert_eq!(max64.try_get(), Ok(i64::MAX));

    let mut min64: InputBuilder<i64> = input().reading_from("-9223372036854775808");
    assert_eq!(min64.try_get(), Ok(i64::MIN));

    let mut over64: InputBuilder<i64> = input().reading_from("9223372036854775808");
    assert_eq!(over64.try_get(), Err(ReadError::EndOfInput));

    let mut umax: InputBuilder<u64> = input().reading_from("18446744073709551615");
    assert_eq!(umax.try_get(), Ok(u64::MAX));

    let mut uover: InputBuilder<u64> = input().reading_from("18446744073709551616");
    assert_eq!(uover.try_get(), Err(ReadError::EndOfInput));

    let mut signed: InputBuilder<i32> = input().reading_from("+42");
    assert_eq!(signed.try_get(), Ok(42));

    let mut padded: InputBuilder<i32> = input().reading_from("  007  ");
    assert_eq!(padded.try_get(), Ok(7));

    let mut negative_u: InputBuilder<u32> = input().reading_from("-3\n3");
    assert_eq!(negative_u.try_get(), Ok(3));
}

#[test]
fn unsigned_targets_reject_a_minus_sign() {
    let mut minus_zero: InputBuilder<u32> = input()
        .err_match(with_display())
        .reading_from("-0\n1")
        .prompting_on(Sink::buffer());
    assert_eq!(minus_zero.try_get(), Ok(1));
    assert_eq!(
        transcript(&minus_zero.sink),
        "Error: \"invalid character in input\"\n"
    );

    let mut minus_five: InputBuilder<u64> = input()
        .err_match(with_display())
        .reading_from("-5\n2")
        .prompting_on(Sink::buffer());
    assert_eq!(minus_five.try_get(), Ok(2));
    assert_eq!(
        transcript(&minus_five.sink),
        "Error: \"invalid character in input\"\n"
    );
}

#[test]
fn unicode_whitespace_is_trimmed() {
    let mut padded: InputBuilder<i32> = input().reading_from("\u{00A0}5\u{00A0}");
    assert_eq!(padded.try_get(), Ok(5));

    let blank_line = "\u{2028}\u{2009}";
    let session = input::<i32>().not(9).reading_from(blank_line).default(9);
    assert_eq!(session.try_get(), Ok(9));
}

#[test]
fn text_target_accepts_any_line() {
    let mut empty: InputBuilder<Line> = input().reading_from("\n");
    assert_eq!(empty.try_get().map(|l| l.text()), Ok(String::new()));

    let mut word: InputBuilder<Line> = input().reading_from("  hi  ");
    assert_eq!(word.try_get().map(|l| l.text()), Ok("hi".to_string()));

    let mut answer: InputBuilder<Line> = input()
        .inside(vec![Line::from_str("yes"), Line::from_str("no")])
        .err("1")
        .reading_from("maybe\nyes")
        .prompting_on(Sink::buffer());
    assert_eq!(answer.try_get().map(|l| l.text()), Ok("yes".to_string()));
    assert_eq!(transcript(&answer.sink), "1\n");

    let mut ranged: InputBuilder<Line> = input()
        .min_max(Line::from_str("apple"), Line::from_str("mango"))
        .err("1")
        .reading_from("zebra\ncherry");
    assert_eq!(ranged.try_get().map(|l| l.text()), Ok("cherry".to_string()));
}

#[test]
fn bool_and_char_parsing() {
    let mut yes: InputBuilder<bool> = input().reading_from("true");
    assert_eq!(yes.try_get(), Ok(true));

    let mut no: InputBuilder<bool> = input().reading_from("false");
    assert_eq!(no.try_get(), Ok(false));

    let mut typo: InputBuilder<bool> = input().reading_from("tru\ntrue");
    assert_eq!(typo.try_get(), Ok(true));

    let mut one: InputBuilder<char> = input().reading_from(" a ");
    assert_eq!(one.try_get(), Ok('a'));

    let mut many: InputBuilder<char> = input().reading_from("ab\nz");
    assert_eq!(many.try_get(), Ok('z'));
}

#[test]
fn compiling_twice_agrees_everywhere() {
    let first = read_input::is_in_func::range_contains_func(ValueRange::half_open(4, 9));
    let second = read_input::is_in_func::range_contains_func(ValueRange::half_open(4, 9));
    for candidate in [3, 4, 5, 8, 9, 10] {
        assert_eq!(first.eval(&candidate), second.eval(&candidate));
    }
}

#[test]
fn split_lines_matches_line_reads() {
    let lines = split_lines("bruh\n5");
    assert_eq!(lines, vec!["bruh".to_string(), "5".to_string()]);
    assert_eq!(split_lines("a\n"), vec!["a".to_string()]);
    assert_eq!(split_lines(""), Vec::<String>::new());
    assert_eq!(split_lines("\n"), vec![String::new()]);
}

#[test]
fn one_shot_sessions_configure_and_get() {
    let v = input::<i32>()
        .default(5)
        .msg("p: ")
        .err("1")
        .reading_from("\n")
        .get();
    assert_eq!(v, 5);

    let w = input::<i32>().default(5).not(7).reading_from("7\n8").get();
    assert_eq!(w, 8);
}

#[test]
fn stderr_prompting_keeps_settings() {
    let mut session: InputBuilder<i32> = input()
        .msg("n: ")
        .prompting_on_stderr()
        .reading_from("4");
    assert_eq!(session.try_get(), Ok(4));
}

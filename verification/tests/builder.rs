use read_input::engine::parse_input;
use read_input::is_in_func::ValueRange;
use read_input::shortcut::input;
use read_input::stream::Sink;
use read_input::{InputBuild, InputBuilder};

fn parse_with_builder(builder: InputBuilder<i32>, input: String) -> Result<i32, String> {
    parse_input(input, &builder.err, &builder.tests, &builder.err_match)
}

#[test]
fn test_range() {
    assert_eq!(
        parse_with_builder(
            input().inside(ValueRange::half_open(4, 9)).err("1"),
            "3".to_string()
        ),
        Err("1".to_string())
    );
    assert_eq!(
        parse_with_builder(
            input().inside(ValueRange::half_open(4, 9)).err("1"),
            "4".to_string()
        ),
        Ok(4)
    );
    assert_eq!(
        parse_with_builder(
            input().inside(ValueRange::half_open(4, 9)).err("1"),
            "8".to_string()
        ),
        Ok(8)
    );
    assert_eq!(
        parse_with_builder(
            input().inside(ValueRange::half_open(4, 9)).err("1"),
            "9".to_string()
        ),
        Err("1".to_string())
    );
}

#[test]
fn test_range_from() {
    assert_eq!(
        parse_with_builder(input().inside(ValueRange::at_least(6)).err("1"), "5".to_string()),
        Err("1".to_string())
    );
    assert_eq!(
        parse_with_builder(input().inside(ValueRange::at_least(6)).err("1"), "6".to_string()),
        Ok(6)
    );
    assert_eq!(
        parse_with_builder(input().inside(ValueRange::at_least(6)).err("1"), "10".to_string()),
        Ok(10)
    );
}

#[test]
fn test_range_inclusive() {
    assert_eq!(
        parse_with_builder(
            input().inside(ValueRange::inclusive(4, 9)).err("1"),
            "3".to_string()
        ),
        Err("1".to_string())
    );
    assert_eq!(
        parse_with_builder(
            input().inside(ValueRange::inclusive(4, 9)).err("1"),
            "4".to_string()
        ),
        Ok(4)
    );
    assert_eq!(
        parse_with_builder(
            input().inside(ValueRange::inclusive(4, 9)).err("1"),
            "8".to_string()
        ),
        Ok(8)
    );
    assert_eq!(
        parse_with_builder(
            input().inside(ValueRange::inclusive(4, 9)).err("1"),
            "9".to_string()
        ),
        Ok(9)
    );
    assert_eq!(
        parse_with_builder(
            input().inside(ValueRange::inclusive(4, 9)).err("1"),
            "10".to_string()
        ),
        Err("1".to_string())
    );
}

#[test]
fn test_range_to() {
    assert_eq!(
        parse_with_builder(input().inside(ValueRange::below(6)).err("1"), "2".to_string()),
        Ok(2)
    );
    assert_eq!(
        parse_with_builder(input().inside(ValueRange::below(6)).err("1"), "5".to_string()),
        Ok(5)
    );
    assert_eq!(
        parse_with_builder(input().inside(ValueRange::below(6)).err("1"), "6".to_string()),
        Err("1".to_string())
    );
    assert_eq!(
        parse_with_builder(input().inside(ValueRange::below(6)).err("1"), "7".to_string()),
        Err("1".to_string())
    );
}

#[test]
fn test_range_to_inclusive() {
    assert_eq!(
        parse_with_builder(input().inside(ValueRange::at_most(6)).err("1"), "2".to_string()),
        Ok(2)
    );
    assert_eq!(
        parse_with_builder(input().inside(ValueRange::at_most(6)).err("1"), "5".to_string()),
        Ok(5)
    );
    assert_eq!(
        parse_with_builder(input().inside(ValueRange::at_most(6)).err("1"), "6".to_string()),
        Ok(6)
    );
    assert_eq!(
        parse_with_builder(input().inside(ValueRange::at_most(6)).err("1"), "7".to_string()),
        Err("1".to_string())
    );
}

#[test]
fn test_range_full() {
    assert_eq!(
        parse_with_builder(input().inside(ValueRange::full()).err("1"), "2".to_string()),
        Ok(2)
    );
    assert_eq!(
        parse_with_builder(input().inside(ValueRange::full()).err("1"), "5".to_string()),
        Ok(5)
    );
}

#[test]
fn test_array() {
    assert_eq!(
        parse_with_builder(input().inside(vec![2, 6, 7]).err("1"), "2".to_string()),
        Ok(2)
    );
    assert_eq!(
        parse_with_builder(input().inside(vec![2, 6, 7]).err("1"), "6".to_string()),
        Ok(6)
    );
    assert_eq!(
        parse_with_builder(input().inside(vec![2, 6, 7]).err("1"), "3".to_string()),
        Err("1".to_string())
    );
}

#[test]
fn writer() {
    input_output_test(
        input().msg("hi "),
        "bruh\n5",
        "hi That value does not pass. Please try again\n",
        5,
    )
}

fn input_output_test(
    input_settings: InputBuilder<i32>,
    input_bytes: &str,
    expected_prompt: &str,
    expected: i32,
) {
    let mut session = input_settings
        .reading_from(input_bytes)
        .prompting_on(Sink::buffer());
    let got = session.get();
    assert_eq!(got, expected);
    match &session.sink {
        Sink::Buffer(chunks) => assert_eq!(chunks.concat(), expected_prompt),
        _ => panic!("expected an in-memory sink"),
    }
}

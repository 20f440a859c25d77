use die_parser::parser::{parse_modifier, parse_simple_roll};
use die_parser::{Roll, RollError};

#[test]
fn test_parse_simple_roll() {
    let tests = [
        ("4d20", (4, 20), ""),
        ("4d20remainder_text", (4, 20), "remainder_text"),
    ];

    for (input, expected_output, expected_remaining_input) in tests {
        let (remaining_input, output) = parse_simple_roll(input).unwrap();
        assert_eq!(remaining_input, expected_remaining_input);
        assert_eq!(output, expected_output);
    }
}

#[test]
fn test_parse_modifier() {
    let tests_positive = [
        ("+5", 5, ""),
        ("+5remainder_text", 5, "remainder_text"),
        ("", 0, ""),
        ("random_unparsable", 0, "random_unparsable"),
    ];
    let tests_negative = [
        ("-5", -5, ""),
        ("-5remainder_text", -5, "remainder_text"),
        ("", 0, ""),
        ("random_unparsable", 0, "random_unparsable"),
    ];
    for (input, expected_output, expected_remaining_input) in tests_positive {
        let (remaining_input, output) = parse_modifier(input).unwrap();
        assert_eq!(remaining_input, expected_remaining_input);
        assert_eq!(output, expected_output);
    }
    for (input, expected_output, expected_remaining_input) in tests_negative {
        let (remaining_input, output) = parse_modifier(input).unwrap();
        assert_eq!(remaining_input, expected_remaining_input);
        assert_eq!(output, expected_output);
    }
}

#[test]
fn test_parse_modified_roll() {
    let tests = [
        ("4d10+3", Roll::new(10, 4, 3)),
        ("4d10-3", Roll::new(10, 4, -3)),
        ("4 d 10  + 3", Roll::new(10, 4, 3)),
        ("4 d 10  - 3", Roll::new(10, 4, -3)),
        ("4d10+3 random_stuff", Roll::new(10, 4, 3)),
        ("4d10-3 random_stuff", Roll::new(10, 4, -3)),
    ];

    for (input, expected_output) in tests {
        let output = Roll::parse_modified_roll(input).unwrap();
        assert_eq!(output, expected_output);
    }
}

#[test]
fn test_err_modified_roll() {
    let tests = [
        ("4d10+unparsable_modifier", RollError::ParsingError),
        ("4d10-unparsable_modifier", RollError::ParsingError),
        ("4d10  + unparsable_modifier", RollError::ParsingError),
        ("4d10  - unparsable_modifier", RollError::ParsingError),
        ("4dinvalid_die_type", RollError::ParsingError),
        ("invalid_die_amountd20", RollError::ParsingError),
    ];

    for (input, expected_output) in tests {
        let output = Roll::parse_modified_roll(input).unwrap_err();
        assert_eq!(output, expected_output);
    }
}

#[test]
fn test_err_parse_roll() {
    let tests = [
        ("4d5", RollError::DieTypeInvalid),
        ("0d20", RollError::NoDiceToRoll),
        ("0d5", RollError::DieTypeInvalid),
        ("9001d20", RollError::DiceExceedLimit),
    ];

    for (input, expected_output) in tests {
        let output = Roll::parse_roll(input).unwrap_err();
        assert_eq!(output, expected_output);
    }
}

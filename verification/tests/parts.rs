use die_parser::grammar::{Sign, SEPARATOR};
use die_parser::parser::{parse_modifier, parse_numbers, parse_operator, parse_simple_roll};
use die_parser::{Roll, RollError};

#[test]
fn numbers_stop_at_the_first_other_character() {
    assert_eq!(parse_numbers("21c"), Ok(("c", 21)));
    assert_eq!(parse_numbers("416"), Ok(("", 416)));
    assert_eq!(parse_numbers("12 34"), Ok((" 34", 12)));
    assert_eq!(parse_numbers("0"), Ok(("", 0)));
    assert_eq!(parse_numbers("65535+1"), Ok(("+1", 65535)));
    assert_eq!(parse_numbers("000123d"), Ok(("d", 123)));
}

#[test]
fn numbers_need_a_digit_and_sixteen_bits() {
    assert_eq!(parse_numbers(""), Err(RollError::ParsingError));
    assert_eq!(parse_numbers("c1"), Err(RollError::ParsingError));
    assert_eq!(parse_numbers("+1"), Err(RollError::ParsingError));
    assert_eq!(parse_numbers("-1"), Err(RollError::ParsingError));
    assert_eq!(parse_numbers(" 1"), Err(RollError::ParsingError));
    assert_eq!(parse_numbers("65536"), Err(RollError::ParsingError));
    assert_eq!(parse_numbers("70000x"), Err(RollError::ParsingError));
    assert_eq!(parse_numbers("\u{0661}\u{0662}"), Err(RollError::ParsingError));
}

#[test]
fn numbers_stop_at_digits_of_other_scripts() {
    assert_eq!(parse_numbers("12\u{0663}"), Ok(("\u{0663}", 12)));
}

#[test]
fn separator_is_the_small_letter_d() {
    assert_eq!(SEPARATOR, 'd');
    assert_eq!(parse_simple_roll("3d6"), Ok(("", (3, 6))));
    assert_eq!(parse_simple_roll("3D6"), Err(RollError::ParsingError));
    assert_eq!(parse_simple_roll("3 d6"), Err(RollError::ParsingError));
    assert_eq!(parse_simple_roll("3dd6"), Err(RollError::ParsingError));
    assert_eq!(parse_simple_roll("3"), Err(RollError::ParsingError));
    assert_eq!(parse_simple_roll("3d"), Err(RollError::ParsingError));
    assert_eq!(parse_simple_roll("d6"), Err(RollError::ParsingError));
    assert_eq!(parse_simple_roll("70000d6"), Err(RollError::ParsingError));
    assert_eq!(parse_simple_roll("6d70000"), Err(RollError::ParsingError));
}

#[test]
fn simple_roll_gives_dice_before_sides() {
    assert_eq!(parse_simple_roll("12d100+7"), Ok(("+7", (12, 100))));
    assert_eq!(parse_simple_roll("0d0"), Ok(("", (0, 0))));
}

#[test]
fn operator_is_plus_minus_or_absent() {
    assert_eq!(parse_operator("+5"), ("5", Sign::Plus));
    assert_eq!(parse_operator("-5"), ("5", Sign::Minus));
    assert_eq!(parse_operator("5"), ("5", Sign::Absent));
    assert_eq!(parse_operator(""), ("", Sign::Absent));
    assert_eq!(parse_operator("+"), ("", Sign::Plus));
    assert_eq!(parse_operator("--"), ("-", Sign::Minus));
    assert_eq!(parse_operator("x+"), ("x+", Sign::Absent));
    assert_eq!(parse_operator("\u{2212}5"), ("\u{2212}5", Sign::Absent));
}

#[test]
fn modifier_takes_the_sign_of_its_operator() {
    assert_eq!(parse_modifier("+65535"), Ok(("", 65535)));
    assert_eq!(parse_modifier("-65535"), Ok(("", -65535)));
    assert_eq!(parse_modifier("+0"), Ok(("", 0)));
    assert_eq!(parse_modifier("-0"), Ok(("", 0)));
    assert_eq!(parse_modifier("+12+3"), Ok(("+3", 12)));
    assert_eq!(parse_modifier("12"), Ok(("12", 0)));
}

#[test]
fn modifier_needs_a_number_behind_its_sign() {
    assert_eq!(parse_modifier("+"), Err(RollError::ParsingError));
    assert_eq!(parse_modifier("-"), Err(RollError::ParsingError));
    assert_eq!(parse_modifier("+x"), Err(RollError::ParsingError));
    assert_eq!(parse_modifier("-+1"), Err(RollError::ParsingError));
    assert_eq!(parse_modifier("+ 1"), Err(RollError::ParsingError));
    assert_eq!(parse_modifier("+65536"), Err(RollError::ParsingError));
}

#[test]
fn modified_roll_asks_nothing_of_the_roll() {
    assert_eq!(Roll::parse_modified_roll("0d5"), Ok(Roll::new(5, 0, 0)));
    assert_eq!(Roll::parse_modified_roll("9001d7-12"), Ok(Roll::new(7, 9001, -12)));
    assert_eq!(Roll::parse_modified_roll("65535 d 65535 + 65535"), Ok(Roll::new(65535, 65535, 65535)));
}

#[test]
fn validity_tries_the_rules_in_order() {
    assert_eq!(Roll::new(20, 4, 0).check_roll_validity(100), Ok(()));
    assert_eq!(Roll::new(5, 4, 0).check_roll_validity(100), Err(RollError::DieTypeInvalid));
    assert_eq!(Roll::new(5, 0, 0).check_roll_validity(100), Err(RollError::DieTypeInvalid));
    assert_eq!(Roll::new(5, 101, 0).check_roll_validity(100), Err(RollError::DieTypeInvalid));
    assert_eq!(Roll::new(20, 101, 0).check_roll_validity(100), Err(RollError::DiceExceedLimit));
    assert_eq!(Roll::new(20, 0, 0).check_roll_validity(100), Err(RollError::NoDiceToRoll));
    assert_eq!(Roll::new(20, 0, 0).check_roll_validity(0), Err(RollError::NoDiceToRoll));
    assert_eq!(Roll::new(20, 65535, 0).check_roll_validity(0), Ok(()));
    assert_eq!(Roll::new(20, 65535, 0).check_roll_validity(65535), Ok(()));
    assert_eq!(Roll::new(20, 65535, 0).check_roll_validity(65534), Err(RollError::DiceExceedLimit));
    assert_eq!(Roll::new(20, 100, 0).check_roll_validity(100), Ok(()));
    assert_eq!(Roll::new(20, 1, 0).check_roll_validity(1), Ok(()));
    assert_eq!(Roll::new(20, 2, 0).check_roll_validity(1), Err(RollError::DiceExceedLimit));
}

#[test]
fn validity_ignores_the_modifier() {
    assert_eq!(Roll::new(6, 1, i32::MAX).check_roll_validity(1), Ok(()));
    assert_eq!(Roll::new(6, 1, i32::MIN).check_roll_validity(1), Ok(()));
}

#[test]
fn every_error_has_its_message() {
    assert_eq!(RollError::DieTypeInvalid.message(), "The requested type of die is invalid.");
    assert_eq!(
        RollError::DiceExceedLimit.message(),
        "Amount of dice exceeds the specified limit."
    );
    assert_eq!(RollError::NoDiceToRoll.message(), "Can't roll less than 1 die.");
    assert_eq!(RollError::ParsingError.message(), "Failed to parse the input string.");
}

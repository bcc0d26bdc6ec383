use license_gen::io::{
    parse_yes_no, prompt, prompt_bool, prompt_optional, prompt_optional_bool, Reply,
};

fn rejected<T>(message: &str) -> Reply<T> {
    Reply::Rejected(message.to_string())
}

#[test]
fn a_required_number_is_read_from_the_trimmed_line() {
    assert_eq!(prompt::<u16>("2025\n"), Reply::Accepted(2025));
    assert_eq!(prompt::<u16>("  2025 \r\n"), Reply::Accepted(2025));
    assert_eq!(prompt::<u16>("+1\n"), Reply::Accepted(1));
}

#[test]
fn a_line_that_is_no_number_is_rejected_with_its_text() {
    assert_eq!(prompt::<u16>("abc\n"), rejected("Invalid input: abc.\nPlease try again."));
    assert_eq!(prompt::<u16>(" 70000 \n"), rejected("Invalid input: 70000.\nPlease try again."));
    assert_eq!(prompt::<u16>("\n"), rejected("Invalid input: .\nPlease try again."));
    assert_eq!(prompt::<u16>(""), rejected("Invalid input: .\nPlease try again."));
}

#[test]
fn a_required_text_is_any_line_trimmed() {
    assert_eq!(prompt::<String>("Your Name\n"), Reply::Accepted("Your Name".to_string()));
    assert_eq!(prompt::<String>("  ACME, Inc. \n"), Reply::Accepted("ACME, Inc.".to_string()));
    assert_eq!(prompt::<String>("\n"), Reply::Accepted(String::new()));
}

#[test]
fn a_list_is_read_from_a_line() {
    assert_eq!(
        prompt::<Vec<String>>(" MIT, Apache-2.0 \n"),
        Reply::Accepted(vec!["MIT".to_string(), "Apache-2.0".to_string()])
    );
    assert_eq!(
        prompt_optional::<Vec<String>>("MIT,MIT\n"),
        Reply::Accepted(Some(vec!["MIT".to_string(), "MIT".to_string()]))
    );
    assert_eq!(prompt_optional::<Vec<String>>("  \n"), Reply::Accepted(None));
}

#[test]
fn an_empty_line_answers_an_optional_question_with_nothing() {
    assert_eq!(prompt_optional::<String>("\n"), Reply::Accepted(None));
    assert_eq!(prompt_optional::<String>("   \t\n"), Reply::Accepted(None));
    assert_eq!(prompt_optional::<u16>(""), Reply::Accepted(None));
    assert_eq!(prompt_optional::<String>(" 1.0.0\n"), Reply::Accepted(Some("1.0.0".to_string())));
    assert_eq!(prompt_optional::<u16>("12\n"), Reply::Accepted(Some(12)));
}

#[test]
fn an_optional_answer_that_is_not_understood_is_rejected() {
    assert_eq!(
        prompt_optional::<u16>("x\n"),
        rejected("Invalid input: x.\nPlease try again or leave blank for none.")
    );
}

#[test]
fn yes_and_no_are_understood_in_four_forms_each() {
    for yes in ["yes", "y", "true", "t", "YES", "Y", "True", "T", "  yEs  \n"] {
        assert_eq!(prompt_bool(yes), Reply::Accepted(true), "{yes:?}");
    }
    for no in ["no", "n", "false", "f", "NO", "N", "False", "F", "\tNo\r\n"] {
        assert_eq!(prompt_bool(no), Reply::Accepted(false), "{no:?}");
    }
}

#[test]
fn anything_else_is_neither_yes_nor_no() {
    for other in ["", "\n", "maybe", "ye", "yes please", "0", "1", "nein"] {
        assert_eq!(prompt_bool(other), rejected("Please answer 'yes' or 'no'."), "{other:?}");
    }
}

#[test]
fn an_optional_yes_or_no_may_be_left_blank() {
    assert_eq!(prompt_optional_bool("\n"), Reply::Accepted(None));
    assert_eq!(prompt_optional_bool("  "), Reply::Accepted(None));
    assert_eq!(prompt_optional_bool("Y\n"), Reply::Accepted(Some(true)));
    assert_eq!(prompt_optional_bool("false\n"), Reply::Accepted(Some(false)));
    assert_eq!(
        prompt_optional_bool("maybe\n"),
        rejected("Please answer 'yes', 'no', or leave blank for none.")
    );
}

#[test]
fn a_word_is_read_as_yes_or_no_only_in_lower_case() {
    assert_eq!(parse_yes_no("yes"), Some(true));
    assert_eq!(parse_yes_no("y"), Some(true));
    assert_eq!(parse_yes_no("true"), Some(true));
    assert_eq!(parse_yes_no("t"), Some(true));
    assert_eq!(parse_yes_no("no"), Some(false));
    assert_eq!(parse_yes_no("n"), Some(false));
    assert_eq!(parse_yes_no("false"), Some(false));
    assert_eq!(parse_yes_no("f"), Some(false));
    assert_eq!(parse_yes_no("YES"), None);
    assert_eq!(parse_yes_no(""), None);
    assert_eq!(parse_yes_no(" yes"), None);
}

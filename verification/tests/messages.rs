use std::str::FromStr;

use macro_diagnostics::digits::render_usize;
use macro_diagnostics::error::Error;
use macro_diagnostics::format_description::InvalidFormatDescription;

#[test]
fn missing_component_message() {
    let err = Error::MissingComponent {
        name: "hour".to_owned(),
    };
    assert_eq!(err.message(), "missing component: hour");
}

#[test]
fn invalid_component_message() {
    let err = Error::InvalidComponent {
        name: "hour".to_owned(),
        value: "27".to_owned(),
    };
    assert_eq!(err.message(), "invalid component: hour was 27");
}

#[test]
fn expected_string_message() {
    assert_eq!(Error::ExpectedString.message(), "expected string");
}

#[test]
fn unexpected_end_of_input_message() {
    assert_eq!(
        Error::UnexpectedEndOfInput.message(),
        "unexpected end of input"
    );
}

#[test]
fn custom_message_is_verbatim() {
    let err = Error::Custom("anything at all, even with: punctuation".to_owned());
    assert_eq!(err.message(), "anything at all, even with: punctuation");
}

#[test]
fn unexpected_token_message_embeds_number_literal() {
    let tree = proc_macro2::TokenTree::Literal(proc_macro2::Literal::u32_unsuffixed(123));
    let err = Error::UnexpectedToken { tree };
    assert_eq!(err.message(), "unexpected token: 123");
}

#[test]
fn unexpected_token_message_embeds_canonical_text() {
    let stream = proc_macro2::TokenStream::from_str("(a, b)").unwrap();
    let tree = stream.into_iter().next().unwrap();
    let expected = format!("unexpected token: {}", tree);
    let err = Error::UnexpectedToken { tree };
    assert_eq!(err.message(), expected);
}

#[test]
fn unexpected_token_message_with_brace_group() {
    let stream = proc_macro2::TokenStream::from_str("{a}").unwrap();
    let tree = stream.into_iter().next().unwrap();
    let err = Error::UnexpectedToken { tree };
    assert_eq!(err.message(), "unexpected token: { a }");
}

#[test]
fn nested_error_messages() {
    let v = InvalidFormatDescription::UnclosedOpeningBracket { index: 7 };
    assert_eq!(v.message(), "unclosed opening bracket at byte index 7");
    let v = InvalidFormatDescription::InvalidComponentName {
        name: "minuet".to_owned(),
        index: 1,
    };
    assert_eq!(v.message(), "invalid component name `minuet` at byte index 1");
    let v = InvalidFormatDescription::InvalidModifier {
        value: "padding:zero".to_owned(),
        index: 6,
    };
    assert_eq!(v.message(), "invalid modifier `padding:zero` at byte index 6");
    let v = InvalidFormatDescription::MissingComponentName { index: 0 };
    assert_eq!(v.message(), "missing component name at byte index 0");
    let v = InvalidFormatDescription::MissingRequiredModifier {
        name: "sign".to_owned(),
        index: 12,
    };
    assert_eq!(
        v.message(),
        "missing required modifier `sign` at byte index 12"
    );
    let v = InvalidFormatDescription::Expected {
        what: "closing bracket".to_owned(),
        index: 10,
    };
    assert_eq!(v.message(), "expected closing bracket at byte index 10");
}

#[test]
fn conversion_preserves_nested_message() {
    let v = InvalidFormatDescription::UnclosedOpeningBracket { index: 4 };
    let nested_message = v.message();
    let err = Error::from(v);
    assert_eq!(err.message(), nested_message);
    assert_eq!(err.message(), "unclosed opening bracket at byte index 4");
}

#[test]
fn decimal_rendering() {
    assert_eq!(render_usize(0), "0");
    assert_eq!(render_usize(9), "9");
    assert_eq!(render_usize(10), "10");
    assert_eq!(render_usize(1234567890), "1234567890");
    assert_eq!(render_usize(usize::MAX), "18446744073709551615");
}

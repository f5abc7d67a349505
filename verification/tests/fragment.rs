use std::str::FromStr;

use macro_diagnostics::error::Error;
use macro_diagnostics::format_description::InvalidFormatDescription;

fn fragment_tokens(err: &Error) -> Vec<proc_macro2::TokenTree> {
    err.to_compile_error().into_iter().collect()
}

fn assert_alone_punct(tree: &proc_macro2::TokenTree, ch: char) {
    match tree {
        proc_macro2::TokenTree::Punct(p) => {
            assert_eq!(p.as_char(), ch);
            assert_eq!(p.spacing(), proc_macro2::Spacing::Alone);
        }
        other => panic!("expected punct, got {}", other),
    }
}

fn assert_joint_punct(tree: &proc_macro2::TokenTree, ch: char) {
    match tree {
        proc_macro2::TokenTree::Punct(p) => {
            assert_eq!(p.as_char(), ch);
            assert_eq!(p.spacing(), proc_macro2::Spacing::Joint);
        }
        other => panic!("expected punct, got {}", other),
    }
}

fn assert_ident(tree: &proc_macro2::TokenTree, name: &str) {
    match tree {
        proc_macro2::TokenTree::Ident(i) => assert_eq!(i.to_string(), name),
        other => panic!("expected ident, got {}", other),
    }
}

#[test]
fn fragment_spells_qualified_compile_error_invocation() {
    let err = Error::MissingComponent {
        name: "hour".to_owned(),
    };
    let tokens = fragment_tokens(&err);
    assert_eq!(tokens.len(), 8);
    assert_joint_punct(&tokens[0], ':');
    assert_alone_punct(&tokens[1], ':');
    assert_ident(&tokens[2], "core");
    assert_joint_punct(&tokens[3], ':');
    assert_alone_punct(&tokens[4], ':');
    assert_ident(&tokens[5], "compile_error");
    assert_alone_punct(&tokens[6], '!');
    match &tokens[7] {
        proc_macro2::TokenTree::Group(g) => {
            assert_eq!(g.delimiter(), proc_macro2::Delimiter::Parenthesis);
            let inner: Vec<proc_macro2::TokenTree> = g.stream().into_iter().collect();
            assert_eq!(inner.len(), 1);
            match &inner[0] {
                proc_macro2::TokenTree::Literal(l) => {
                    assert_eq!(l.to_string(), "\"missing component: hour\"");
                }
                other => panic!("expected literal, got {}", other),
            }
        }
        other => panic!("expected group, got {}", other),
    }
}

#[test]
fn fragment_holds_exactly_one_literal() {
    let err = Error::ExpectedString;
    let tokens = fragment_tokens(&err);
    let literals = tokens
        .iter()
        .filter(|t| matches!(t, proc_macro2::TokenTree::Literal(_)))
        .count();
    assert_eq!(literals, 0);
    let groups: Vec<_> = tokens
        .iter()
        .filter_map(|t| match t {
            proc_macro2::TokenTree::Group(g) => Some(g),
            _ => None,
        })
        .collect();
    assert_eq!(groups.len(), 1);
    let inner: Vec<proc_macro2::TokenTree> = groups[0].stream().into_iter().collect();
    assert_eq!(inner.len(), 1);
    assert!(matches!(inner[0], proc_macro2::TokenTree::Literal(_)));
}

#[test]
fn fragment_text_of_missing_hour() {
    let err = Error::MissingComponent {
        name: "hour".to_owned(),
    };
    let text = err.to_compile_error().to_string();
    assert_eq!(
        text,
        ":: core :: compile_error ! (\"missing component: hour\")"
    );
}

#[test]
fn fragment_text_of_expected_string() {
    let err = Error::ExpectedString;
    let text = err.to_compile_error().to_string();
    assert_eq!(text, ":: core :: compile_error ! (\"expected string\")");
}

#[test]
fn fragment_of_nested_error_carries_nested_message() {
    let v = InvalidFormatDescription::UnclosedOpeningBracket { index: 4 };
    let err = Error::from(v);
    let text = err.to_compile_error().to_string();
    assert_eq!(
        text,
        ":: core :: compile_error ! (\"unclosed opening bracket at byte index 4\")"
    );
}

#[test]
fn fragment_parses_back_as_valid_tokens() {
    let err = Error::InvalidComponent {
        name: "hour".to_owned(),
        value: "27".to_owned(),
    };
    let text = err.to_compile_error().to_string();
    let reparsed = proc_macro2::TokenStream::from_str(&text).unwrap();
    assert_eq!(reparsed.to_string(), text);
}

#[test]
fn literal_escapes_quotes_and_newlines() {
    let err = Error::Custom("say \"hi\"\nnow".to_owned());
    let tokens = fragment_tokens(&err);
    match &tokens[7] {
        proc_macro2::TokenTree::Group(g) => {
            let inner: Vec<proc_macro2::TokenTree> = g.stream().into_iter().collect();
            match &inner[0] {
                proc_macro2::TokenTree::Literal(l) => {
                    assert_eq!(l.to_string(), "\"say \\\"hi\\\"\\nnow\"");
                }
                other => panic!("expected literal, got {}", other),
            }
        }
        other => panic!("expected group, got {}", other),
    }
    let text = err.to_compile_error().to_string();
    let reparsed = proc_macro2::TokenStream::from_str(&text).unwrap();
    assert_eq!(reparsed.to_string(), text);
}

#[test]
fn fragment_of_empty_message() {
    let err = Error::Custom(String::new());
    let text = err.to_compile_error().to_string();
    assert_eq!(text, ":: core :: compile_error ! (\"\")");
}

#[test]
fn fragment_of_unexpected_token_is_well_formed() {
    let tree = proc_macro2::TokenTree::Literal(proc_macro2::Literal::u32_unsuffixed(123));
    let err = Error::UnexpectedToken { tree };
    let text = err.to_compile_error().to_string();
    assert_eq!(text, ":: core :: compile_error ! (\"unexpected token: 123\")");
}

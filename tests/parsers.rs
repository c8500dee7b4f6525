use std::rc::Rc;

use parser_combinator::models::cardinality::Cardinality;
use parser_combinator::models::parser::Parser;
use parser_combinator::models::parser_traits::Parse;
use parser_combinator::models::state::State;
use parser_combinator::parser_helpers::chain_parser;
use parser_combinator::parsers::between_parser::Between;
use parser_combinator::parsers::digits_parser::Digits;
use parser_combinator::parsers::letters_parser::Letters;
use parser_combinator::parsers::str_parser::Str;

#[test]
fn some_test() {
    let _: Parser<String, String, _> = Parser::new(Box::new(|state: State<String>| {
        if *state.target == "cat" {
            return State {
                index: 3,
                target: state.target,
                result: Some(Ok(Cardinality::One(String::from("cat")))),
            };
        }

        State {
            index: state.index,
            target: state.target,
            result: Some(Err(String::from("Unable to match string 'cat'"))),
        }
    }));
}

#[test]
fn test() {
    let _: Parser<String, String, _> = Parser::new(Box::new(|state: State<String>| {
        if *state.target == "cat" {
            return State {
                index: 3,
                target: state.target,
                result: Some(Ok(Cardinality::One(String::from("cat")))),
            };
        }

        State {
            index: state.index,
            target: state.target,
            result: Some(Err(String::from("Unable to match string 'cat'"))),
        }
    }));
}

#[test]
fn chain_test() {
    let str_1 = Str::new("Stuff".to_owned());
    let str_2 = Str::new("Stuff".to_owned());

    let chained = chain_parser(str_1, move |_| Box::new(str_2.clone()));

    let res = chained.run("StuffStuff");
    assert!(res.result.unwrap().is_ok())
}

#[test]
fn between_parser_test_success() {
    let left = Box::new(Str::new("(".to_owned()));
    let value = Box::new(Str::new("test".to_owned()));
    let right = Box::new(Str::new(")".to_owned()));

    let bet = Between::new(left, right, value);
    let result = bet.run("(test)");

    assert_eq!(result.result.unwrap().unwrap().unwrap_many().len(), 1);
    assert_eq!(result.index, 6);
}

#[test]
fn between_parser_test_fail() {
    let left = Box::new(Str::new("(".to_owned()));
    let value = Box::new(Str::new("test".to_owned()));
    let right = Box::new(Str::new(")".to_owned()));

    let bet = Between::new(left, right, value);
    let result = bet.run("(Test)");

    assert!(result.result.unwrap().is_err());
    assert_eq!(result.index, 1);
}

#[test]
fn digits_parser_digit_success_run() {
    let p = Digits::new();
    let res = p.run("123s");
    assert!(res.result.unwrap().unwrap().unwrap_one() == "123");
    assert!(res.index == 3);
}

#[test]
fn digits_parser_digit_fail_run() {
    let p = Digits::new();
    let res = p.run("s123s");
    assert!(res.result.unwrap().is_err());
    assert!(res.index == 0);
}

#[test]
fn feature() {
    let p = Digits::new();
    let state: State<String> = State { index: 3, target: Rc::new("(+ 1 ".to_owned()), result: None };
    let res = p.transform(state);
    assert_eq!(res.result.unwrap().unwrap().unwrap_one(), "1");
    assert_eq!(res.index, 4);
}

#[test]
fn letters_parser_digit_success_run() {
    let p = Letters::new();
    let res = p.run("abcd1s");
    assert!(res.result.unwrap().unwrap().unwrap_one() == "abcd");
    assert!(res.index == 4);
}

#[test]
fn letters_parser_digit_fail_run() {
    let p = Letters::new();
    let res = p.run("123s");
    assert!(res.result.unwrap().is_err());
    assert!(res.index == 0);
}

#[test]
fn str_success_exact_parse() {
    let parser = Str::new("Test".to_owned());
    let res = parser.run("Test");
    assert!(res.result.unwrap().is_ok());
    assert_eq!(res.index, 4);
}

#[test]
fn str_success_partial_parse() {
    let parser = Str::new("Test".to_owned());
    let res = parser.run("Tester");
    assert!(res.result.unwrap().is_ok());
    assert_eq!(res.index, 4);
}

#[test]
fn str_fail_no_match_parse() {
    let parser = Str::new("Test".to_owned());
    let res = parser.run("Abcde");
    assert!(res.result.unwrap().is_err());
    assert_eq!(res.index, 0);
}

#[test]
fn str_fail_short_target_parse() {
    let parser = Str::new("Test".to_owned());
    let res = parser.run("T");
    assert!(res.result.unwrap().is_err());
}

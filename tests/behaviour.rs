use std::rc::Rc;

use parser_combinator::collection_parsers::choice_parser::Choice;
use parser_combinator::collection_parsers::many_one_parser::ManyOne;
use parser_combinator::collection_parsers::many_parser::Many;
use parser_combinator::collection_parsers::sep_by_one_parser::SepByOne;
use parser_combinator::collection_parsers::sep_by_parser::SepBy;
use parser_combinator::collection_parsers::sequence_of_parser::SequenceOf;
use parser_combinator::models::cardinality::Cardinality;
use parser_combinator::models::parser::Parser;
use parser_combinator::models::parser_traits::Parse;
use parser_combinator::models::state::{ParserResult, State};
use parser_combinator::parser_helpers::{chain_parser, map_result};
use parser_combinator::parsers::between_parser::Between;
use parser_combinator::parsers::digits_parser::Digits;
use parser_combinator::parsers::letters_parser::Letters;
use parser_combinator::parsers::ref_parser::RefParser;
use parser_combinator::parsers::str_parser::Str;
use parser_combinator::utility::local_log::LocalLog;

fn lit(s: &str) -> Str {
    Str::new(s.to_owned())
}

fn at(text: &str, index: usize) -> State<String> {
    State { index, target: Rc::new(text.to_owned()), result: None }
}

fn message<R>(state: State<R>) -> String {
    match state.result {
        Some(Err(e)) => e,
        _ => panic!("expected a failure"),
    }
}

fn values(state: State<String>) -> Vec<String> {
    match state.result {
        Some(Ok(Cardinality::Many(v))) => v,
        Some(Ok(Cardinality::One(v))) => vec![v],
        _ => panic!("expected a success"),
    }
}

#[test]
fn literal_advances_by_its_length() {
    let res = lit("ab").run("abc");
    assert_eq!(res.index, 2);
    assert_eq!(values(res), vec!["ab".to_owned()]);
}

#[test]
fn literal_mismatch_names_literal_and_input() {
    let res = lit("ab").run("xab");
    assert_eq!(res.index, 0);
    assert_eq!(message(res), "Str: Tried to match ab, but got xab");
}

#[test]
fn literal_at_end_of_input_fails() {
    let res = lit("").run("");
    assert_eq!(res.index, 0);
    assert_eq!(message(res), "Str: Unexpected end of input");
}

#[test]
fn literal_offsets_count_characters() {
    let res = lit("é").run("éa");
    assert_eq!(res.index, 1);
    let next = lit("a").transform(at("éa", 1));
    assert_eq!(next.index, 2);
}

#[test]
fn many_on_empty_input_succeeds_with_nothing() {
    let res = Many::new(lit("a")).run("");
    assert_eq!(res.index, 0);
    assert_eq!(values(res).len(), 0);
}

#[test]
fn many_stops_after_a_success_that_does_not_move() {
    let res = Many::new(Many::new(lit("a"))).run("aab");
    assert_eq!(res.index, 2);
    assert_eq!(values(res), vec!["a".to_owned(), "a".to_owned()]);
}

#[test]
fn many_one_fails_only_on_the_first_attempt() {
    let ok = ManyOne::new(lit("Test")).run("TestX");
    assert_eq!(ok.index, 4);
    assert_eq!(values(ok).len(), 1);
    let res = ManyOne::new(lit("Test")).run("XTest");
    assert_eq!(res.index, 0);
    assert_eq!(message(res), "ManyOne: Unable to match any input using parser @ index");
}

#[test]
fn choice_prefers_the_earlier_alternative() {
    let choice = Choice::new(vec![lit("Te"), lit("Test")]);
    let res = choice.run("Test");
    let alone = lit("Te").run("Test");
    assert_eq!(res.index, 2);
    assert_eq!(res.index, alone.index);
    assert_eq!(values(res), values(alone));
}

#[test]
fn choice_reports_exhausted_alternatives() {
    let mut choice = Choice::new(vec![lit("a")]);
    choice.push_parser(lit("b"));
    let res = choice.transform(at("xxc", 2));
    assert_eq!(res.index, 2);
    assert_eq!(message(res), "Choice: Failed to parse any of the provided choices");
    assert_eq!(values(choice.run("b")), vec!["b".to_owned()]);
}

#[test]
fn sequence_failure_carries_the_child_state() {
    let seq = SequenceOf::new(vec![lit("Test1"), lit("Test2")]);
    let res = seq.run("Test1Test3");
    assert_eq!(res.index, 5);
    assert_eq!(message(res), "Str: Tried to match Test2, but got Test1Test3");
}

#[test]
fn sequence_flattens_the_values_of_its_children() {
    let mut seq = SequenceOf::new(vec![Many::new(lit("a"))]);
    seq.push_parser(Many::new(lit("b")));
    let res = seq.run("aabbbc");
    assert_eq!(res.index, 5);
    assert_eq!(values(res), vec!["a", "a", "b", "b", "b"]);
}

#[test]
fn between_payload_matches_the_value_alone() {
    let bet = Between::new(lit("("), lit(")"), lit("test"));
    let res = bet.run("(test)");
    let alone = lit("test").run("test");
    assert_eq!(res.index, 6);
    assert_eq!(values(res), values(alone));
}

#[test]
fn between_fails_where_the_right_delimiter_is_missing() {
    let bet = Between::new(lit("("), lit(")"), lit("test"));
    let res = bet.run("(test");
    assert_eq!(res.index, 5);
    assert_eq!(message(res), "Str: Unexpected end of input");
}

#[test]
fn sep_by_resumes_from_the_remainder() {
    let list = SepBy::new(lit(","), lit("Test"));
    let whole = list.run("Test,Test,Test");
    let rest = list.transform(at("Test,Test,Test", 5));
    assert_eq!(whole.index, 14);
    assert_eq!(rest.index, 14);
    assert_eq!(values(whole).len(), 1 + values(rest).len());
}

#[test]
fn sep_by_one_reports_an_empty_list() {
    let list = SepByOne::new(lit(","), lit("Test"));
    let res = list.run(",Test");
    assert_eq!(res.index, 0);
    assert_eq!(message(res), "SepByOne: Unable to match any input using parser @ index");
}

#[test]
fn a_failure_passes_through_combinators() {
    let failed = || State::<String> {
        index: 2,
        target: Rc::new("Test".to_owned()),
        result: Some(Err("boom".to_owned())),
    };
    let seq = SequenceOf::new(vec![lit("Test")]);
    let res = seq.transform(failed());
    assert_eq!(res.index, 2);
    assert_eq!(message(res), "boom");
    let res = Many::new(lit("Test")).transform(failed());
    assert_eq!(message(res), "boom");
    let res = Digits::new().transform(failed());
    assert_eq!(message(res), "boom");
}

#[test]
fn digits_report_end_of_input_and_offset() {
    assert_eq!(message(Digits::new().run("")), "Digits: Unexpected end of input");
    assert_eq!(message(Digits::new().run("ab12")), "Digits: No digits were matched at index: 0");
    let res = Digits::new().transform(at("abcdefghijklmnop", 12));
    assert_eq!(res.index, 12);
    assert_eq!(message(res), "Digits: No digits were matched at index: 12");
}

#[test]
fn letters_match_at_the_current_offset() {
    let res = Letters::new().transform(at("12abc3", 2));
    assert_eq!(res.index, 5);
    assert_eq!(values(res), vec!["abc".to_owned()]);
    let res = Letters::default().transform(at("a1", 1));
    assert_eq!(message(res), "Letters: No letters were matched at index: 1");
}

#[test]
fn digits_take_the_longest_run() {
    let res = Digits::default().transform(at("x2024y", 1));
    assert_eq!(res.index, 5);
    assert_eq!(values(res), vec!["2024".to_owned()]);
}

#[test]
fn map_result_changes_only_the_result() {
    let upper = map_result(lit("ab"), |r: ParserResult<String>| match r {
        Some(Ok(Cardinality::One(s))) => Some(Ok(Cardinality::One(s.to_uppercase()))),
        other => other,
    });
    let res = upper.run("abc");
    assert_eq!(res.index, 2);
    assert_eq!(values(res), vec!["AB".to_owned()]);
}

#[test]
fn chain_picks_the_next_parser_from_the_result() {
    let chained = chain_parser(lit("a"), |r: &ParserResult<String>| match r {
        Some(Ok(_)) => lit("b"),
        _ => lit("c"),
    });
    let res = chained.run("ab");
    assert_eq!(res.index, 2);
    assert_eq!(values(res), vec!["b".to_owned()]);
    let res = chained.run("xb");
    assert_eq!(res.index, 0);
    assert_eq!(message(res), "Str: Tried to match a, but got xb");
}

#[test]
fn ref_parser_delegates_to_what_it_builds() {
    let r = RefParser::new(|| lit("a"));
    let res = r.run("ab");
    assert_eq!(res.index, 1);
    assert_eq!(values(res), vec!["a".to_owned()]);
}

#[test]
fn cardinality_unwraps_its_variant() {
    assert_eq!(Cardinality::One(7u8).unwrap_one(), 7);
    assert_eq!(Cardinality::Many(vec![1u8, 2]).unwrap_many(), vec![1, 2]);
}

#[test]
fn log_lines_are_indented_per_scope() {
    let mut log = LocalLog::default();
    assert_eq!(log.line("x"), "x");
    log.start_scope();
    log.start_scope();
    assert_eq!(log.line("x"), "      x");
    log.close_scope();
    assert_eq!(log.indent, 1);
    assert_eq!(log.line("y"), "   y");
}

#[test]
fn state_errors_keep_offset_and_input() {
    let state = at("abc", 2);
    assert!(!state.is_error());
    let failed: State<u8> = state.new_err("bad".to_owned());
    assert!(failed.is_error());
    assert_eq!(failed.index, 2);
    assert_eq!(*failed.target, "abc");
    let carried: State<String> = State::from_err_state(failed);
    assert_eq!(carried.index, 2);
    assert_eq!(message(carried), "bad");
}

#[test]
fn closure_parser_returns_what_its_function_returns() {
    let cat = Parser::new(|state: State<String>| {
        if *state.target == "cat" {
            return State { index: 3, target: state.target, result: Some(Ok(Cardinality::One(String::from("cat")))) };
        }
        State { index: state.index, target: state.target, result: Some(Err(String::from("Unable to match string 'cat'"))) }
    });
    let res = cat.run("cat");
    assert_eq!(res.index, 3);
    assert_eq!(values(res), vec!["cat".to_owned()]);
    assert_eq!(message(cat.run("dog")), "Unable to match string 'cat'");
}

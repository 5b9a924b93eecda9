use data_generator::command::{
    execute_command, handle_user_data, parse_send_args, recognize, Command, Outcome, SendArgError,
    WindowSpec,
};
use data_generator::record::Record;
use serde_json::Value;

fn strings(texts: &[&str]) -> Vec<String> {
    texts.iter().map(|text| String::from(*text)).collect()
}

fn parsed(text: &str) -> Value {
    serde_json::from_str(text).unwrap()
}

fn abc() -> Record {
    let mut record = Record::new();
    record.store_data(&strings(&[r#"{"json_field":0}"#, r#"{"json_field":1}"#, r#"{"json_field":2}"#]));
    record
}

fn all(record: &mut Record) -> Vec<Value> {
    record.get_data(None, false, false).unwrap_or_default()
}

fn sent(outcome: Result<Outcome, SendArgError>) -> Option<Vec<Value>> {
    match outcome {
        Ok(Outcome::Sent(data)) => data,
        other => panic!("not a window: {:?}", other),
    }
}

#[test]
fn execute_command_name_is_case_insensitive() {
    let name = String::from("sEnD");
    let mut record = abc();
    let outcome = execute_command(&name, strings(&["1", "true", "false"]), &mut record);
    assert_eq!(sent(outcome), Some(vec![parsed(r#"{"json_field":2}"#)]));
    assert_eq!(record.len(), 3);
}

#[test]
fn lib_execute_command_name_is_case_insensitive() {
    let name = String::from("sEnD");
    assert_eq!(recognize(&name), Command::Send);
    assert_eq!(recognize("SEND"), Command::Send);
    assert_eq!(recognize("send"), Command::Send);
    assert_eq!(recognize("Store"), Command::Store);
    assert_eq!(recognize("QuIt"), Command::Quit);
}

#[test]
fn execute_command_name_strip_whitespaces() {
    let name = String::from("sEnD");
    let padded = format!("  {} \t\n", name);
    let mut record = abc();
    let outcome = execute_command(&padded, strings(&["none", "false", "false"]), &mut record);
    assert_eq!(sent(outcome), Some(all(&mut record)));
    assert_eq!(recognize("\u{a0}store\u{2003}"), Command::Store);
    assert_eq!(recognize("\r\nquit"), Command::Quit);
}

#[test]
fn command_dispatch_send_latest_one() {
    let mut record = abc();
    let before = all(&mut record);
    let outcome = execute_command(&String::from("sEnD"), strings(&["1", "true", "false"]), &mut record);
    assert_eq!(sent(outcome), Some(vec![parsed(r#"{"json_field":2}"#)]));
    assert_eq!(all(&mut record), before);
}

#[test]
fn command_name_is_the_first_token() {
    assert_eq!(recognize("send now"), Command::Send);
    assert_eq!(recognize(" quit please "), Command::Quit);
    assert_eq!(recognize("sendnow"), Command::Unknown);
    assert_eq!(recognize("sen"), Command::Unknown);
    assert_eq!(recognize("s end"), Command::Unknown);
}

#[test]
fn blank_names_hold_no_command() {
    for name in ["", " ", "\t\n", "\u{3000}"] {
        assert_eq!(recognize(name), Command::Missing, "{:?}", name);
    }
}

#[test]
fn only_ascii_case_is_folded() {
    assert_eq!(recognize("\u{17f}end"), Command::Unknown);
    assert_eq!(recognize("qu\u{130}t"), Command::Unknown);
    assert_eq!(recognize("\u{ff53}end"), Command::Unknown);
    assert_eq!(recognize("send\u{0}"), Command::Unknown);
    assert_eq!(recognize("[END"), Command::Unknown);
    assert_eq!(recognize("sTORE"), Command::Store);
}

#[test]
fn send_arguments_are_read() {
    assert_eq!(
        parse_send_args(&strings(&["1", "true", "false"])),
        Ok(WindowSpec { count: Some(1), from_latest: true, flush_after: false })
    );
    assert_eq!(
        parse_send_args(&strings(&["none", "false", "true"])),
        Ok(WindowSpec { count: None, from_latest: false, flush_after: true })
    );
    assert_eq!(
        parse_send_args(&strings(&["NoNe", "false", "false"])),
        Ok(WindowSpec { count: None, from_latest: false, flush_after: false })
    );
    assert_eq!(
        parse_send_args(&strings(&["0", "true", "true"])),
        Ok(WindowSpec { count: Some(0), from_latest: true, flush_after: true })
    );
    assert_eq!(
        parse_send_args(&strings(&["+007", "true", "true"])),
        Ok(WindowSpec { count: Some(7), from_latest: true, flush_after: true })
    );
    let most = usize::MAX.to_string();
    assert_eq!(
        parse_send_args(&strings(&[&most, "false", "false"])),
        Ok(WindowSpec { count: Some(usize::MAX), from_latest: false, flush_after: false })
    );
}

#[test]
fn send_arguments_are_refused_one_by_one() {
    assert_eq!(parse_send_args(&strings(&[])), Err(SendArgError::WrongArity));
    assert_eq!(parse_send_args(&strings(&["1", "true"])), Err(SendArgError::WrongArity));
    assert_eq!(
        parse_send_args(&strings(&["1", "true", "false", "true"])),
        Err(SendArgError::WrongArity)
    );
    for count in ["", "-1", "1.5", "one", "nonee", "non", " 1", "1 ", "+", "0x10", "١"] {
        assert_eq!(
            parse_send_args(&strings(&[count, "true", "false"])),
            Err(SendArgError::BadCount),
            "{:?}",
            count
        );
    }
    let too_much = format!("{}0", usize::MAX);
    assert_eq!(
        parse_send_args(&strings(&[&too_much, "true", "false"])),
        Err(SendArgError::BadCount)
    );
    for flag in ["", "True", "TRUE", "1", "yes", " true", "false "] {
        assert_eq!(
            parse_send_args(&strings(&["1", flag, "false"])),
            Err(SendArgError::BadLatest),
            "{:?}",
            flag
        );
        assert_eq!(
            parse_send_args(&strings(&["1", "true", flag])),
            Err(SendArgError::BadFlush),
            "{:?}",
            flag
        );
    }
    assert_eq!(parse_send_args(&strings(&["x", "y", "z"])), Err(SendArgError::BadCount));
    assert_eq!(parse_send_args(&strings(&["1", "y", "z"])), Err(SendArgError::BadLatest));
}

#[test]
fn count_argument_agrees_with_the_standard_parser() {
    for text in ["0", "1", "42", "+3", "-3", "", "+", "++1", "1+", "00", "18446744073709551615",
        "18446744073709551616", "99999999999999999999999999", "1_000", "１"]
    {
        let expected = text.parse::<usize>().ok();
        let found = parse_send_args(&strings(&[text, "true", "true"])).ok().map(|spec| spec.count);
        assert_eq!(found, expected.map(Some), "{:?}", text);
    }
}

#[test]
fn refused_send_leaves_the_buffer_alone() {
    let mut record = abc();
    let before = all(&mut record);
    for args in [vec!["x", "true", "true"], vec!["1", "maybe", "true"], vec!["1", "true", "?"], vec!["1"]] {
        let outcome = execute_command(&String::from("send"), strings(&args), &mut record);
        assert!(outcome.is_err());
        assert_eq!(all(&mut record), before);
    }
}

#[test]
fn send_with_flush_empties_the_buffer() {
    let mut record = abc();
    let before = all(&mut record);
    let outcome = execute_command(&String::from("SEND"), strings(&["none", "false", "true"]), &mut record);
    assert_eq!(sent(outcome), Some(before));
    assert_eq!(record.len(), 0);
    let outcome = execute_command(&String::from("send"), strings(&["none", "false", "true"]), &mut record);
    assert_eq!(sent(outcome), None);
}

#[test]
fn send_first_two() {
    let mut record = abc();
    let outcome = execute_command(&String::from("send"), strings(&["2", "false", "false"]), &mut record);
    assert_eq!(
        sent(outcome),
        Some(vec![parsed(r#"{"json_field":0}"#), parsed(r#"{"json_field":1}"#)])
    );
    assert_eq!(record.len(), 3);
}

#[test]
fn store_forwards_every_argument() {
    let mut record = abc();
    let outcome = execute_command(
        &String::from(" Store"),
        strings(&[r#"{"a": 1}"#, "oops", "[true]"]),
        &mut record,
    );
    match outcome {
        Ok(Outcome::Stored(report)) => {
            assert_eq!(report.stored, 2);
            assert_eq!(report.rejected.len(), 1);
            assert_eq!(report.rejected[0].line, 2);
        }
        other => panic!("not stored: {:?}", other),
    }
    assert_eq!(record.len(), 5);
    assert_eq!(
        record.get_data(Some(2), true, false).unwrap(),
        vec![parsed(r#"{"a": 1}"#), parsed("[true]")]
    );
}

#[test]
fn quit_touches_nothing() {
    let mut record = abc();
    let outcome = execute_command(&String::from("quit"), strings(&["ignored"]), &mut record);
    assert!(matches!(outcome, Ok(Outcome::Quit)));
    assert_eq!(record.len(), 3);
}

#[test]
fn unknown_commands_are_not_fatal() {
    let mut record = abc();
    let outcome = execute_command(&String::from("delete"), strings(&["1"]), &mut record);
    assert!(matches!(outcome, Ok(Outcome::Unrecognized)));
    let outcome = execute_command(&String::from("   "), strings(&["1"]), &mut record);
    assert!(matches!(outcome, Ok(Outcome::Missing)));
    assert_eq!(record.len(), 3);
    let outcome = execute_command(&String::from("store"), strings(&["1"]), &mut record);
    assert!(matches!(outcome, Ok(Outcome::Stored(_))));
    assert_eq!(record.len(), 4);
}

#[test]
fn a_batch_of_lines_is_a_command_and_its_arguments() {
    let mut record = Record::new();
    let outcome = handle_user_data(&strings(&["store", "1", "2", "x"]), &mut record);
    assert!(matches!(outcome, Ok(Outcome::Stored(_))));
    assert_eq!(record.len(), 2);

    let outcome = handle_user_data(&strings(&["send", "1", "true", "true"]), &mut record);
    assert_eq!(sent(outcome), Some(vec![parsed("2")]));
    assert_eq!(record.len(), 0);

    let outcome = handle_user_data(&strings(&["send", "1", "true"]), &mut record);
    assert_eq!(outcome.err(), Some(SendArgError::WrongArity));

    assert!(matches!(handle_user_data(&strings(&["quit"]), &mut record), Ok(Outcome::Quit)));
    assert!(matches!(handle_user_data(&strings(&[]), &mut record), Ok(Outcome::Missing)));
    assert!(matches!(handle_user_data(&strings(&["", "store"]), &mut record), Ok(Outcome::Missing)));
    assert!(matches!(handle_user_data(&strings(&["what"]), &mut record), Ok(Outcome::Unrecognized)));
}

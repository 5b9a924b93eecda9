//! The command dispatcher: `store`, `send` and `quit` on a record buffer.

use crate::record::{after_read, documents, holds, rejected_lines, window, Record, StoreReport};
use crate::text::{
    chars_of, eq_ignoring_case, first_token, first_word, literal_up_to, parse_unsigned,
    same_ignoring_case, same_text, texts,
};
use serde_json::Value;
use vstd::prelude::*;

verus! {

/// A read request: how many entries, from which end, and whether the buffer
/// is emptied afterwards. No `count` asks for all entries.
#[derive(Clone, Copy, Debug, PartialEq, Eq)]
pub struct WindowSpec {
    pub count: Option<usize>,
    pub from_latest: bool,
    pub flush_after: bool,
}

/// Why the arguments of `send` were refused.
#[derive(Clone, Copy, Debug, PartialEq, Eq)]
pub enum SendArgError {
    /// There are not exactly three arguments.
    WrongArity,
    /// The first argument is neither an unsigned integer nor `none`.
    BadCount,
    /// The second argument is neither `true` nor `false`.
    BadLatest,
    /// The third argument is neither `true` nor `false`.
    BadFlush,
}

/// The commands that a name can stand for.
#[derive(Clone, Copy, Debug, PartialEq, Eq)]
pub enum Command {
    Send,
    Store,
    Quit,
    /// A name that is none of the above.
    Unknown,
    /// No name at all: the text is empty or white space.
    Missing,
}

/// What a command did.
#[derive(Debug)]
pub enum Outcome {
    /// `send`: the window that was read, to be handed to the transport.
    Sent(Option<Vec<Value>>),
    /// `store`: the report of the batch.
    Stored(StoreReport),
    /// `quit`: the caller's loop is to end.
    Quit,
    /// The command is not known; nothing was done.
    Unrecognized,
    /// There was no command; nothing was done.
    Missing,
}

/// The first argument of `send`: an unsigned integer that fits a `usize`, or
/// `none` in any mix of cases for "all entries".
pub open spec fn count_argument(text: Seq<char>) -> Option<Option<usize>> {
    match literal_up_to(text, usize::MAX as nat) {
        Some(count) => Some(Some(count as usize)),
        None => if same_ignoring_case(text, "none"@) {
            Some(None)
        } else {
            None
        },
    }
}

/// A boolean argument: `true` or `false`, spelled exactly so.
pub open spec fn bool_argument(text: Seq<char>) -> Option<bool> {
    if text == "true"@ {
        Some(true)
    } else if text == "false"@ {
        Some(false)
    } else {
        None
    }
}

/// The read request that the arguments of `send` denote, or the first reason
/// to refuse them.
pub open spec fn send_arguments(args: Seq<Seq<char>>) -> Result<WindowSpec, SendArgError> {
    if args.len() != 3 {
        Err(SendArgError::WrongArity)
    } else {
        match (count_argument(args[0]), bool_argument(args[1]), bool_argument(args[2])) {
            (None, _, _) => Err(SendArgError::BadCount),
            (Some(_), None, _) => Err(SendArgError::BadLatest),
            (Some(_), Some(_), None) => Err(SendArgError::BadFlush),
            (Some(count), Some(from_latest), Some(flush_after)) => Ok(
                WindowSpec { count, from_latest, flush_after },
            ),
        }
    }
}

/// The command that a name stands for: its first token, compared without
/// regard to the case of ASCII letters.
pub open spec fn command_of(name: Seq<char>) -> Command {
    let word = first_word(name);
    if word.len() == 0 {
        Command::Missing
    } else if same_ignoring_case(word, "send"@) {
        Command::Send
    } else if same_ignoring_case(word, "store"@) {
        Command::Store
    } else if same_ignoring_case(word, "quit"@) {
        Command::Quit
    } else {
        Command::Unknown
    }
}

/// What running the command `name` with `args` on a buffer holding `before`
/// amounts to: the outcome and the buffer afterwards.
///
/// - `send` reads the window that its arguments ask for; arguments that are
///   refused leave the buffer untouched.
/// - `store` appends the documents among its arguments.
/// - Every other name leaves the buffer untouched.
pub open spec fn executed(
    name: Seq<char>,
    args: Seq<Seq<char>>,
    before: Seq<Value>,
    outcome: Result<Outcome, SendArgError>,
    after: Seq<Value>,
) -> bool {
    match command_of(name) {
        Command::Send => match send_arguments(args) {
            Ok(request) => {
                &&& outcome matches Ok(Outcome::Sent(data))
                &&& holds(data, window(before, request.count, request.from_latest))
                &&& after == after_read(before, request.flush_after, data is Some)
            },
            Err(error) => {
                &&& outcome matches Err(refusal)
                &&& refusal == error
                &&& after == before
            },
        },
        Command::Store => {
            &&& outcome matches Ok(Outcome::Stored(report))
            &&& report.stored == documents(args).len()
            &&& report.rejected_numbers() == rejected_lines(args)
            &&& after == before + documents(args)
        },
        Command::Quit => outcome matches Ok(Outcome::Quit) && after == before,
        Command::Unknown => outcome matches Ok(Outcome::Unrecognized) && after == before,
        Command::Missing => outcome matches Ok(Outcome::Missing) && after == before,
    }
}

fn parse_count(text: &str) -> (count: Option<Option<usize>>)
    ensures
        count == count_argument(text@),
{
    match parse_unsigned(text, usize::MAX as u64) {
        Some(value) => Some(Some(value as usize)),
        None => {
            if eq_ignoring_case(&chars_of(text), "none") {
                Some(None)
            } else {
                None
            }
        },
    }
}

fn parse_bool(text: &str) -> (flag: Option<bool>)
    ensures
        flag == bool_argument(text@),
{
    if same_text(text, "true") {
        Some(true)
    } else if same_text(text, "false") {
        Some(false)
    } else {
        None
    }
}

/// Reads the three arguments of `send`: the count or `none`, whether to read
/// from the latest entries, and whether to flush.
pub fn parse_send_args(args: &Vec<String>) -> (request: Result<WindowSpec, SendArgError>)
    ensures
        request == send_arguments(texts(args@)),
{
    if args.len() != 3 {
        return Err(SendArgError::WrongArity);
    }
    let count = match parse_count(args[0].as_str()) {
        Some(count) => count,
        None => {
            return Err(SendArgError::BadCount);
        },
    };
    let from_latest = match parse_bool(args[1].as_str()) {
        Some(flag) => flag,
        None => {
            return Err(SendArgError::BadLatest);
        },
    };
    let flush_after = match parse_bool(args[2].as_str()) {
        Some(flag) => flag,
        None => {
            return Err(SendArgError::BadFlush);
        },
    };
    Ok(WindowSpec { count, from_latest, flush_after })
}

/// Tells which command a name stands for.
pub fn recognize(name: &str) -> (command: Command)
    ensures
        command == command_of(name@),
{
    let word = first_token(name);
    if word.len() == 0 {
        Command::Missing
    } else if eq_ignoring_case(&word, "send") {
        Command::Send
    } else if eq_ignoring_case(&word, "store") {
        Command::Store
    } else if eq_ignoring_case(&word, "quit") {
        Command::Quit
    } else {
        Command::Unknown
    }
}

/// Runs one command on the buffer.
pub fn execute_command(name: &String, args: Vec<String>, record: &mut Record) -> (outcome: Result<
    Outcome,
    SendArgError,
>)
    ensures
        executed(name@, texts(args@), old(record)@, outcome, final(record)@),
{
    match recognize(name.as_str()) {
        Command::Send => {
            match parse_send_args(&args) {
                Ok(request) => {
                    let data = record.get_data(
                        request.count,
                        request.from_latest,
                        request.flush_after,
                    );
                    Ok(Outcome::Sent(data))
                },
                Err(error) => Err(error),
            }
        },
        Command::Store => Ok(Outcome::Stored(record.store_data(&args))),
        Command::Quit => Ok(Outcome::Quit),
        Command::Unknown => Ok(Outcome::Unrecognized),
        Command::Missing => Ok(Outcome::Missing),
    }
}

/// Runs the command that a batch of input lines holds: the first line names
/// it, the others are its arguments. A batch without lines holds no command.
pub fn handle_user_data(lines: &Vec<String>, record: &mut Record) -> (outcome: Result<
    Outcome,
    SendArgError,
>)
    ensures
        (if lines@.len() == 0 {
            outcome matches Ok(Outcome::Missing) && final(record)@ == old(record)@
        } else {
            executed(
                lines@[0]@,
                texts(lines@).drop_first(),
                old(record)@,
                outcome,
                final(record)@,
            )
        }),
{
    if lines.len() == 0 {
        return Ok(Outcome::Missing);
    }
    let mut args: Vec<String> = Vec::new();
    let mut i: usize = 1;
    while i < lines.len()
        invariant
            1 <= i <= lines.len(),
            args@ == lines@.subrange(1, i as int),
        decreases lines.len() - i,
    {
        args.push(lines[i].clone());
        i += 1;
    }
    assert(texts(args@) =~= texts(lines@).drop_first());
    execute_command(&lines[0], args, record)
}

} // verus!

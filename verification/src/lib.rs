//! An in-memory buffer of JSON records fed by newline-delimited text, with
//! windowed and optionally destructive reads, a command dispatcher on top of
//! it and the step functions of a periodic generator / storer pair.
//!
//! Nothing here reads input, sleeps or takes a lock: every function works on
//! the values it is given, so that a caller may put the buffer behind a lock
//! and run each step inside one critical section.

pub mod command;
pub mod config;
pub mod generator;
pub mod json;
pub mod record;
pub mod text;

pub use crate::config::Config;

use crate::record::Record;
use serde_json::Value;
use std::time::Duration;
use vstd::prelude::*;

verus! {

/// The two ways to feed the buffer. They exclude each other.
#[derive(Debug)]
pub enum Mode {
    /// A generator and a storer, each with its period.
    Random { generate_interval: Duration, store_interval: Duration },
    /// Commands from the input.
    Interactive,
}

/// What a run starts from: an empty buffer and the mode that feeds it.
#[derive(Debug)]
pub struct Session {
    pub record: Record,
    pub mode: Mode,
}

/// The mode that a configuration selects.
pub open spec fn mode_of(conf: Config) -> Mode {
    if conf.random {
        Mode::Random {
            generate_interval: conf.random_generate_interval,
            store_interval: conf.random_store_interval,
        }
    } else {
        Mode::Interactive
    }
}

/// Sets a run up: makes the buffer and selects the mode.
pub fn run(conf: &Config) -> (session: Session)
    ensures
        session.record@ == Seq::<Value>::empty(),
        session.mode == mode_of(*conf),
{
    let record = Record::new();
    let mode = if conf.random {
        Mode::Random {
            generate_interval: conf.random_generate_interval,
            store_interval: conf.random_store_interval,
        }
    } else {
        Mode::Interactive
    };
    Session { record, mode }
}

} // verus!

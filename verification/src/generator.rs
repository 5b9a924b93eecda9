//! The generator and the storer, one tick at a time. The generator makes an
//! entry and keeps it in its pending list until the staging area can be had;
//! the storer empties the staging area into the record buffer. The caller
//! owns the clock, the timers and the locks.

use crate::record::{documents, rejected_lines, Record, StoreReport};
use crate::text::{decimal_digits, push_decimal, texts};
use rand::Rng;
use vstd::prelude::*;

verus! {

/// The lowest random value of an entry.
pub const RANDOM_MIN: u32 = 1;

/// The highest random value of an entry.
pub const RANDOM_MAX: u32 = 100;

/// The text of an entry: a JSON object with the time in milliseconds since
/// the epoch and the random value.
pub open spec fn entry_text(millis: nat, value: nat) -> Seq<char> {
    "{\"time\": "@ + decimal_digits(millis) + ", \"random_value\": "@ + decimal_digits(value)
        + "}"@
}

/// Whether `after` is `before` with one more line at its end, whose text is
/// `text`.
pub open spec fn appended(before: Seq<String>, after: Seq<String>, text: Seq<char>) -> bool {
    &&& after.len() == before.len() + 1
    &&& after.drop_last() == before
    &&& after.last()@ == text
}

/// What the generator's loop does after a tick.
#[derive(Clone, Copy, Debug, PartialEq, Eq)]
pub enum GeneratorStep {
    /// An entry is pending: try to get the staging area, without waiting.
    TryStaging,
    /// The clock could not be read: nothing was made, wait for the next tick.
    Idle,
}

/// Calls `rand::thread_rng().gen_range(low..high)`, which draws from the
/// half-open range and wants it not to be empty. All that is claimed of the
/// value is that it lies in the range: two calls may differ. The thread's
/// generator is seeded from the system on first use and gives up where the
/// system has no randomness to offer.
#[verifier::external_body]
fn random_in(low: u32, high: u32) -> (value: u32)
    requires
        low < high,
    ensures
        low <= value < high,
{
    rand::thread_rng().gen_range(low..high)
}

/// Writes an entry.
pub fn make_entry(millis: u128, value: u32) -> (entry: String)
    ensures
        entry@ == entry_text(millis as nat, value as nat),
{
    let mut entry = "{\"time\": ".to_owned();
    push_decimal(&mut entry, millis);
    entry.append(", \"random_value\": ");
    push_decimal(&mut entry, value as u128);
    entry.append("}");
    entry
}

/// Adds the entry for `millis` and `value` to the pending list.
pub fn push_entry(pending: &mut Vec<String>, millis: u128, value: u32)
    ensures
        appended(old(pending)@, final(pending)@, entry_text(millis as nat, value as nat)),
{
    let entry = make_entry(millis, value);
    pending.push(entry);
    assert(pending@.drop_last() =~= old(pending)@);
}

/// One tick of the generator. `clock` is the time in milliseconds since the
/// epoch, or `None` when it could not be read. With a time, one entry with a
/// random value from `RANDOM_MIN` to `RANDOM_MAX` joins the pending list;
/// without, the list stays as it is.
pub fn generate_random_data(pending: &mut Vec<String>, clock: Option<u128>) -> (step:
    GeneratorStep)
    ensures
        (match clock {
            Some(millis) => {
                &&& step == GeneratorStep::TryStaging
                &&& exists|value: nat|
                    RANDOM_MIN <= value <= RANDOM_MAX && #[trigger] appended(
                        old(pending)@,
                        final(pending)@,
                        entry_text(millis as nat, value),
                    )
            },
            None => step == GeneratorStep::Idle && final(pending)@ == old(pending)@,
        }),
{
    match clock {
        Some(millis) => {
            let value = random_in(RANDOM_MIN, RANDOM_MAX + 1);
            push_entry(pending, millis, value);
            GeneratorStep::TryStaging
        },
        None => GeneratorStep::Idle,
    }
}

/// Moves the pending entries to the end of the staging area, in order. For
/// the tick on which the staging area could be had; on the others the
/// pending list is left to grow.
pub fn stage_pending(pending: &mut Vec<String>, staging: &mut Vec<String>)
    ensures
        final(staging)@ == old(staging)@ + old(pending)@,
        final(pending)@ == Seq::<String>::empty(),
{
    staging.append(pending);
}

/// One tick of the storer: stores what is staged and empties the staging
/// area. A staged line that is no JSON document is dropped for good.
pub fn store_random_data(staging: &mut Vec<String>, record: &mut Record) -> (report: StoreReport)
    ensures
        final(record)@ == old(record)@ + documents(texts(old(staging)@)),
        final(staging)@ == Seq::<String>::empty(),
        report.stored == documents(texts(old(staging)@)).len(),
        report.rejected_numbers() == rejected_lines(texts(old(staging)@)),
{
    let report = record.store_data(staging);
    staging.clear();
    report
}

} // verus!

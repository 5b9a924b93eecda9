//! The record buffer: JSON documents in the order in which they were stored,
//! fed line by line and read back through windows.

use crate::json::{json_document, parse_document};
use crate::text::texts;
use serde_json::Value;
use vstd::prelude::*;

verus! {

/// The documents that a batch of lines contributes: one for each line that
/// is a JSON document, in the order of the lines. The other lines contribute
/// nothing.
pub open spec fn documents(lines: Seq<Seq<char>>) -> Seq<Value>
    decreases lines.len(),
{
    if lines.len() == 0 {
        Seq::empty()
    } else {
        let earlier = documents(lines.drop_last());
        match json_document(lines.last()) {
            Some(document) => earlier.push(document),
            None => earlier,
        }
    }
}

/// The numbers, counted from one, of the lines of a batch that are no JSON
/// document, in increasing order.
pub open spec fn rejected_lines(lines: Seq<Seq<char>>) -> Seq<nat>
    decreases lines.len(),
{
    if lines.len() == 0 {
        Seq::empty()
    } else {
        let earlier = rejected_lines(lines.drop_last());
        match json_document(lines.last()) {
            Some(_) => earlier,
            None => earlier.push(lines.len()),
        }
    }
}

/// What a read of `entries` returns: nothing when there are no entries or
/// when zero entries are asked for; else all entries, the first `count` or
/// the last `count` of them, `count` being cut down to what is there.
pub open spec fn window(entries: Seq<Value>, count: Option<usize>, from_latest: bool) -> Option<
    Seq<Value>,
> {
    let length = entries.len() as int;
    if length == 0 || count == Some(0usize) {
        None
    } else {
        match count {
            None => Some(entries),
            Some(n) => {
                let shown = if n < length {
                    n as int
                } else {
                    length
                };
                if from_latest {
                    Some(entries.subrange(length - shown, length))
                } else {
                    Some(entries.subrange(0, shown))
                }
            },
        }
    }
}

/// Whether `data` holds copies of exactly the entries `expected`, or is
/// `None` as `expected` is.
pub open spec fn holds(data: Option<Vec<Value>>, expected: Option<Seq<Value>>) -> bool {
    match expected {
        Some(entries) => data matches Some(copies) && copies@ == entries,
        None => data is None,
    }
}

/// The buffer after a read: emptied when the read was to flush and returned
/// documents, else as before.
pub open spec fn after_read(before: Seq<Value>, flush: bool, returned: bool) -> Seq<Value> {
    if flush && returned {
        Seq::empty()
    } else {
        before
    }
}

/// A batch of one line stores the line's document, if it is one.
pub proof fn lemma_documents_of_one(line: Seq<char>)
    ensures
        documents(seq![line]) == (match json_document(line) {
            Some(document) => seq![document],
            None => Seq::<Value>::empty(),
        }),
{
    assert(documents(seq![line].drop_last()) =~= Seq::<Value>::empty());
}

/// Two batches stored one after the other store what the two store as one
/// batch: however the batches of several producers are cut and ordered, each
/// line that is a document is stored once, and the lines of a batch stay in
/// their order.
pub proof fn lemma_documents_of_batches(first: Seq<Seq<char>>, second: Seq<Seq<char>>)
    ensures
        documents(first + second) == documents(first) + documents(second),
    decreases second.len(),
{
    if second.len() > 0 {
        lemma_documents_of_batches(first, second.drop_last());
        assert((first + second).drop_last() =~= first + second.drop_last());
    }
}

/// Every line of a batch is either stored or rejected: of `N` lines with `K`
/// documents among them, `K` are stored and `N - K` rejected.
pub proof fn lemma_stored_or_rejected(lines: Seq<Seq<char>>)
    ensures
        documents(lines).len() + rejected_lines(lines).len() == lines.len(),
    decreases lines.len(),
{
    if lines.len() > 0 {
        lemma_stored_or_rejected(lines.drop_last());
    }
}

/// A window that is returned is never empty, and never longer than what was
/// asked for or than the buffer.
pub proof fn lemma_window_length(entries: Seq<Value>, count: Option<usize>, from_latest: bool)
    ensures
        window(entries, count, from_latest) matches Some(shown) ==> ({
            &&& 0 < shown.len() <= entries.len()
            &&& count matches Some(n) ==> shown.len() == (if n < entries.len() {
                n as int
            } else {
                entries.len() as int
            })
            &&& count is None ==> shown == entries
        }),
{
}

/// A line that was not stored, with the parser's reason.
#[derive(Debug)]
pub struct Rejection {
    /// The number of the line in its batch, counted from one.
    pub line: usize,
    /// The parser's message.
    pub reason: String,
}

/// The outcome of storing a batch of lines.
#[derive(Debug)]
pub struct StoreReport {
    /// How many lines were parsed and stored.
    pub stored: usize,
    /// The lines that were skipped, in the order of the batch.
    pub rejected: Vec<Rejection>,
}

/// The line numbers of a list of rejections, in order.
pub open spec fn line_numbers(rejected: Seq<Rejection>) -> Seq<nat> {
    rejected.map_values(|rejection: Rejection| rejection.line as nat)
}

impl StoreReport {
    /// The numbers of the skipped lines.
    pub open spec fn rejected_numbers(self) -> Seq<nat> {
        line_numbers(self.rejected@)
    }
}

/// The buffer of stored documents.
#[derive(Debug)]
pub struct Record {
    list: Vec<Value>,
}

impl View for Record {
    type V = Seq<Value>;

    closed spec fn view(&self) -> Seq<Value> {
        self.list@
    }
}

impl Record {
    /// An empty buffer.
    pub fn new() -> (record: Record)
        ensures
            record@ == Seq::<Value>::empty(),
    {
        Record { list: Vec::new() }
    }

    /// The number of stored documents.
    pub fn len(&self) -> (length: usize)
        ensures
            length == self@.len(),
    {
        self.list.len()
    }

    /// Parses each line of `data` on its own and appends the documents to the
    /// buffer, in order. A line that is no JSON document is skipped and
    /// listed in the report; it does not stop the batch.
    pub fn store_data(&mut self, data: &Vec<String>) -> (report: StoreReport)
        ensures
            final(self)@ == old(self)@ + documents(texts(data@)),
            report.stored == documents(texts(data@)).len(),
            report.rejected_numbers() == rejected_lines(texts(data@)),
    {
        let ghost lines = texts(data@);
        let mut stored: usize = 0;
        let mut rejected: Vec<Rejection> = Vec::new();
        let mut i: usize = 0;
        while i < data.len()
            invariant
                i <= data.len(),
                lines == texts(data@),
                self@ == old(self)@ + documents(lines.take(i as int)),
                stored == documents(lines.take(i as int)).len(),
                stored <= i,
                line_numbers(rejected@) == rejected_lines(lines.take(i as int)),
            decreases data.len() - i,
        {
            assert(lines.take(i + 1).drop_last() =~= lines.take(i as int));
            match parse_document(data[i].as_str()) {
                Ok(document) => {
                    self.list.push(document);
                    stored += 1;
                },
                Err(error) => {
                    let rejection = Rejection { line: i + 1, reason: error.to_string() };
                    rejected.push(rejection);
                },
            }
            i += 1;
        }
        assert(lines.take(data.len() as int) =~= lines);
        StoreReport { stored, rejected }
    }

    /// Reads a window of the buffer: all documents when `lines` is `None`,
    /// else the first `lines` of them or, with `latest`, the last `lines`. A
    /// count beyond the buffer's length is cut down to it. With `flush`, a
    /// read that returns documents empties the buffer in the same step. A
    /// read of an empty buffer, or of zero documents, returns `None` and
    /// leaves the buffer as it is.
    pub fn get_data(&mut self, lines: Option<usize>, latest: bool, flush: bool) -> (data: Option<
        Vec<Value>,
    >)
        ensures
            holds(data, window(old(self)@, lines, latest)),
            final(self)@ == after_read(old(self)@, flush, data is Some),
    {
        let length = self.list.len();
        if length == 0 {
            return None;
        }
        let mut start: usize = 0;
        let mut end: usize = length;
        if let Some(count) = lines {
            if count == 0 {
                return None;
            }
            if count < length {
                if latest {
                    start = length - count;
                } else {
                    end = count;
                }
            }
        }
        let mut copies: Vec<Value> = Vec::new();
        let mut i: usize = start;
        while i < end
            invariant
                start <= i <= end <= length,
                length == self.list@.len(),
                self@ == old(self)@,
                copies@ == self.list@.subrange(start as int, i as int),
            decreases end - i,
        {
            copies.push(self.list[i].clone());
            i += 1;
        }
        assert(self.list@.subrange(0, length as int) =~= self.list@);
        if flush {
            self.list.clear();
        }
        Some(copies)
    }
}

} // verus!

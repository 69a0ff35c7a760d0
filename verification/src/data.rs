//! Records and record sources.
//!
//! A [`Record`] is anything the benchmark can sort: it carries a total order
//! given by an integer key. [`Review`] is the concrete record type of the
//! real dataset, decoded from one JSON line. [`JSONReader`] turns the lines
//! of such a file into records, honouring an optional record-count limit.

use vstd::prelude::*;

verus! {

/// A sortable record.
///
/// The order is total: every record maps to an integer key and records are
/// compared by their keys. A total order guarantees that every sorting
/// strategy has a deterministic, checkable post-condition (records with
/// equal keys count as equal for the order).
pub trait Record: Sized + Copy {
    /// The key that orders this record.
    spec fn key(&self) -> int;

    /// Whether `self` sorts at or before `other`.
    fn le(&self, other: &Self) -> (r: bool)
        ensures
            r == (self.key() <= other.key()),
    ;
}

impl Record for u64 {
    open spec fn key(&self) -> int {
        *self as int
    }

    fn le(&self, other: &u64) -> (r: bool) {
        *self <= *other
    }
}

/// A record of the real dataset: one review, decoded from a JSON line of the
/// form `[id, score]`. Reviews are ordered by score.
#[derive(Clone, Copy, PartialEq, Eq, Structural, Debug)]
pub struct Review {
    pub id: u64,
    pub score: u64,
}

impl Record for Review {
    open spec fn key(&self) -> int {
        self.score as int
    }

    fn le(&self, other: &Review) -> (r: bool) {
        self.score <= other.score
    }
}

/// The review, if any, that decoding one dataset line yields. Decoding is a
/// function of the line's text alone; which lines decode to which reviews is
/// left to the decoder.
pub uninterp spec fn spec_parse_review(line: Seq<char>) -> Option<Review>;

/// Relies on `serde_json::from_str`: parsing a `[u64, u64]` JSON line is
/// deterministic, a function of the line's text alone.
#[verifier::external_body]
fn parse_review_line(line: &String) -> (r: Option<Review>)
    ensures
        r == spec_parse_review(line@),
{
    match serde_json::from_str::<(u64, u64)>(line.as_str()) {
        Ok((id, score)) => Some(Review { id, score }),
        Err(_) => None,
    }
}

/// Why loading records from a dataset failed.
#[derive(Clone, Copy, PartialEq, Eq, Structural, Debug)]
pub enum RecordIOError {
    /// A line of the dataset was not a well-formed record.
    MalformedRecord,
}

/// How many leading lines a read with the given limit takes from a dataset
/// of `total` lines: all of them, or the limit if it is smaller.
pub open spec fn spec_read_count(limit: Option<usize>, total: int) -> int {
    match limit {
        Some(l) => if l as int <= total { l as int } else { total },
        None => total,
    }
}

/// Reads reviews from the lines of a file where every line is one JSON
/// record.
pub struct JSONReader;

impl JSONReader {
    /// Decodes the leading `limit` lines (all lines, when no limit is given)
    /// into reviews. Succeeds if and only if every taken line decodes; the
    /// first line that does not makes the whole read fail.
    pub fn read_lines(&self, lines: &Vec<String>, limit: Option<usize>) -> (r: Result<
        Vec<Review>,
        RecordIOError,
    >)
        ensures
            ({
                let n = spec_read_count(limit, lines@.len() as int);
                if forall|k: int| 0 <= k < n ==> #[trigger] spec_parse_review(lines@[k]@) is Some {
                    r matches Ok(records) && records@.len() == n && forall|k: int|
                        0 <= k < n ==> #[trigger] records@[k] == spec_parse_review(
                            lines@[k]@,
                        ).unwrap()
                } else {
                    r matches Err(e) && e == RecordIOError::MalformedRecord
                }
            }),
    {
        let total = lines.len();
        let n: usize = match limit {
            Some(l) => if l <= total {
                l
            } else {
                total
            },
            None => total,
        };
        let mut records: Vec<Review> = Vec::new();
        let mut i: usize = 0;
        while i < n
            invariant
                i <= n,
                n <= lines@.len(),
                n as int == spec_read_count(limit, lines@.len() as int),
                records@.len() == i as int,
                forall|k: int| 0 <= k < i ==> #[trigger] spec_parse_review(lines@[k]@) is Some,
                forall|k: int|
                    0 <= k < i ==> #[trigger] records@[k] == spec_parse_review(lines@[k]@).unwrap(),
            decreases n - i,
        {
            match parse_review_line(&lines[i]) {
                Some(record) => {
                    records.push(record);
                },
                None => {
                    return Err(RecordIOError::MalformedRecord);
                },
            }
            i += 1;
        }
        Ok(records)
    }
}

/// Produces synthetic records one at a time.
///
/// Nothing is promised of the values: a generator may be random. The
/// benchmark only relies on how many records it asks for.
pub trait RecordGenerator<T: Record> {
    /// The next synthetic record.
    fn generate_record(&mut self) -> T;
}

/// Writes records to the file at `path`, drawn from the given generator and
/// capped at `limit` records. Implementors do the file I/O and live outside
/// this library.
pub trait RecordWriter<T: Record> {
    /// Writes at most `limit` generated records to `path`.
    fn write<G: RecordGenerator<T>>(
        &self,
        path: &String,
        generator: &mut G,
        limit: usize,
    ) -> Result<(), &'static str>;
}

} // verus!

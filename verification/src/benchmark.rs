//! Measurements and the two benchmark runners.
//!
//! A [`Measurement`] is the immutable result of one timed trial. The
//! synthetic-scaling runner times one sort per size of a fixed, inspectable
//! size progression; the fixed-dataset runner times exactly one sort over
//! the records decoded from a dataset's lines. Only the sort call itself is
//! timed: generating or decoding the input happens before the clock starts.

use vstd::prelude::*;
use crate::cli::ApplicationError;
use crate::data::JSONReader;
use crate::data::spec_parse_review;
use crate::data::spec_read_count;
use crate::sort::SortStrategy;
use crate::util::RandomNumberGenerator;

verus! {

/// The result of one completed trial: how many elements the sort ordered,
/// and how long the sort call took. Immutable once constructed; the
/// duration is an unsigned count of nanoseconds, so it is never negative.
#[derive(Clone, Copy, PartialEq, Eq, Structural, Debug)]
pub struct Measurement {
    sorted_elements: usize,
    duration_nanos: u128,
}

impl Measurement {
    /// How many elements the timed sort ordered.
    pub closed spec fn spec_sorted_elements(&self) -> usize {
        self.sorted_elements
    }

    /// The elapsed time of the sort call, in nanoseconds.
    pub closed spec fn spec_duration_nanos(&self) -> u128 {
        self.duration_nanos
    }

    /// A measurement of one completed trial.
    pub fn new(sorted_elements: usize, duration_nanos: u128) -> (m: Measurement)
        ensures
            m.spec_sorted_elements() == sorted_elements,
            m.spec_duration_nanos() == duration_nanos,
    {
        Measurement { sorted_elements, duration_nanos }
    }

    /// How many elements the timed sort ordered.
    pub fn get_sorted_elements(&self) -> (n: usize)
        ensures
            n == self.spec_sorted_elements(),
    {
        self.sorted_elements
    }

    /// The elapsed time of the sort call, in nanoseconds.
    pub fn get_duration_nanos(&self) -> (d: u128)
        ensures
            d == self.spec_duration_nanos(),
    {
        self.duration_nanos
    }
}

#[verifier::external_type_specification]
#[verifier::external_body]
pub struct ExInstant(std::time::Instant);

/// Relies on `std::time::Instant::now`: reads the monotonic high-resolution
/// clock. Nothing can be promised of the instant it returns.
pub assume_specification[ std::time::Instant::now ]() -> std::time::Instant;

/// Relies on `std::time::Instant::elapsed`: the time since the instant was
/// taken, on a monotonic clock. The amount depends on the clock, so nothing
/// is promised of it; a `Duration` cannot be negative.
pub assume_specification[ std::time::Instant::elapsed ](start: &std::time::Instant) -> core::time::Duration;

/// Relies on `core::time::Duration::as_nanos`: the whole duration as a
/// count of nanoseconds.
pub assume_specification[ core::time::Duration::as_nanos ](d: &core::time::Duration) -> u128;

/// A measurement sequence that matches a size progression: one measurement
/// per requested size, in the order the sizes were given.
pub open spec fn measurements_for_sizes(sizes: Seq<usize>, ms: Seq<Measurement>) -> bool {
    &&& ms.len() == sizes.len()
    &&& forall|i: int| 0 <= i < sizes.len() ==> #[trigger] ms[i].spec_sorted_elements() == sizes[i]
}

/// Law: the shape of a synthetic run depends on the size progression alone.
/// Two runs over the same progression return the same number of
/// measurements, with equal element counts position by position, however
/// their durations differ.
pub proof fn lemma_synthetic_run_shape_deterministic(
    sizes: Seq<usize>,
    m1: Seq<Measurement>,
    m2: Seq<Measurement>,
)
    requires
        measurements_for_sizes(sizes, m1),
        measurements_for_sizes(sizes, m2),
    ensures
        m1.len() == m2.len(),
        forall|i: int|
            0 <= i < m1.len() ==> #[trigger] m1[i].spec_sorted_elements()
                == m2[i].spec_sorted_elements(),
{
}

/// The size progression a synthetic benchmark uses when none is chosen.
pub open spec fn default_sizes() -> Seq<usize> {
    seq![10usize, 100usize, 1000usize]
}

/// The synthetic-scaling runner: times one sort per size of its size
/// progression, over freshly generated data of that size.
pub struct SimpleBenchmark {
    generator: RandomNumberGenerator,
    sizes: Vec<usize>,
}

impl SimpleBenchmark {
    /// The size progression this runner walks, in trial order.
    pub closed spec fn spec_sizes(&self) -> Seq<usize> {
        self.sizes@
    }

    /// A runner over the default size progression.
    pub fn new(generator: RandomNumberGenerator) -> (b: SimpleBenchmark)
        ensures
            b.spec_sizes() == default_sizes(),
    {
        let mut sizes: Vec<usize> = Vec::new();
        sizes.push(10);
        sizes.push(100);
        sizes.push(1000);
        proof {
            assert(sizes@ =~= default_sizes());
        }
        SimpleBenchmark { generator, sizes }
    }

    /// A runner over a chosen size progression.
    pub fn with_sizes(generator: RandomNumberGenerator, sizes: Vec<usize>) -> (b: SimpleBenchmark)
        ensures
            b.spec_sizes() == sizes@,
    {
        SimpleBenchmark { generator, sizes }
    }

    /// Runs one timed trial per size, in progression order: generates the
    /// data, then times exactly the sort call. Always succeeds, with one
    /// measurement per requested size; an empty progression yields an empty
    /// measurement sequence.
    pub fn execute(&mut self, strategy: &SortStrategy) -> (r: Result<
        Vec<Measurement>,
        ApplicationError,
    >)
        ensures
            final(self).spec_sizes() == old(self).spec_sizes(),
            r matches Ok(ms) && measurements_for_sizes(old(self).spec_sizes(), ms@),
    {
        let mut measurements: Vec<Measurement> = Vec::new();
        let n = self.sizes.len();
        let mut i: usize = 0;
        while i < n
            invariant
                i <= n,
                n == self.sizes@.len(),
                self.sizes@ == old(self).spec_sizes(),
                measurements@.len() == i as int,
                forall|k: int|
                    0 <= k < i ==> #[trigger] measurements@[k].spec_sorted_elements()
                        == self.sizes@[k],
            decreases n - i,
        {
            let size = self.sizes[i];
            let mut data = self.generator.generate(size);
            let start = std::time::Instant::now();
            strategy.sort(&mut data);
            let elapsed = start.elapsed();
            measurements.push(Measurement::new(size, elapsed.as_nanos()));
            i += 1;
        }
        Ok(measurements)
    }
}

/// What a fixed-dataset run must return: if every taken line decodes, a
/// single measurement whose element count is the number of records taken
/// (zero lines make a degenerate measurement of zero elements, not an
/// error); otherwise a `DatasetReadError` and no measurements.
pub open spec fn real_run_outcome(
    limit: Option<usize>,
    lines: Seq<String>,
    r: Result<Vec<Measurement>, ApplicationError>,
) -> bool {
    let n = spec_read_count(limit, lines.len() as int);
    if forall|k: int| 0 <= k < n ==> #[trigger] spec_parse_review(lines[k]@) is Some {
        r matches Ok(ms) && ms@.len() == 1 && ms@[0].spec_sorted_elements() as int == n
    } else {
        r matches Err(e) && e == ApplicationError::DatasetReadError
    }
}

/// The fixed-dataset runner: decodes the dataset's lines, optionally capped
/// at a record limit, and times exactly one sort over the loaded records.
pub struct RealDataBenchmark {
    limit: Option<usize>,
}

impl RealDataBenchmark {
    /// The record-count limit, if any, applied when loading the dataset.
    pub closed spec fn spec_limit(&self) -> Option<usize> {
        self.limit
    }

    /// A runner that loads at most `limit` records, or all of them when no
    /// limit is given.
    pub fn new(limit: Option<usize>) -> (b: RealDataBenchmark)
        ensures
            b.spec_limit() == limit,
    {
        RealDataBenchmark { limit }
    }

    /// Decodes the dataset lines and times one sort over the records. Fails
    /// with `DatasetReadError` if and only if a taken line is malformed.
    pub fn execute(&self, strategy: &SortStrategy, lines: &Vec<String>) -> (r: Result<
        Vec<Measurement>,
        ApplicationError,
    >)
        ensures
            real_run_outcome(self.spec_limit(), lines@, r),
    {
        let reader = JSONReader;
        let mut records = match reader.read_lines(lines, self.limit) {
            Ok(records) => records,
            Err(_) => {
                return Err(ApplicationError::DatasetReadError);
            },
        };
        let size = records.len();
        let start = std::time::Instant::now();
        strategy.sort(&mut records);
        let elapsed = start.elapsed();
        let mut measurements: Vec<Measurement> = Vec::new();
        measurements.push(Measurement::new(size, elapsed.as_nanos()));
        Ok(measurements)
    }
}

impl Default for RealDataBenchmark {
    /// The default runner reads the whole dataset: no record limit.
    fn default() -> (b: RealDataBenchmark)
        ensures
            b.spec_limit() == None::<usize>,
    {
        RealDataBenchmark { limit: None }
    }
}

} // verus!

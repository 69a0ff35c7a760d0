//! Actions, application errors, and the application core.
//!
//! The front end hands the library the raw argument vector (and, for the
//! real-dataset action, the lines of the dataset file); the application core
//! parses the tokens, dispatches to a benchmark runner and returns the
//! measurements or a structured error. Printing and file reading stay with
//! the caller.

use vstd::prelude::*;
use crate::benchmark::Measurement;
use crate::benchmark::RealDataBenchmark;
use crate::benchmark::SimpleBenchmark;
use crate::benchmark::default_sizes;
use crate::benchmark::measurements_for_sizes;
use crate::benchmark::real_run_outcome;
use crate::sort::Algorithm;
use crate::sort::SortFactory;
use crate::sort::spec_algorithm_token;
use crate::util::DEFAULT_SEED;
use crate::util::RandomNumberGenerator;
use crate::util::token_eq;

verus! {

/// The closed set of actions a command line can request. `Fake` and
/// `Generate` are recognized but not implemented yet.
#[derive(Clone, Copy, PartialEq, Eq, Structural, Debug)]
pub enum Action {
    Simple,
    Real,
    Fake,
    Generate,
}

/// A structured error of a benchmark run. The core returns these; a front
/// end renders them.
#[derive(Clone, Copy, PartialEq, Eq, Structural, Debug)]
pub enum ApplicationError {
    /// The action token is missing or names no known action.
    UnknownAction,
    /// The algorithm token is missing or names no supported algorithm.
    UnknownAlgorithm,
    /// The action is recognized but not implemented yet.
    NotImplemented,
    /// The dataset could not be read: a line was not a well-formed record.
    DatasetReadError,
}

impl ApplicationError {
    /// The text that describes each error.
    pub open spec fn spec_message(&self) -> Seq<char> {
        match self {
            ApplicationError::UnknownAction => "unknown or missing action"@,
            ApplicationError::UnknownAlgorithm => "unknown or missing algorithm"@,
            ApplicationError::NotImplemented => "the action is not implemented"@,
            ApplicationError::DatasetReadError => "the dataset could not be read"@,
        }
    }

    /// A human-readable description of the error.
    pub fn message(&self) -> (m: &'static str)
        ensures
            m@ == self.spec_message(),
    {
        match self {
            ApplicationError::UnknownAction => "unknown or missing action",
            ApplicationError::UnknownAlgorithm => "unknown or missing algorithm",
            ApplicationError::NotImplemented => "the action is not implemented",
            ApplicationError::DatasetReadError => "the dataset could not be read",
        }
    }
}

/// The action, if any, that a token names. Recognition is a case-sensitive
/// exact match.
pub open spec fn spec_action_token(s: Seq<char>) -> Option<Action> {
    if s == "simple"@ {
        Some(Action::Simple)
    } else if s == "real"@ {
        Some(Action::Real)
    } else if s == "fake"@ {
        Some(Action::Fake)
    } else if s == "generate"@ {
        Some(Action::Generate)
    } else {
        None
    }
}

impl Action {
    /// Parses an action token. Fails with `UnknownAction` on a missing token
    /// and on every token outside the recognized set.
    pub fn from_token(token: Option<&String>) -> (r: Result<Action, ApplicationError>)
        ensures
            r == (match token {
                Some(t) => match spec_action_token(t@) {
                    Some(a) => Ok::<Action, ApplicationError>(a),
                    None => Err(ApplicationError::UnknownAction),
                },
                None => Err(ApplicationError::UnknownAction),
            }),
    {
        match token {
            Some(t) => {
                if token_eq(t, "simple") {
                    Ok(Action::Simple)
                } else if token_eq(t, "real") {
                    Ok(Action::Real)
                } else if token_eq(t, "fake") {
                    Ok(Action::Fake)
                } else if token_eq(t, "generate") {
                    Ok(Action::Generate)
                } else {
                    Err(ApplicationError::UnknownAction)
                }
            },
            None => Err(ApplicationError::UnknownAction),
        }
    }
}

/// Where the action token stands in the argument vector.
pub const ACTION_INDEX: usize = 1;

/// Where the algorithm token stands in the argument vector.
pub const ALGORITHM_INDEX: usize = 2;

/// The action, if any, that the argument vector requests.
pub open spec fn spec_arg_action(args: Seq<String>) -> Option<Action> {
    if args.len() > ACTION_INDEX {
        spec_action_token(args[ACTION_INDEX as int]@)
    } else {
        None
    }
}

/// The algorithm, if any, that the argument vector names.
pub open spec fn spec_arg_algorithm(args: Seq<String>) -> Option<Algorithm> {
    if args.len() > ALGORITHM_INDEX {
        spec_algorithm_token(args[ALGORITHM_INDEX as int]@)
    } else {
        None
    }
}

/// What a synthetic-scaling run over the given arguments must return: the
/// measurements of the default size progression when the algorithm token
/// resolves, and `UnknownAlgorithm` otherwise.
pub open spec fn simple_outcome(
    args: Seq<String>,
    r: Result<Vec<Measurement>, ApplicationError>,
) -> bool {
    match spec_arg_algorithm(args) {
        Some(_) => r matches Ok(ms) && measurements_for_sizes(default_sizes(), ms@),
        None => r matches Err(e) && e == ApplicationError::UnknownAlgorithm,
    }
}

/// What a fixed-dataset run over the given arguments and dataset lines must
/// return: an unlimited real run when the algorithm token resolves, and
/// `UnknownAlgorithm` otherwise.
pub open spec fn real_outcome(
    args: Seq<String>,
    lines: Seq<String>,
    r: Result<Vec<Measurement>, ApplicationError>,
) -> bool {
    match spec_arg_algorithm(args) {
        Some(_) => real_run_outcome(None::<usize>, lines, r),
        None => r matches Err(e) && e == ApplicationError::UnknownAlgorithm,
    }
}

/// What a whole run must return, by the requested action: the simple or
/// real outcome, `NotImplemented` for the reserved actions, and
/// `UnknownAction` when the action token does not resolve. The algorithm
/// token is resolved before any data is generated or decoded.
pub open spec fn run_outcome(
    args: Seq<String>,
    lines: Seq<String>,
    r: Result<Vec<Measurement>, ApplicationError>,
) -> bool {
    match spec_arg_action(args) {
        None => r matches Err(e) && e == ApplicationError::UnknownAction,
        Some(Action::Simple) => simple_outcome(args, r),
        Some(Action::Real) => real_outcome(args, lines, r),
        Some(Action::Fake) => r matches Err(e) && e == ApplicationError::NotImplemented,
        Some(Action::Generate) => r matches Err(e) && e == ApplicationError::NotImplemented,
    }
}

/// The argument at `index`, if the vector is long enough.
fn arg_at<'a>(args: &'a Vec<String>, index: usize) -> (r: Option<&'a String>)
    ensures
        r matches Some(s) ==> index < args@.len() && *s == args@[index as int],
        r is None <==> args@.len() <= index,
{
    if index < args.len() {
        Some(&args[index])
    } else {
        None
    }
}

/// The application core: resolves the tokens of a parsed command line and
/// dispatches to the chosen benchmark runner.
pub struct ConsoleApplication {
    sort_factory: SortFactory,
}

impl ConsoleApplication {
    /// An application around the given registry.
    pub fn new(sort_factory: SortFactory) -> ConsoleApplication {
        ConsoleApplication { sort_factory }
    }

    /// Runs the action the arguments request. The caller supplies the
    /// dataset's lines, which only the real action reads.
    pub fn run(&self, args: &Vec<String>, dataset_lines: &Vec<String>) -> (r: Result<
        Vec<Measurement>,
        ApplicationError,
    >)
        ensures
            run_outcome(args@, dataset_lines@, r),
    {
        let action = match Action::from_token(arg_at(args, ACTION_INDEX)) {
            Ok(action) => action,
            Err(e) => {
                return Err(e);
            },
        };
        match action {
            Action::Simple => self.simple(args),
            Action::Real => self.real_data(args, dataset_lines),
            Action::Fake => Err(ApplicationError::NotImplemented),
            Action::Generate => Err(ApplicationError::NotImplemented),
        }
    }

    /// The synthetic-scaling action: resolves the algorithm token, then
    /// benchmarks the strategy over the default size progression.
    pub fn simple(&self, args: &Vec<String>) -> (r: Result<Vec<Measurement>, ApplicationError>)
        ensures
            simple_outcome(args@, r),
    {
        let algorithm = match Algorithm::from_token(arg_at(args, ALGORITHM_INDEX)) {
            Ok(algorithm) => algorithm,
            Err(e) => {
                return Err(e);
            },
        };
        let strategy = self.sort_factory.create(algorithm);
        let mut bench = SimpleBenchmark::new(RandomNumberGenerator::new(DEFAULT_SEED));
        bench.execute(&strategy)
    }

    /// The fixed-dataset action: resolves the algorithm token, then
    /// benchmarks the strategy once over the full set of dataset lines.
    pub fn real_data(&self, args: &Vec<String>, dataset_lines: &Vec<String>) -> (r: Result<
        Vec<Measurement>,
        ApplicationError,
    >)
        ensures
            real_outcome(args@, dataset_lines@, r),
    {
        let algorithm = match Algorithm::from_token(arg_at(args, ALGORITHM_INDEX)) {
            Ok(algorithm) => algorithm,
            Err(e) => {
                return Err(e);
            },
        };
        let strategy = self.sort_factory.create(algorithm);
        let bench = RealDataBenchmark::default();
        bench.execute(&strategy, dataset_lines)
    }
}

} // verus!

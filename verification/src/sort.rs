//! Sorting strategies and the registry that resolves them.
//!
//! Every strategy sorts a vector of records in place and is verified to
//! return a permutation of its input, ordered by the record keys. The
//! registry maps a textual identifier to a strategy and rejects unknown
//! identifiers before any data is generated or loaded.

use vstd::prelude::*;
use vstd::seq_lib::group_to_multiset_ensures;
use crate::cli::ApplicationError;
use crate::data::Record;
use crate::util::token_eq;

verus! {

/// A sequence of records ordered by their keys, smallest first.
pub open spec fn sorted_by_key<T: Record>(s: Seq<T>) -> bool {
    forall|i: int, j: int| 0 <= i < j < s.len() ==> #[trigger] s[i].key() <= #[trigger] s[j].key()
}

/// Exchanges the records at `i` and `j`, keeping the multiset of records.
fn swap_records<T: Record>(v: &mut Vec<T>, i: usize, j: usize)
    requires
        i < old(v)@.len(),
        j < old(v)@.len(),
    ensures
        final(v)@ == old(v)@.update(i as int, old(v)@[j as int]).update(
            j as int,
            old(v)@[i as int],
        ),
        final(v)@.to_multiset() == old(v)@.to_multiset(),
        final(v)@.len() == old(v)@.len(),
{
    let a: T = v[i];
    let b: T = v[j];
    v[i] = b;
    v[j] = a;
    proof {
        broadcast use group_to_multiset_ensures;

        let s = old(v)@;
        let s1 = s.update(i as int, s[j as int]);
        assert(s1.to_multiset() =~= s.to_multiset().insert(s[j as int]).remove(s[i as int]));
        assert(v@.to_multiset() =~= s1.to_multiset().insert(s[i as int]).remove(s1[j as int]));
        assert(v@.to_multiset() =~= s.to_multiset());
    }
}

/// Sorts in place by repeatedly inserting the next record into the sorted
/// prefix.
pub fn insertion_sort<T: Record>(v: &mut Vec<T>)
    ensures
        sorted_by_key(final(v)@),
        final(v)@.to_multiset() == old(v)@.to_multiset(),
        final(v)@.len() == old(v)@.len(),
{
    let n = v.len();
    if n < 2 {
        return ;
    }
    let mut i: usize = 1;
    while i < n
        invariant
            1 <= i <= n,
            n == v@.len(),
            v@.to_multiset() == old(v)@.to_multiset(),
            forall|k1: int, k2: int| 0 <= k1 < k2 < i ==> #[trigger] v@[k1].key() <= #[trigger] v@[k2].key(),
        decreases n - i,
    {
        let mut j: usize = i;
        while j > 0 && !(v[j - 1].le(&v[j]))
            invariant
                j <= i < n,
                n == v@.len(),
                v@.to_multiset() == old(v)@.to_multiset(),
                forall|k1: int, k2: int|
                    0 <= k1 < k2 <= i && k2 != j ==> #[trigger] v@[k1].key() <= #[trigger] v@[k2].key(),
            decreases j,
        {
            swap_records(v, j - 1, j);
            j -= 1;
        }
        i += 1;
    }
}

/// Sorts in place by repeatedly moving the smallest remaining record to the
/// front.
pub fn selection_sort<T: Record>(v: &mut Vec<T>)
    ensures
        sorted_by_key(final(v)@),
        final(v)@.to_multiset() == old(v)@.to_multiset(),
        final(v)@.len() == old(v)@.len(),
{
    let n = v.len();
    let mut i: usize = 0;
    while i < n
        invariant
            i <= n,
            n == v@.len(),
            v@.to_multiset() == old(v)@.to_multiset(),
            forall|k1: int, k2: int| 0 <= k1 < k2 < i ==> #[trigger] v@[k1].key() <= #[trigger] v@[k2].key(),
            forall|k1: int, k2: int|
                0 <= k1 < i <= k2 < n ==> #[trigger] v@[k1].key() <= #[trigger] v@[k2].key(),
        decreases n - i,
    {
        let mut m: usize = i;
        let mut j: usize = i + 1;
        while j < n
            invariant
                i <= m < j <= n,
                n == v@.len(),
                forall|k: int| i <= k < j ==> #[trigger] v@[m as int].key() <= v@[k].key(),
            decreases n - j,
        {
            if v[j].le(&v[m]) {
                m = j;
            }
            j += 1;
        }
        swap_records(v, i, m);
        i += 1;
    }
}

/// Sorts in place by repeatedly bubbling the largest remaining record to the
/// end.
pub fn bubble_sort<T: Record>(v: &mut Vec<T>)
    ensures
        sorted_by_key(final(v)@),
        final(v)@.to_multiset() == old(v)@.to_multiset(),
        final(v)@.len() == old(v)@.len(),
{
    let n = v.len();
    if n < 2 {
        return ;
    }
    let mut end: usize = n;
    while end > 1
        invariant
            1 <= end <= n,
            n == v@.len(),
            v@.to_multiset() == old(v)@.to_multiset(),
            forall|k1: int, k2: int|
                end <= k1 < k2 < n ==> #[trigger] v@[k1].key() <= #[trigger] v@[k2].key(),
            forall|k1: int, k2: int|
                0 <= k1 < end <= k2 < n ==> #[trigger] v@[k1].key() <= #[trigger] v@[k2].key(),
        decreases end,
    {
        let mut j: usize = 0;
        while j + 1 < end
            invariant
                j < end <= n,
                n == v@.len(),
                v@.to_multiset() == old(v)@.to_multiset(),
                forall|k1: int, k2: int|
                    end <= k1 < k2 < n ==> #[trigger] v@[k1].key() <= #[trigger] v@[k2].key(),
                forall|k1: int, k2: int|
                    0 <= k1 < end <= k2 < n ==> #[trigger] v@[k1].key() <= #[trigger] v@[k2].key(),
                forall|k: int| 0 <= k <= j ==> #[trigger] v@[k].key() <= v@[j as int].key(),
            decreases end - j,
        {
            if !(v[j].le(&v[j + 1])) {
                swap_records(v, j, j + 1);
            }
            j += 1;
        }
        end -= 1;
    }
}

/// The closed set of supported sorting algorithms.
#[derive(Clone, Copy, PartialEq, Eq, Structural, Debug)]
pub enum Algorithm {
    Bubble,
    Insertion,
    Selection,
}

/// The algorithm, if any, that an identifier token names. Resolution is a
/// case-sensitive exact match.
pub open spec fn spec_algorithm_token(s: Seq<char>) -> Option<Algorithm> {
    if s == "bubble"@ {
        Some(Algorithm::Bubble)
    } else if s == "insertion"@ {
        Some(Algorithm::Insertion)
    } else if s == "selection"@ {
        Some(Algorithm::Selection)
    } else {
        None
    }
}

impl Algorithm {
    /// Resolves an identifier token to an algorithm. Fails with
    /// `UnknownAlgorithm` on a missing token and on every token outside the
    /// supported set.
    pub fn from_token(token: Option<&String>) -> (r: Result<Algorithm, ApplicationError>)
        ensures
            r == (match token {
                Some(t) => match spec_algorithm_token(t@) {
                    Some(a) => Ok::<Algorithm, ApplicationError>(a),
                    None => Err(ApplicationError::UnknownAlgorithm),
                },
                None => Err(ApplicationError::UnknownAlgorithm),
            }),
    {
        match token {
            Some(t) => {
                if token_eq(t, "bubble") {
                    Ok(Algorithm::Bubble)
                } else if token_eq(t, "insertion") {
                    Ok(Algorithm::Insertion)
                } else if token_eq(t, "selection") {
                    Ok(Algorithm::Selection)
                } else {
                    Err(ApplicationError::UnknownAlgorithm)
                }
            },
            None => Err(ApplicationError::UnknownAlgorithm),
        }
    }
}

/// A concrete sorting strategy, resolved from an algorithm identifier.
pub struct SortStrategy {
    algorithm: Algorithm,
}

impl SortStrategy {
    /// The algorithm this strategy runs.
    pub closed spec fn spec_algorithm(&self) -> Algorithm {
        self.algorithm
    }

    /// Sorts the records in place: the result is a permutation of the input,
    /// ordered by the record keys.
    pub fn sort<T: Record>(&self, v: &mut Vec<T>)
        ensures
            sorted_by_key(final(v)@),
            final(v)@.to_multiset() == old(v)@.to_multiset(),
            final(v)@.len() == old(v)@.len(),
    {
        match self.algorithm {
            Algorithm::Bubble => bubble_sort(v),
            Algorithm::Insertion => insertion_sort(v),
            Algorithm::Selection => selection_sort(v),
        }
    }
}

/// The registry: builds a fresh strategy for a given algorithm.
pub struct SortFactory;

impl SortFactory {
    /// A fresh, independently usable strategy for the given algorithm.
    pub fn create(&self, algorithm: Algorithm) -> (s: SortStrategy)
        ensures
            s.spec_algorithm() == algorithm,
    {
        SortStrategy { algorithm }
    }
}

} // verus!

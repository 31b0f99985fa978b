//! Reading filters from the operator tokens and raw values of a query.
//!
//! A query gives each field a list of entries: an operator token and the raw
//! values that stand under it. Every value under a token reads as one
//! operator, in the order of the entries and of their values.

use vstd::prelude::*;
use vstd::string::*;

verus! {

/// Why a raw value under a token reads as no operator.
#[derive(Debug, Clone, Copy, PartialEq, Eq, Hash)]
pub enum ErrorKind {
    /// The token is no operator of the domain.
    UnknownOperator,
    /// The raw value is no value of the domain.
    InvalidValue,
}

/// The first raw value of a field that reads as no operator.
#[derive(Debug, Clone, Copy, PartialEq, Eq, Hash)]
pub struct DeserializeError {
    /// The index of the entry.
    pub entry: usize,
    /// The index of the raw value among those of the entry.
    pub value: usize,
    /// What is wrong with it.
    pub kind: ErrorKind,
}

/// The operators of one domain, as a query writes them.
pub trait Operator: Sized {
    /// Why `raw` under `token` reads as no operator of the domain: the token
    /// is judged first. `None` where the pair reads as an operator.
    spec fn pair_error(token: Seq<char>, raw: Seq<char>) -> Option<ErrorKind>;

    /// Whether this operator is the one that `raw` under `token` reads as.
    spec fn reads_as(&self, token: Seq<char>, raw: Seq<char>) -> bool;

    /// Reads the operator that the query writes as `raw` under `token`.
    fn from_pair(token: &str, raw: &str) -> (read: Result<Self, ErrorKind>)
        ensures
            match read {
                Ok(op) => Self::pair_error(token@, raw@) is None && op.reads_as(token@, raw@),
                Err(kind) => Self::pair_error(token@, raw@) == Some(kind),
            },
    ;
}

/// What a reading gave, without the reason of a failure.
pub open spec fn outcome<V, E>(read: Result<V, E>) -> Option<V> {
    match read {
        Ok(value) => Some(value),
        Err(_) => None,
    }
}

/// The value that a reading gave; a failed reading is an invalid value.
pub fn valid<V, E>(read: Result<V, E>) -> (value: Result<V, ErrorKind>)
    ensures
        value == (match read {
            Ok(v) => Ok::<V, ErrorKind>(v),
            Err(_) => Err::<V, ErrorKind>(ErrorKind::InvalidValue),
        }),
{
    match read {
        Ok(v) => Ok(v),
        Err(_) => Err(ErrorKind::InvalidValue),
    }
}

/// The entries of one field.
pub type Entries = Vec<(String, Vec<String>)>;

/// Whether `entries` has a raw value `value` under its entry `entry`.
pub open spec fn has_pair(entries: Seq<(String, Vec<String>)>, entry: int, value: int) -> bool {
    0 <= entry < entries.len() && 0 <= value < entries[entry].1@.len()
}

/// Whether the pair `(entry, value)` comes before the pair `(e, v)`.
pub open spec fn comes_before(entry: int, value: int, e: int, v: int) -> bool {
    entry < e || (entry == e && value < v)
}

/// Why the raw value `value` of the entry `entry` reads as no operator of
/// the domain `F`; `None` where it reads as one.
pub open spec fn error_at<F: Operator>(
    entries: Seq<(String, Vec<String>)>,
    entry: int,
    value: int,
) -> Option<ErrorKind> {
    F::pair_error(entries[entry].0@, entries[entry].1@[value]@)
}

/// The number of raw values in the entries before the entry `entry`.
pub open spec fn count_before(entries: Seq<(String, Vec<String>)>, entry: int) -> int
    decreases entry,
{
    if entry <= 0 {
        0
    } else {
        count_before(entries, entry - 1) + entries[entry - 1].1@.len()
    }
}

/// Whether `ops` holds, in order, the operators that the raw values of
/// `entries` read as, all of which read as one.
pub open spec fn reads_all<F: Operator>(entries: Seq<(String, Vec<String>)>, ops: Seq<F>) -> bool {
    &&& ops.len() == count_before(entries, entries.len() as int)
    &&& forall|entry: int, value: int| #[trigger]
        has_pair(entries, entry, value) ==> {
            &&& error_at::<F>(entries, entry, value) is None
            &&& ops[count_before(entries, entry) + value].reads_as(
                entries[entry].0@,
                entries[entry].1@[value]@,
            )
        }
}

/// Whether `error` names the first raw value of `entries` that reads as no
/// operator of the domain `F`, and says why.
pub open spec fn fails_first<F: Operator>(
    entries: Seq<(String, Vec<String>)>,
    error: DeserializeError,
) -> bool {
    &&& has_pair(entries, error.entry as int, error.value as int)
    &&& error_at::<F>(entries, error.entry as int, error.value as int) == Some(error.kind)
    &&& forall|entry: int, value: int| #[trigger]
        has_pair(entries, entry, value) && comes_before(
            entry,
            value,
            error.entry as int,
            error.value as int,
        ) ==> error_at::<F>(entries, entry, value) is None
}

/// Reads every raw value of `entries` as an operator of the domain `F`, and
/// fails on the first that reads as none.
pub fn read_entries<F: Operator>(entries: &Entries) -> (read: Result<Vec<F>, DeserializeError>)
    ensures
        match read {
            Ok(ops) => reads_all::<F>(entries@, ops@),
            Err(error) => fails_first::<F>(entries@, error),
        },
{
    let mut ops: Vec<F> = Vec::new();
    let mut i: usize = 0;
    while i < entries.len()
        invariant
            i <= entries.len(),
            ops@.len() == count_before(entries@, i as int),
            forall|entry: int, value: int| #[trigger]
                has_pair(entries@, entry, value) && entry < i ==> {
                    &&& error_at::<F>(entries@, entry, value) is None
                    &&& ops@[count_before(entries@, entry) + value].reads_as(
                        entries@[entry].0@,
                        entries@[entry].1@[value]@,
                    )
                },
        decreases entries.len() - i,
    {
        let token = &entries[i].0;
        let raws = &entries[i].1;
        let mut j: usize = 0;
        while j < raws.len()
            invariant
                i < entries.len(),
                j <= raws.len(),
                *token == entries@[i as int].0,
                *raws == entries@[i as int].1,
                ops@.len() == count_before(entries@, i as int) + j,
                forall|entry: int, value: int| #[trigger]
                    has_pair(entries@, entry, value) && comes_before(
                        entry,
                        value,
                        i as int,
                        j as int,
                    ) ==> {
                        &&& error_at::<F>(entries@, entry, value) is None
                        &&& ops@[count_before(entries@, entry) + value].reads_as(
                            entries@[entry].0@,
                            entries@[entry].1@[value]@,
                        )
                    },
            decreases raws.len() - j,
        {
            let ghost before = ops@;
            match F::from_pair(token.as_str(), raws[j].as_str()) {
                Ok(op) => {
                    ops.push(op);
                },
                Err(kind) => {
                    let error = DeserializeError { entry: i, value: j, kind };
                    assert(has_pair(entries@, i as int, j as int));
                    return Err(error);
                },
            }
            proof {
                assert forall|entry: int, value: int| #[trigger]
                    has_pair(entries@, entry, value) && comes_before(
                        entry,
                        value,
                        i as int,
                        j + 1,
                    ) implies {
                    &&& error_at::<F>(entries@, entry, value) is None
                    &&& ops@[count_before(entries@, entry) + value].reads_as(
                        entries@[entry].0@,
                        entries@[entry].1@[value]@,
                    )
                } by {
                    lemma_count_before_grows(entries@, entry);
                    if comes_before(entry, value, i as int, j as int) {
                        lemma_count_before_order(entries@, entry, value, i as int, j as int);
                        let place = count_before(entries@, entry) + value;
                        assert(ops@[place] == before[place]);
                    } else {
                        assert(entry == i && value == j);
                        assert(ops@[before.len() as int] == ops@.last());
                    }
                }
            }
            j += 1;
        }
        i += 1;
    }
    Ok(ops)
}

/// The count of raw values before an entry is never negative.
pub proof fn lemma_count_before_grows(entries: Seq<(String, Vec<String>)>, entry: int)
    ensures
        0 <= count_before(entries, entry),
        entry >= 0 ==> count_before(entries, entry + 1) == count_before(entries, entry)
            + entries[entry].1@.len(),
    decreases entry,
{
    if entry > 0 {
        lemma_count_before_grows(entries, entry - 1);
    }
}

/// A raw value takes the place after all that come before it: the place of
/// `(entry, value)` is at most that of `(e, v)` where it is the same pair or
/// comes before it.
pub proof fn lemma_count_before_order(
    entries: Seq<(String, Vec<String>)>,
    entry: int,
    value: int,
    e: int,
    v: int,
)
    requires
        has_pair(entries, entry, value),
        0 <= e,
        0 <= v,
        comes_before(entry, value, e, v) || (entry == e && value == v),
    ensures
        count_before(entries, entry) + value <= count_before(entries, e) + v,
        comes_before(entry, value, e, v) ==> count_before(entries, entry) + value
            < count_before(entries, e) + v,
    decreases e - entry,
{
    if entry < e {
        lemma_count_before_grows(entries, e - 1);
        if entry < e - 1 {
            lemma_count_before_order(entries, entry, value, e - 1, 0);
        }
    }
}

} // verus!

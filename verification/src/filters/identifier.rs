//! Filters on identifier fields.

use vstd::prelude::*;
use sea_query::{BinOper, ColumnRef, Cond, Value};
use uuid::Uuid;
use crate::backend::{
    column_eq, column_is_in, id_value, into_condition, value_model, value_models,
};
use crate::ident::{id_read, parse_id};
use crate::predicate::{single, Condition, Expression, Operand};
use crate::read::{
    error_at, fails_first, has_pair, valid, DeserializeError, Entries, ErrorKind, Operator,
};
use crate::seaq::{conjoin, set_condition, ToFieldCond};
use crate::text::same_text;

verus! {

/// One test of an identifier field.
#[derive(Debug, PartialEq, Eq, PartialOrd, Ord, Hash)]
pub enum UuidFilter {
    /// The field equals the identifier.
    Equals(Uuid),
    /// The field is one of the identifiers.
    In(Vec<Uuid>),
}

/// The identifiers `ids` as literals, in order.
pub open spec fn id_operands(ids: Seq<Uuid>) -> Seq<Operand> {
    ids.map_values(|id: Uuid| Operand::Id(id))
}

impl UuidFilter {
    /// Whether `token` names an operator on identifiers.
    pub open spec fn known(token: Seq<char>) -> bool {
        token == "eq"@ || token == "in"@
    }

    /// The predicate that the filter states of `column`.
    pub open spec fn expression(self, column: ColumnRef) -> Expression {
        match self {
            UuidFilter::Equals(val) => Expression::Compare {
                column,
                op: BinOper::Equal,
                value: Operand::Id(val),
            },
            UuidFilter::In(val) => Expression::Among { column, values: id_operands(val@) },
        }
    }
}

/// The identifiers `ids` as `sea_query` literals, in order.
fn id_values(ids: &Vec<Uuid>) -> (values: Vec<Value>)
    ensures
        value_models(values@) == id_operands(ids@),
{
    let mut values: Vec<Value> = Vec::new();
    let mut i: usize = 0;
    while i < ids.len()
        invariant
            i <= ids.len(),
            values@.len() == i,
            forall|k: int| 0 <= k < i ==> value_model(#[trigger] values@[k]) == Operand::Id(ids@[k]),
        decreases ids.len() - i,
    {
        let value = id_value(ids[i]);
        values.push(value);
        i += 1;
    }
    assert(value_models(values@) =~= id_operands(ids@));
    values
}

impl Operator for UuidFilter {
    /// An unknown token is an unknown operator; under a known one, a raw
    /// value that writes no identifier is an invalid value.
    open spec fn pair_error(token: Seq<char>, raw: Seq<char>) -> Option<ErrorKind> {
        if !UuidFilter::known(token) {
            Some(ErrorKind::UnknownOperator)
        } else if id_read(raw) is None {
            Some(ErrorKind::InvalidValue)
        } else {
            None
        }
    }

    /// Under `in` the filter is the list of the one identifier that `raw`
    /// writes, under `eq` the test for that identifier.
    open spec fn reads_as(&self, token: Seq<char>, raw: Seq<char>) -> bool {
        match self {
            UuidFilter::In(ids) => token == "in"@ && ids@.len() == 1 && id_read(raw) == Some(
                ids@[0],
            ),
            UuidFilter::Equals(id) => token != "in"@ && token == "eq"@ && id_read(raw) == Some(
                *id,
            ),
        }
    }

    fn from_pair(token: &str, raw: &str) -> (read: Result<Self, ErrorKind>) {
        if same_text(token, "in") {
            let id = valid(parse_id(raw))?;
            let mut ids: Vec<Uuid> = Vec::new();
            ids.push(id);
            Ok(UuidFilter::In(ids))
        } else if same_text(token, "eq") {
            Ok(UuidFilter::Equals(valid(parse_id(raw))?))
        } else {
            Err(ErrorKind::UnknownOperator)
        }
    }
}

/// The number of filters that the entries before the entry `entry` write: one
/// for all the values under `in`, else one for each value.
pub open spec fn filters_before(entries: Seq<(String, Vec<String>)>, entry: int) -> int
    decreases entry,
{
    if entry <= 0 {
        0
    } else {
        filters_before(entries, entry - 1) + (if entries[entry - 1].0@ == "in"@
            && entries[entry - 1].1@.len() > 0 {
            1
        } else {
            entries[entry - 1].1@.len() as int
        })
    }
}

/// Whether the filter `op` is the one that the raw value `value` of the
/// entry `entry` contributes to: the list of all the identifiers of the
/// entry under `in`, else the test for the identifier that the value writes.
pub open spec fn reads_id(
    entries: Seq<(String, Vec<String>)>,
    entry: int,
    value: int,
    op: UuidFilter,
) -> bool {
    match op {
        UuidFilter::In(ids) => {
            &&& entries[entry].0@ == "in"@
            &&& ids@.len() == entries[entry].1@.len()
            &&& id_read(entries[entry].1@[value]@) == Some(ids@[value])
        },
        UuidFilter::Equals(id) => {
            &&& entries[entry].0@ != "in"@
            &&& id_read(entries[entry].1@[value]@) == Some(id)
        },
    }
}

/// The place of the filter to which the raw value `value` of the entry
/// `entry` contributes.
pub open spec fn place_of(entries: Seq<(String, Vec<String>)>, entry: int, value: int) -> int {
    if entries[entry].0@ == "in"@ {
        filters_before(entries, entry)
    } else {
        filters_before(entries, entry) + value
    }
}

/// Whether `ops` holds, in order, the filters that `entries` write, every
/// raw value of which writes an identifier under a known token.
pub open spec fn reads_all_ids(entries: Seq<(String, Vec<String>)>, ops: Seq<UuidFilter>) -> bool {
    &&& ops.len() == filters_before(entries, entries.len() as int)
    &&& forall|entry: int, value: int| #[trigger]
        has_pair(entries, entry, value) ==> {
            &&& error_at::<UuidFilter>(entries, entry, value) is None
            &&& 0 <= place_of(entries, entry, value) < ops.len()
            &&& reads_id(entries, entry, value, ops[place_of(entries, entry, value)])
        }
}

/// The filters before an entry are never fewer than those before an earlier
/// one.
pub proof fn lemma_filters_before_grows(entries: Seq<(String, Vec<String>)>, entry: int, later: int)
    requires
        0 <= entry <= later,
    ensures
        0 <= filters_before(entries, entry) <= filters_before(entries, later),
        filters_before(entries, entry + 1) == filters_before(entries, entry) + (if entries[entry].0@
            == "in"@ && entries[entry].1@.len() > 0 {
            1
        } else {
            entries[entry].1@.len() as int
        }),
    decreases later,
{
    if entry > 0 {
        lemma_filters_before_grows(entries, entry - 1, entry - 1);
    }
    if entry < later {
        lemma_filters_before_grows(entries, entry, later - 1);
        lemma_filters_before_grows(entries, later - 1, later - 1);
    }
}

impl ToFieldCond for UuidFilter {
    /// A single operator always yields its one test.
    open spec fn field_condition(&self, column: ColumnRef) -> Option<Condition> {
        Some(single(self.expression(column)))
    }

    fn to_cond(&self, iden: ColumnRef) -> (cond: Option<Cond>) {
        Some(
            match self {
                UuidFilter::Equals(val) => into_condition(column_eq(iden, id_value(*val))),
                UuidFilter::In(val) => into_condition(column_is_in(iden, id_values(val))),
            },
        )
    }
}

/// The tests asked of one identifier field, in the order given.
#[derive(Debug, PartialEq, Eq)]
pub struct UuidFilterSet(pub Vec<UuidFilter>);

impl View for UuidFilterSet {
    type V = Seq<UuidFilter>;

    open spec fn view(&self) -> Seq<UuidFilter> {
        self.0@
    }
}

impl Default for UuidFilterSet {
    fn default() -> (set: UuidFilterSet)
        ensures
            set@ == Seq::<UuidFilter>::empty(),
    {
        UuidFilterSet(Vec::new())
    }
}

impl UuidFilterSet {
    /// Appends `value` after the filters already in the set.
    pub fn push(&mut self, value: UuidFilter)
        ensures
            final(self)@ == old(self)@.push(value),
    {
        self.0.push(value);
    }

    /// Whether the set holds no filter.
    pub fn is_empty(&self) -> (empty: bool)
        ensures
            empty == (self@.len() == 0),
    {
        self.0.len() == 0
    }

    /// Reads the filters that `entries` write, in their order: the values
    /// under `in` together as one list, each value under `eq` as one test.
    /// Fails on the first raw value that reads as none.
    pub fn from_entries(entries: &Entries) -> (read: Result<UuidFilterSet, DeserializeError>)
        ensures
            match read {
                Ok(set) => reads_all_ids(entries@, set@),
                Err(error) => fails_first::<UuidFilter>(entries@, error),
            },
    {
        let mut ops: Vec<UuidFilter> = Vec::new();
        let mut i: usize = 0;
        while i < entries.len()
            invariant
                i <= entries.len(),
                ops@.len() == filters_before(entries@, i as int),
                forall|entry: int, value: int| #[trigger]
                    has_pair(entries@, entry, value) && entry < i ==> {
                        &&& error_at::<UuidFilter>(entries@, entry, value) is None
                        &&& 0 <= place_of(entries@, entry, value) < ops@.len()
                        &&& reads_id(entries@, entry, value, ops@[place_of(entries@, entry, value)])
                    },
            decreases entries.len() - i,
        {
            let token = &entries[i].0;
            let raws = &entries[i].1;
            let ghost before = ops@;
            proof {
                lemma_filters_before_grows(entries@, i as int, i as int);
                assert forall|entry: int, value: int| #[trigger]
                    has_pair(entries@, entry, value) && entry < i implies place_of(
                    entries@,
                    entry,
                    value,
                ) < before.len() by {}
            }
            if same_text(token.as_str(), "in") {
                let mut ids: Vec<Uuid> = Vec::new();
                let mut j: usize = 0;
                while j < raws.len()
                    invariant
                        i < entries.len(),
                        j <= raws.len(),
                        *token == entries@[i as int].0,
                        *raws == entries@[i as int].1,
                        token@ == "in"@,
                        ids@.len() == j,
                        forall|entry: int, value: int| #[trigger]
                            has_pair(entries@, entry, value) && entry < i ==> error_at::<UuidFilter>(
                                entries@,
                                entry,
                                value,
                            ) is None,
                        forall|value: int|
                            0 <= value < j ==> id_read(#[trigger] raws@[value]@) == Some(
                                ids@[value],
                            ),
                    decreases raws.len() - j,
                {
                    match valid(parse_id(raws[j].as_str())) {
                        Ok(id) => {
                            ids.push(id);
                        },
                        Err(kind) => {
                            let error = DeserializeError { entry: i, value: j, kind };
                            assert(has_pair(entries@, i as int, j as int));
                            return Err(error);
                        },
                    }
                    j += 1;
                }
                if ids.len() > 0 {
                    ops.push(UuidFilter::In(ids));
                }
            } else if same_text(token.as_str(), "eq") {
                let mut j: usize = 0;
                while j < raws.len()
                    invariant
                        i < entries.len(),
                        j <= raws.len(),
                        *token == entries@[i as int].0,
                        *raws == entries@[i as int].1,
                        token@ == "eq"@,
                        token@ != "in"@,
                        forall|entry: int, value: int| #[trigger]
                            has_pair(entries@, entry, value) && entry < i ==> error_at::<UuidFilter>(
                                entries@,
                                entry,
                                value,
                            ) is None,
                        ops@.len() == before.len() + j,
                        forall|value: int|
                            0 <= value < j ==> id_read(#[trigger] raws@[value]@) is Some,
                        forall|place: int| 0 <= place < before.len() ==> ops@[place] == before[place],
                        forall|value: int|
                            0 <= value < j ==> (#[trigger] ops@[before.len() + value]
                                matches UuidFilter::Equals(id) && id_read(raws@[value]@) == Some(
                                id,
                            )),
                    decreases raws.len() - j,
                {
                    match valid(parse_id(raws[j].as_str())) {
                        Ok(id) => {
                            ops.push(UuidFilter::Equals(id));
                        },
                        Err(kind) => {
                            let error = DeserializeError { entry: i, value: j, kind };
                            assert(has_pair(entries@, i as int, j as int));
                            return Err(error);
                        },
                    }
                    j += 1;
                }
            } else if raws.len() > 0 {
                let error = DeserializeError { entry: i, value: 0, kind: ErrorKind::UnknownOperator };
                assert(has_pair(entries@, i as int, 0));
                return Err(error);
            }
            proof {
                assert forall|entry: int, value: int| #[trigger]
                    has_pair(entries@, entry, value) && entry < i + 1 implies {
                    &&& error_at::<UuidFilter>(entries@, entry, value) is None
                    &&& 0 <= place_of(entries@, entry, value) < ops@.len()
                    &&& reads_id(entries@, entry, value, ops@[place_of(entries@, entry, value)])
                } by {
                    lemma_filters_before_grows(entries@, entry, i as int);
                    if entry < i {
                        assert(ops@[place_of(entries@, entry, value)] == before[place_of(
                            entries@,
                            entry,
                            value,
                        )]);
                    }
                }
            }
            i += 1;
        }
        Ok(UuidFilterSet(ops))
    }

    /// The predicates that the filters state of `column`, in order.
    pub open spec fn expressions(self, column: ColumnRef) -> Seq<Expression> {
        self@.map_values(|filter: UuidFilter| filter.expression(column))
    }
}

impl ToFieldCond for UuidFilterSet {
    /// No condition for the empty set, else the conjunction of the filters'
    /// tests in the order in which they were pushed.
    open spec fn field_condition(&self, column: ColumnRef) -> Option<Condition> {
        set_condition(self.expressions(column))
    }

    fn to_cond(&self, iden: ColumnRef) -> (cond: Option<Cond>) {
        conjoin(&self.0, iden, Ghost(|filter: UuidFilter| filter.expression(iden)))
    }
}

} // verus!

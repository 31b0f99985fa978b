//! Filters on date-and-time fields.

use vstd::prelude::*;
use sea_query::{BinOper, ColumnRef, Cond};
use chrono::NaiveDateTime;
use crate::backend::{
    column_eq, column_gte, column_lt, column_ne, datetime_value, into_condition,
};
use crate::predicate::{single, Condition, Expression, Operand};
use crate::read::{
    fails_first, read_entries, reads_all, valid, DeserializeError, Entries, ErrorKind, Operator,
};
use crate::seaq::{conjoin, set_condition, ToFieldCond};
use crate::temporal::{datetime_read, parse_datetime};
use crate::text::same_text;

verus! {

/// One comparison of a date-and-time field with a date and time.
///
/// `After` includes its bound and `Before` excludes it, so that the two
/// together bound the half-open interval from the one to the other.
#[derive(Debug, Clone, Copy, PartialEq, Eq, PartialOrd, Ord, Hash)]
pub enum DateTimeFilter {
    /// The field is strictly earlier than the date and time.
    Before(NaiveDateTime),
    /// The field is the date and time or later.
    After(NaiveDateTime),
    /// The field equals the date and time.
    Equals(NaiveDateTime),
    /// The field differs from the date and time.
    NotEquals(NaiveDateTime),
}

impl DateTimeFilter {
    /// The date and time that the field is compared with.
    pub open spec fn operand(self) -> NaiveDateTime {
        match self {
            DateTimeFilter::Before(val) => val,
            DateTimeFilter::After(val) => val,
            DateTimeFilter::Equals(val) => val,
            DateTimeFilter::NotEquals(val) => val,
        }
    }

    /// The token by which a query names the operator.
    pub open spec fn token(self) -> Seq<char> {
        match self {
            DateTimeFilter::Before(_) => "before"@,
            DateTimeFilter::After(_) => "after"@,
            DateTimeFilter::Equals(_) => "eq"@,
            DateTimeFilter::NotEquals(_) => "neq"@,
        }
    }

    /// Whether `token` names an operator of the domain.
    pub open spec fn known(token: Seq<char>) -> bool {
        token == "before"@ || token == "after"@ || token == "eq"@ || token == "neq"@
    }

    /// The comparison that the operator stands for.
    pub open spec fn operator(self) -> BinOper {
        match self {
            DateTimeFilter::Before(_) => BinOper::SmallerThan,
            DateTimeFilter::After(_) => BinOper::GreaterThanOrEqual,
            DateTimeFilter::Equals(_) => BinOper::Equal,
            DateTimeFilter::NotEquals(_) => BinOper::NotEqual,
        }
    }

    /// The predicate that the filter states of `column`.
    pub open spec fn expression(self, column: ColumnRef) -> Expression {
        Expression::Compare {
            column,
            op: self.operator(),
            value: Operand::DateTime(self.operand()),
        }
    }
}

/// A token names one operator only: two filters with the same token and the
/// same date and time are the same filter.
pub proof fn lemma_datetime_token_names_one(a: DateTimeFilter, b: DateTimeFilter)
    requires
        a.token() == b.token(),
        a.operand() == b.operand(),
    ensures
        a == b,
{
    reveal_strlit("before");
    reveal_strlit("after");
    reveal_strlit("eq");
    reveal_strlit("neq");
    assert("before"@.len() == 6 && "before"@[0] == 'b');
    assert("after"@.len() == 5 && "after"@[0] == 'a');
    assert("eq"@.len() == 2 && "eq"@[0] == 'e');
    assert("neq"@.len() == 3 && "neq"@[0] == 'n');
}

impl Operator for DateTimeFilter {
    /// An unknown token is an unknown operator; under a known one, a raw
    /// value that writes no date and time is an invalid value.
    open spec fn pair_error(token: Seq<char>, raw: Seq<char>) -> Option<ErrorKind> {
        if !DateTimeFilter::known(token) {
            Some(ErrorKind::UnknownOperator)
        } else if datetime_read(raw) is None {
            Some(ErrorKind::InvalidValue)
        } else {
            None
        }
    }

    /// The filter has the operator that `token` names and the date and time that
    /// `raw` writes.
    open spec fn reads_as(&self, token: Seq<char>, raw: Seq<char>) -> bool {
        self.token() == token && datetime_read(raw) == Some(self.operand())
    }

    fn from_pair(token: &str, raw: &str) -> (read: Result<Self, ErrorKind>) {
        if same_text(token, "before") {
            Ok(DateTimeFilter::Before(valid(parse_datetime(raw))?))
        } else if same_text(token, "after") {
            Ok(DateTimeFilter::After(valid(parse_datetime(raw))?))
        } else if same_text(token, "eq") {
            Ok(DateTimeFilter::Equals(valid(parse_datetime(raw))?))
        } else if same_text(token, "neq") {
            Ok(DateTimeFilter::NotEquals(valid(parse_datetime(raw))?))
        } else {
            Err(ErrorKind::UnknownOperator)
        }
    }
}

impl ToFieldCond for DateTimeFilter {
    /// A single operator always yields its one comparison.
    open spec fn field_condition(&self, column: ColumnRef) -> Option<Condition> {
        Some(single(self.expression(column)))
    }

    fn to_cond(&self, iden: ColumnRef) -> (cond: Option<Cond>) {
        Some(
            match self {
                DateTimeFilter::Equals(val) => into_condition(column_eq(iden, datetime_value(*val))),
                DateTimeFilter::NotEquals(val) => into_condition(column_ne(iden, datetime_value(*val))),
                DateTimeFilter::Before(val) => into_condition(column_lt(iden, datetime_value(*val))),
                DateTimeFilter::After(val) => into_condition(column_gte(iden, datetime_value(*val))),
            },
        )
    }
}

/// The comparisons asked of one date-and-time field, in the order given.
#[derive(Debug, PartialEq, Eq)]
pub struct DateTimeFilterSet(pub Vec<DateTimeFilter>);

impl View for DateTimeFilterSet {
    type V = Seq<DateTimeFilter>;

    open spec fn view(&self) -> Seq<DateTimeFilter> {
        self.0@
    }
}

impl Default for DateTimeFilterSet {
    fn default() -> (set: DateTimeFilterSet)
        ensures
            set@ == Seq::<DateTimeFilter>::empty(),
    {
        DateTimeFilterSet(Vec::new())
    }
}

impl DateTimeFilterSet {
    /// Appends `value` after the filters already in the set.
    pub fn push(&mut self, value: DateTimeFilter)
        ensures
            final(self)@ == old(self)@.push(value),
    {
        self.0.push(value);
    }

    /// Whether the set holds no filter.
    pub fn is_empty(&self) -> (empty: bool)
        ensures
            empty == (self@.len() == 0),
    {
        self.0.len() == 0
    }

    /// Reads the filters that `entries` write, in their order, and fails on
    /// the first raw value that reads as none.
    pub fn from_entries(entries: &Entries) -> (read: Result<DateTimeFilterSet, DeserializeError>)
        ensures
            match read {
                Ok(set) => reads_all::<DateTimeFilter>(entries@, set@),
                Err(error) => fails_first::<DateTimeFilter>(entries@, error),
            },
    {
        match read_entries::<DateTimeFilter>(entries) {
            Ok(filters) => Ok(DateTimeFilterSet(filters)),
            Err(error) => Err(error),
        }
    }

    /// The predicates that the filters state of `column`, in order.
    pub open spec fn expressions(self, column: ColumnRef) -> Seq<Expression> {
        self@.map_values(|filter: DateTimeFilter| filter.expression(column))
    }
}

impl ToFieldCond for DateTimeFilterSet {
    /// No condition for the empty set, else the conjunction of the filters'
    /// comparisons in the order in which they were pushed.
    open spec fn field_condition(&self, column: ColumnRef) -> Option<Condition> {
        set_condition(self.expressions(column))
    }

    fn to_cond(&self, iden: ColumnRef) -> (cond: Option<Cond>) {
        conjoin(&self.0, iden, Ghost(|filter: DateTimeFilter| filter.expression(iden)))
    }
}

} // verus!

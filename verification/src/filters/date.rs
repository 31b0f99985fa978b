//! Filters on date fields.

use vstd::prelude::*;
use sea_query::{BinOper, ColumnRef, Cond};
use chrono::NaiveDate;
use crate::backend::{
    column_eq, column_gte, column_lt, column_ne, date_value, into_condition,
};
use crate::predicate::{single, Condition, Expression, Operand};
use crate::read::{
    fails_first, read_entries, reads_all, valid, DeserializeError, Entries, ErrorKind, Operator,
};
use crate::seaq::{conjoin, set_condition, ToFieldCond};
use crate::temporal::{date_read, parse_date};
use crate::text::same_text;

verus! {

/// One comparison of a date field with a date.
///
/// `After` includes its bound and `Before` excludes it, so that the two
/// together bound the half-open interval from the one to the other.
#[derive(Debug, Clone, Copy, PartialEq, Eq, PartialOrd, Ord, Hash)]
pub enum DateFilter {
    /// The field is strictly earlier than the date.
    Before(NaiveDate),
    /// The field is the date or later.
    After(NaiveDate),
    /// The field equals the date.
    Equals(NaiveDate),
    /// The field differs from the date.
    NotEquals(NaiveDate),
}

impl DateFilter {
    /// The date that the field is compared with.
    pub open spec fn operand(self) -> NaiveDate {
        match self {
            DateFilter::Before(val) => val,
            DateFilter::After(val) => val,
            DateFilter::Equals(val) => val,
            DateFilter::NotEquals(val) => val,
        }
    }

    /// The token by which a query names the operator.
    pub open spec fn token(self) -> Seq<char> {
        match self {
            DateFilter::Before(_) => "before"@,
            DateFilter::After(_) => "after"@,
            DateFilter::Equals(_) => "eq"@,
            DateFilter::NotEquals(_) => "neq"@,
        }
    }

    /// Whether `token` names an operator of the domain.
    pub open spec fn known(token: Seq<char>) -> bool {
        token == "before"@ || token == "after"@ || token == "eq"@ || token == "neq"@
    }

    /// The comparison that the operator stands for.
    pub open spec fn operator(self) -> BinOper {
        match self {
            DateFilter::Before(_) => BinOper::SmallerThan,
            DateFilter::After(_) => BinOper::GreaterThanOrEqual,
            DateFilter::Equals(_) => BinOper::Equal,
            DateFilter::NotEquals(_) => BinOper::NotEqual,
        }
    }

    /// The predicate that the filter states of `column`.
    pub open spec fn expression(self, column: ColumnRef) -> Expression {
        Expression::Compare {
            column,
            op: self.operator(),
            value: Operand::Date(self.operand()),
        }
    }
}

/// A token names one operator only: two filters with the same token and the
/// same date are the same filter.
pub proof fn lemma_date_token_names_one(a: DateFilter, b: DateFilter)
    requires
        a.token() == b.token(),
        a.operand() == b.operand(),
    ensures
        a == b,
{
    reveal_strlit("before");
    reveal_strlit("after");
    reveal_strlit("eq");
    reveal_strlit("neq");
    assert("before"@.len() == 6 && "before"@[0] == 'b');
    assert("after"@.len() == 5 && "after"@[0] == 'a');
    assert("eq"@.len() == 2 && "eq"@[0] == 'e');
    assert("neq"@.len() == 3 && "neq"@[0] == 'n');
}

impl Operator for DateFilter {
    /// An unknown token is an unknown operator; under a known one, a raw
    /// value that writes no date is an invalid value.
    open spec fn pair_error(token: Seq<char>, raw: Seq<char>) -> Option<ErrorKind> {
        if !DateFilter::known(token) {
            Some(ErrorKind::UnknownOperator)
        } else if date_read(raw) is None {
            Some(ErrorKind::InvalidValue)
        } else {
            None
        }
    }

    /// The filter has the operator that `token` names and the date that
    /// `raw` writes.
    open spec fn reads_as(&self, token: Seq<char>, raw: Seq<char>) -> bool {
        self.token() == token && date_read(raw) == Some(self.operand())
    }

    fn from_pair(token: &str, raw: &str) -> (read: Result<Self, ErrorKind>) {
        if same_text(token, "before") {
            Ok(DateFilter::Before(valid(parse_date(raw))?))
        } else if same_text(token, "after") {
            Ok(DateFilter::After(valid(parse_date(raw))?))
        } else if same_text(token, "eq") {
            Ok(DateFilter::Equals(valid(parse_date(raw))?))
        } else if same_text(token, "neq") {
            Ok(DateFilter::NotEquals(valid(parse_date(raw))?))
        } else {
            Err(ErrorKind::UnknownOperator)
        }
    }
}

impl ToFieldCond for DateFilter {
    /// A single operator always yields its one comparison.
    open spec fn field_condition(&self, column: ColumnRef) -> Option<Condition> {
        Some(single(self.expression(column)))
    }

    fn to_cond(&self, iden: ColumnRef) -> (cond: Option<Cond>) {
        Some(
            match self {
                DateFilter::Equals(val) => into_condition(column_eq(iden, date_value(*val))),
                DateFilter::NotEquals(val) => into_condition(column_ne(iden, date_value(*val))),
                DateFilter::Before(val) => into_condition(column_lt(iden, date_value(*val))),
                DateFilter::After(val) => into_condition(column_gte(iden, date_value(*val))),
            },
        )
    }
}

/// The comparisons asked of one date field, in the order given.
#[derive(Debug, PartialEq, Eq)]
pub struct DateFilterSet(pub Vec<DateFilter>);

impl View for DateFilterSet {
    type V = Seq<DateFilter>;

    open spec fn view(&self) -> Seq<DateFilter> {
        self.0@
    }
}

impl Default for DateFilterSet {
    fn default() -> (set: DateFilterSet)
        ensures
            set@ == Seq::<DateFilter>::empty(),
    {
        DateFilterSet(Vec::new())
    }
}

impl DateFilterSet {
    /// Appends `value` after the filters already in the set.
    pub fn push(&mut self, value: DateFilter)
        ensures
            final(self)@ == old(self)@.push(value),
    {
        self.0.push(value);
    }

    /// Whether the set holds no filter.
    pub fn is_empty(&self) -> (empty: bool)
        ensures
            empty == (self@.len() == 0),
    {
        self.0.len() == 0
    }

    /// Reads the filters that `entries` write, in their order, and fails on
    /// the first raw value that reads as none.
    pub fn from_entries(entries: &Entries) -> (read: Result<DateFilterSet, DeserializeError>)
        ensures
            match read {
                Ok(set) => reads_all::<DateFilter>(entries@, set@),
                Err(error) => fails_first::<DateFilter>(entries@, error),
            },
    {
        match read_entries::<DateFilter>(entries) {
            Ok(filters) => Ok(DateFilterSet(filters)),
            Err(error) => Err(error),
        }
    }

    /// The predicates that the filters state of `column`, in order.
    pub open spec fn expressions(self, column: ColumnRef) -> Seq<Expression> {
        self@.map_values(|filter: DateFilter| filter.expression(column))
    }
}

impl ToFieldCond for DateFilterSet {
    /// No condition for the empty set, else the conjunction of the filters'
    /// comparisons in the order in which they were pushed.
    open spec fn field_condition(&self, column: ColumnRef) -> Option<Condition> {
        set_condition(self.expressions(column))
    }

    fn to_cond(&self, iden: ColumnRef) -> (cond: Option<Cond>) {
        conjoin(&self.0, iden, Ghost(|filter: DateFilter| filter.expression(iden)))
    }
}

} // verus!

//! Filters on date-and-time-with-offset fields.

use vstd::prelude::*;
use sea_query::{BinOper, ColumnRef, Cond};
use crate::backend::{
    column_eq, column_gte, column_lt, column_ne, datetime_tz_value, into_condition,
};
use crate::predicate::{single, Condition, Expression, Operand};
use crate::read::{
    fails_first, read_entries, reads_all, valid, DeserializeError, Entries, ErrorKind, Operator,
};
use crate::seaq::{conjoin, set_condition, ToFieldCond};
use crate::temporal::{datetime_tz_read, parse_datetime_tz, DateTimeTz};
use crate::text::same_text;

verus! {

/// One comparison of a date-and-time-with-offset field with a instant.
///
/// `After` includes its bound and `Before` excludes it, so that the two
/// together bound the half-open interval from the one to the other.
#[derive(Debug, Clone, Copy, PartialEq, Eq, Hash)]
pub enum DateTimeTzFilter {
    /// The field is strictly earlier than the instant.
    Before(DateTimeTz),
    /// The field is the instant or later.
    After(DateTimeTz),
    /// The field equals the instant.
    Equals(DateTimeTz),
    /// The field differs from the instant.
    NotEquals(DateTimeTz),
}

impl DateTimeTzFilter {
    /// The instant that the field is compared with.
    pub open spec fn operand(self) -> DateTimeTz {
        match self {
            DateTimeTzFilter::Before(val) => val,
            DateTimeTzFilter::After(val) => val,
            DateTimeTzFilter::Equals(val) => val,
            DateTimeTzFilter::NotEquals(val) => val,
        }
    }

    /// The token by which a query names the operator.
    pub open spec fn token(self) -> Seq<char> {
        match self {
            DateTimeTzFilter::Before(_) => "before"@,
            DateTimeTzFilter::After(_) => "after"@,
            DateTimeTzFilter::Equals(_) => "eq"@,
            DateTimeTzFilter::NotEquals(_) => "neq"@,
        }
    }

    /// Whether `token` names an operator of the domain.
    pub open spec fn known(token: Seq<char>) -> bool {
        token == "before"@ || token == "after"@ || token == "eq"@ || token == "neq"@
    }

    /// The comparison that the operator stands for.
    pub open spec fn operator(self) -> BinOper {
        match self {
            DateTimeTzFilter::Before(_) => BinOper::SmallerThan,
            DateTimeTzFilter::After(_) => BinOper::GreaterThanOrEqual,
            DateTimeTzFilter::Equals(_) => BinOper::Equal,
            DateTimeTzFilter::NotEquals(_) => BinOper::NotEqual,
        }
    }

    /// The predicate that the filter states of `column`.
    pub open spec fn expression(self, column: ColumnRef) -> Expression {
        Expression::Compare {
            column,
            op: self.operator(),
            value: Operand::DateTimeTz(self.operand()),
        }
    }
}

/// A token names one operator only: two filters with the same token and the
/// same instant are the same filter.
pub proof fn lemma_datetime_tz_token_names_one(a: DateTimeTzFilter, b: DateTimeTzFilter)
    requires
        a.token() == b.token(),
        a.operand() == b.operand(),
    ensures
        a == b,
{
    reveal_strlit("before");
    reveal_strlit("after");
    reveal_strlit("eq");
    reveal_strlit("neq");
    assert("before"@.len() == 6 && "before"@[0] == 'b');
    assert("after"@.len() == 5 && "after"@[0] == 'a');
    assert("eq"@.len() == 2 && "eq"@[0] == 'e');
    assert("neq"@.len() == 3 && "neq"@[0] == 'n');
}

impl Operator for DateTimeTzFilter {
    /// An unknown token is an unknown operator; under a known one, a raw
    /// value that writes no instant is an invalid value.
    open spec fn pair_error(token: Seq<char>, raw: Seq<char>) -> Option<ErrorKind> {
        if !DateTimeTzFilter::known(token) {
            Some(ErrorKind::UnknownOperator)
        } else if datetime_tz_read(raw) is None {
            Some(ErrorKind::InvalidValue)
        } else {
            None
        }
    }

    /// The filter has the operator that `token` names and the instant that
    /// `raw` writes.
    open spec fn reads_as(&self, token: Seq<char>, raw: Seq<char>) -> bool {
        self.token() == token && datetime_tz_read(raw) == Some(self.operand())
    }

    fn from_pair(token: &str, raw: &str) -> (read: Result<Self, ErrorKind>) {
        if same_text(token, "before") {
            Ok(DateTimeTzFilter::Before(valid(parse_datetime_tz(raw))?))
        } else if same_text(token, "after") {
            Ok(DateTimeTzFilter::After(valid(parse_datetime_tz(raw))?))
        } else if same_text(token, "eq") {
            Ok(DateTimeTzFilter::Equals(valid(parse_datetime_tz(raw))?))
        } else if same_text(token, "neq") {
            Ok(DateTimeTzFilter::NotEquals(valid(parse_datetime_tz(raw))?))
        } else {
            Err(ErrorKind::UnknownOperator)
        }
    }
}

impl ToFieldCond for DateTimeTzFilter {
    /// A single operator always yields its one comparison.
    open spec fn field_condition(&self, column: ColumnRef) -> Option<Condition> {
        Some(single(self.expression(column)))
    }

    fn to_cond(&self, iden: ColumnRef) -> (cond: Option<Cond>) {
        Some(
            match self {
                DateTimeTzFilter::Equals(val) => into_condition(column_eq(iden, datetime_tz_value(*val))),
                DateTimeTzFilter::NotEquals(val) => into_condition(column_ne(iden, datetime_tz_value(*val))),
                DateTimeTzFilter::Before(val) => into_condition(column_lt(iden, datetime_tz_value(*val))),
                DateTimeTzFilter::After(val) => into_condition(column_gte(iden, datetime_tz_value(*val))),
            },
        )
    }
}

/// The comparisons asked of one date-and-time-with-offset field, in the order given.
#[derive(Debug, PartialEq, Eq)]
pub struct DateTimeTzFilterSet(pub Vec<DateTimeTzFilter>);

impl View for DateTimeTzFilterSet {
    type V = Seq<DateTimeTzFilter>;

    open spec fn view(&self) -> Seq<DateTimeTzFilter> {
        self.0@
    }
}

impl Default for DateTimeTzFilterSet {
    fn default() -> (set: DateTimeTzFilterSet)
        ensures
            set@ == Seq::<DateTimeTzFilter>::empty(),
    {
        DateTimeTzFilterSet(Vec::new())
    }
}

impl DateTimeTzFilterSet {
    /// Appends `value` after the filters already in the set.
    pub fn push(&mut self, value: DateTimeTzFilter)
        ensures
            final(self)@ == old(self)@.push(value),
    {
        self.0.push(value);
    }

    /// Whether the set holds no filter.
    pub fn is_empty(&self) -> (empty: bool)
        ensures
            empty == (self@.len() == 0),
    {
        self.0.len() == 0
    }

    /// Reads the filters that `entries` write, in their order, and fails on
    /// the first raw value that reads as none.
    pub fn from_entries(entries: &Entries) -> (read: Result<DateTimeTzFilterSet, DeserializeError>)
        ensures
            match read {
                Ok(set) => reads_all::<DateTimeTzFilter>(entries@, set@),
                Err(error) => fails_first::<DateTimeTzFilter>(entries@, error),
            },
    {
        match read_entries::<DateTimeTzFilter>(entries) {
            Ok(filters) => Ok(DateTimeTzFilterSet(filters)),
            Err(error) => Err(error),
        }
    }

    /// The predicates that the filters state of `column`, in order.
    pub open spec fn expressions(self, column: ColumnRef) -> Seq<Expression> {
        self@.map_values(|filter: DateTimeTzFilter| filter.expression(column))
    }
}

impl ToFieldCond for DateTimeTzFilterSet {
    /// No condition for the empty set, else the conjunction of the filters'
    /// comparisons in the order in which they were pushed.
    open spec fn field_condition(&self, column: ColumnRef) -> Option<Condition> {
        set_condition(self.expressions(column))
    }

    fn to_cond(&self, iden: ColumnRef) -> (cond: Option<Cond>) {
        conjoin(&self.0, iden, Ghost(|filter: DateTimeTzFilter| filter.expression(iden)))
    }
}

} // verus!

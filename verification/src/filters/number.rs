//! Filters on integer fields.

use vstd::prelude::*;
use sea_query::{BinOper, ColumnRef, Cond};
use crate::backend::{
    column_eq, column_gt, column_gte, column_lt, column_lte, column_ne, into_condition,
    number_value,
};
use crate::predicate::{single, Condition, Expression, Operand};
use crate::read::{
    fails_first, read_entries, reads_all, DeserializeError, Entries, ErrorKind, Operator,
};
use crate::seaq::{conjoin, set_condition, ToFieldCond};
use crate::text::{number_read, parse_number, same_text};

verus! {

/// One comparison of an integer field with a number.
#[derive(Debug, Clone, Copy, PartialEq, Eq, PartialOrd, Ord, Hash)]
pub enum NumberFilter {
    /// The field equals the number.
    Equals(i64),
    /// The field differs from the number.
    NotEquals(i64),
    /// The field is less than the number.
    LesserThan(i64),
    /// The field is at most the number.
    LesserThanEqual(i64),
    /// The field is greater than the number.
    GreaterThan(i64),
    /// The field is at least the number.
    GreaterThanEqual(i64),
}

impl NumberFilter {
    /// The number that the field is compared with.
    pub open spec fn operand(self) -> i64 {
        match self {
            NumberFilter::Equals(val) => val,
            NumberFilter::NotEquals(val) => val,
            NumberFilter::LesserThan(val) => val,
            NumberFilter::LesserThanEqual(val) => val,
            NumberFilter::GreaterThan(val) => val,
            NumberFilter::GreaterThanEqual(val) => val,
        }
    }

    /// The token by which a query names the operator.
    pub open spec fn token(self) -> Seq<char> {
        match self {
            NumberFilter::Equals(_) => "eq"@,
            NumberFilter::NotEquals(_) => "neq"@,
            NumberFilter::LesserThan(_) => "lt"@,
            NumberFilter::LesserThanEqual(_) => "lte"@,
            NumberFilter::GreaterThan(_) => "gt"@,
            NumberFilter::GreaterThanEqual(_) => "gte"@,
        }
    }

    /// Whether `token` names an operator on numbers.
    pub open spec fn known(token: Seq<char>) -> bool {
        token == "eq"@ || token == "neq"@ || token == "lt"@ || token == "lte"@ || token == "gt"@
            || token == "gte"@
    }

    /// The comparison that the operator stands for.
    pub open spec fn operator(self) -> BinOper {
        match self {
            NumberFilter::Equals(_) => BinOper::Equal,
            NumberFilter::NotEquals(_) => BinOper::NotEqual,
            NumberFilter::LesserThan(_) => BinOper::SmallerThan,
            NumberFilter::LesserThanEqual(_) => BinOper::SmallerThanOrEqual,
            NumberFilter::GreaterThan(_) => BinOper::GreaterThan,
            NumberFilter::GreaterThanEqual(_) => BinOper::GreaterThanOrEqual,
        }
    }

    /// The predicate that the filter states of `column`.
    pub open spec fn expression(self, column: ColumnRef) -> Expression {
        Expression::Compare {
            column,
            op: self.operator(),
            value: Operand::Number(self.operand()),
        }
    }
}

/// Reads the number that `raw` writes.
fn number_value_of(raw: &str) -> (value: Result<i64, ErrorKind>)
    ensures
        value == (match number_read(raw@) {
            Some(number) => Ok::<i64, ErrorKind>(number),
            None => Err::<i64, ErrorKind>(ErrorKind::InvalidValue),
        }),
{
    match parse_number(raw) {
        Some(number) => Ok(number),
        None => Err(ErrorKind::InvalidValue),
    }
}

/// A token names one operator only: two filters with the same token and the
/// same number are the same filter.
pub proof fn lemma_number_token_names_one(a: NumberFilter, b: NumberFilter)
    requires
        a.token() == b.token(),
        a.operand() == b.operand(),
    ensures
        a == b,
{
    reveal_strlit("eq");
    reveal_strlit("neq");
    reveal_strlit("lt");
    reveal_strlit("lte");
    reveal_strlit("gt");
    reveal_strlit("gte");
    assert("eq"@.len() == 2 && "eq"@[0] == 'e');
    assert("neq"@.len() == 3 && "neq"@[0] == 'n');
    assert("lt"@.len() == 2 && "lt"@[0] == 'l');
    assert("lte"@.len() == 3 && "lte"@[0] == 'l');
    assert("gt"@.len() == 2 && "gt"@[0] == 'g');
    assert("gte"@.len() == 3 && "gte"@[0] == 'g');
}

impl Operator for NumberFilter {
    /// An unknown token is an unknown operator; under a known one, a raw
    /// value that writes no 64-bit integer is an invalid value.
    open spec fn pair_error(token: Seq<char>, raw: Seq<char>) -> Option<ErrorKind> {
        if !NumberFilter::known(token) {
            Some(ErrorKind::UnknownOperator)
        } else if number_read(raw) is None {
            Some(ErrorKind::InvalidValue)
        } else {
            None
        }
    }

    /// The filter has the operator that `token` names and the number that
    /// `raw` writes.
    open spec fn reads_as(&self, token: Seq<char>, raw: Seq<char>) -> bool {
        self.token() == token && number_read(raw) == Some(self.operand())
    }

    fn from_pair(token: &str, raw: &str) -> (read: Result<Self, ErrorKind>) {
        if same_text(token, "eq") {
            Ok(NumberFilter::Equals(number_value_of(raw)?))
        } else if same_text(token, "neq") {
            Ok(NumberFilter::NotEquals(number_value_of(raw)?))
        } else if same_text(token, "lt") {
            Ok(NumberFilter::LesserThan(number_value_of(raw)?))
        } else if same_text(token, "lte") {
            Ok(NumberFilter::LesserThanEqual(number_value_of(raw)?))
        } else if same_text(token, "gt") {
            Ok(NumberFilter::GreaterThan(number_value_of(raw)?))
        } else if same_text(token, "gte") {
            Ok(NumberFilter::GreaterThanEqual(number_value_of(raw)?))
        } else {
            Err(ErrorKind::UnknownOperator)
        }
    }
}

impl ToFieldCond for NumberFilter {
    /// A single operator always yields its one comparison.
    open spec fn field_condition(&self, column: ColumnRef) -> Option<Condition> {
        Some(single(self.expression(column)))
    }

    fn to_cond(&self, iden: ColumnRef) -> (cond: Option<Cond>) {
        Some(
            match self {
                NumberFilter::Equals(val) => into_condition(column_eq(iden, number_value(*val))),
                NumberFilter::NotEquals(val) => into_condition(
                    column_ne(iden, number_value(*val)),
                ),
                NumberFilter::GreaterThan(val) => into_condition(
                    column_gt(iden, number_value(*val)),
                ),
                NumberFilter::GreaterThanEqual(val) => into_condition(
                    column_gte(iden, number_value(*val)),
                ),
                NumberFilter::LesserThan(val) => into_condition(
                    column_lt(iden, number_value(*val)),
                ),
                NumberFilter::LesserThanEqual(val) => into_condition(
                    column_lte(iden, number_value(*val)),
                ),
            },
        )
    }
}

/// The comparisons asked of one integer field, in the order given.
#[derive(Debug, PartialEq, Eq)]
pub struct NumberFilterSet(pub Vec<NumberFilter>);

impl View for NumberFilterSet {
    type V = Seq<NumberFilter>;

    open spec fn view(&self) -> Seq<NumberFilter> {
        self.0@
    }
}

impl Default for NumberFilterSet {
    fn default() -> (set: NumberFilterSet)
        ensures
            set@ == Seq::<NumberFilter>::empty(),
    {
        NumberFilterSet(Vec::new())
    }
}

impl NumberFilterSet {
    /// Appends `value` after the filters already in the set.
    pub fn push(&mut self, value: NumberFilter)
        ensures
            final(self)@ == old(self)@.push(value),
    {
        self.0.push(value);
    }

    /// Whether the set holds no filter.
    pub fn is_empty(&self) -> (empty: bool)
        ensures
            empty == (self@.len() == 0),
    {
        self.0.len() == 0
    }

    /// Reads the filters that `entries` write, in their order, and fails on
    /// the first raw value that reads as none.
    pub fn from_entries(entries: &Entries) -> (read: Result<NumberFilterSet, DeserializeError>)
        ensures
            match read {
                Ok(set) => reads_all::<NumberFilter>(entries@, set@),
                Err(error) => fails_first::<NumberFilter>(entries@, error),
            },
    {
        match read_entries::<NumberFilter>(entries) {
            Ok(filters) => Ok(NumberFilterSet(filters)),
            Err(error) => Err(error),
        }
    }

    /// The predicates that the filters state of `column`, in order.
    pub open spec fn expressions(self, column: ColumnRef) -> Seq<Expression> {
        self@.map_values(|filter: NumberFilter| filter.expression(column))
    }
}

impl ToFieldCond for NumberFilterSet {
    /// No condition for the empty set, else the conjunction of the filters'
    /// comparisons in the order in which they were pushed.
    open spec fn field_condition(&self, column: ColumnRef) -> Option<Condition> {
        set_condition(self.expressions(column))
    }

    fn to_cond(&self, iden: ColumnRef) -> (cond: Option<Cond>) {
        conjoin(&self.0, iden, Ghost(|filter: NumberFilter| filter.expression(iden)))
    }
}

} // verus!

//! The mathematical model of conditions.
//!
//! Contracts speak of conditions through these ghost types. They mirror the
//! part of `sea_query`'s condition tree that filters produce; whatever else
//! such a tree may hold is seen as [`Expression::Other`] or [`Operand::Other`].

use vstd::prelude::*;
use sea_query::{BinOper, ColumnRef};
use chrono::{NaiveDate, NaiveDateTime};
use uuid::Uuid;
use crate::temporal::DateTimeTz;

verus! {

/// The literal on the right-hand side of a comparison.
pub ghost enum Operand {
    /// A 64-bit signed integer.
    Number(i64),
    /// A string; for the pattern operators, the pattern.
    Text(Seq<char>),
    /// A calendar date.
    Date(NaiveDate),
    /// A date and time of day without a time zone.
    DateTime(NaiveDateTime),
    /// An instant together with its offset from UTC.
    DateTimeTz(DateTimeTz),
    /// An identifier.
    Id(Uuid),
    /// Any other literal.
    Other,
}

/// A predicate on one column.
pub ghost enum Expression {
    /// `column op value`.
    Compare { column: ColumnRef, op: BinOper, value: Operand },
    /// `column IN (values)`, the values in list order.
    Among { column: ColumnRef, values: Seq<Operand> },
    /// Any other expression.
    Other,
}

/// How a condition joins its terms.
pub ghost enum Junction {
    /// Every term must hold.
    All,
    /// At least one term must hold.
    Any,
}

/// A condition: terms joined by AND or by OR, possibly negated as a whole.
pub ghost struct Condition {
    pub negated: bool,
    pub junction: Junction,
    pub terms: Seq<Term>,
}

/// One term of a condition.
pub ghost enum Term {
    /// A single expression.
    Test(Expression),
    /// A condition in parentheses.
    Nested(Condition),
}

/// The conjunction of `terms`, in order.
pub open spec fn conjunction(terms: Seq<Term>) -> Condition {
    Condition { negated: false, junction: Junction::All, terms }
}

/// The conjunction whose only term is `test`.
pub open spec fn single(test: Expression) -> Condition {
    conjunction(seq![Term::Test(test)])
}

/// The term as which `child` joins a condition: a condition of one term that
/// is not negated joins as that term, any other as a nested condition.
pub open spec fn absorbed(child: Condition) -> Term {
    if child.terms.len() == 1 && !child.negated {
        child.terms[0]
    } else {
        Term::Nested(child)
    }
}

/// Whether `c` is a conjunction that is not negated.
pub open spec fn is_plain_conjunction(c: Condition) -> bool {
    c.junction is All && !c.negated
}

/// The WHERE clause of a statement.
pub ghost enum WhereClause {
    /// No condition was attached.
    Empty,
    /// Expressions chained one by one with AND and OR; no condition can join them.
    Chain,
    /// The condition attached so far.
    Condition(Condition),
}

/// The WHERE clause after `addition` is attached to `clause`.
///
/// Two plain conjunctions merge into one. Otherwise the addition joins the
/// clause's conjunction as one term, after the clause's own condition where
/// that was no plain conjunction itself.
pub open spec fn attached(clause: WhereClause, addition: Condition) -> WhereClause {
    match clause {
        WhereClause::Empty => WhereClause::Condition(addition),
        WhereClause::Condition(current) => if is_plain_conjunction(current) {
            if is_plain_conjunction(addition) {
                WhereClause::Condition(conjunction(current.terms + addition.terms))
            } else {
                WhereClause::Condition(conjunction(current.terms.push(absorbed(addition))))
            }
        } else {
            WhereClause::Condition(conjunction(seq![absorbed(current), absorbed(addition)]))
        },
        WhereClause::Chain => WhereClause::Chain,
    }
}

/// A condition can be attached again to what an attachment left: the clause is
/// then a condition, whatever was attached.
pub proof fn lemma_attached_is_condition(clause: WhereClause, addition: Condition)
    requires
        !(clause is Chain),
    ensures
        attached(clause, addition) is Condition,
{
}

/// One ORDER BY entry.
pub ghost enum SortKey {
    /// A column, ascending or descending, with the default placement of nulls.
    Column { column: ColumnRef, descending: bool },
    /// Any other entry.
    Other,
}

} // verus!

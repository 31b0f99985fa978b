//! The `sea_query` items that the filters are compiled with.
//!
//! Nothing here is proved. Each function below makes one call into `sea_query`;
//! its contract restates, over the model of [`crate::predicate`], what the
//! source of that call does.

use vstd::prelude::*;
use sea_query::{
    Alias, BinOper, ColumnRef, Cond, ConditionalStatement, DeleteStatement, Expr, IntoColumnRef,
    IntoCondition, OrderedStatement, Query, SelectStatement, SimpleExpr, Value,
};
use sea_query::extension::postgres::PgBinOper;
use chrono::{DateTime, FixedOffset, NaiveDate, NaiveDateTime};
use uuid::Uuid;
use crate::predicate::{
    absorbed, attached, conjunction, single, Condition, Expression, Operand, SortKey, Term,
    WhereClause,
};
use crate::temporal::DateTimeTz;

verus! {

/// `sea_query::ColumnRef`, a reference to a column, carried as it is.
#[verifier::external_type_specification]
#[verifier::external_body]
pub struct ExColumnRef(ColumnRef);

/// `sea_query::Value`, a literal, carried as it is.
#[verifier::external_type_specification]
#[verifier::external_body]
pub struct ExValue(Value);

/// `sea_query::SimpleExpr`, an expression, carried as it is.
#[verifier::external_type_specification]
#[verifier::external_body]
pub struct ExSimpleExpr(SimpleExpr);

/// `sea_query::Cond`, a condition, carried as it is.
#[verifier::external_type_specification]
#[verifier::external_body]
pub struct ExCond(Cond);

/// `sea_query::SelectStatement`, carried as it is.
#[verifier::external_type_specification]
#[verifier::external_body]
pub struct ExSelectStatement(SelectStatement);

/// `sea_query::DeleteStatement`, carried as it is.
#[verifier::external_type_specification]
#[verifier::external_body]
pub struct ExDeleteStatement(DeleteStatement);

/// `sea_query::extension::postgres::PgBinOper`, with its variants.
#[verifier::external_type_specification]
pub struct ExPgBinOper(PgBinOper);

/// `sea_query::BinOper`, the binary operators, with its variants.
#[verifier::external_type_specification]
pub struct ExBinOper(BinOper);

/// The literal that `value` holds.
pub uninterp spec fn value_model(value: Value) -> Operand;

/// The predicate that `expr` states.
pub uninterp spec fn expr_model(expr: SimpleExpr) -> Expression;

/// The condition that `cond` holds.
pub uninterp spec fn cond_model(cond: Cond) -> Condition;

/// The WHERE clause of `statement`.
pub uninterp spec fn select_where(statement: SelectStatement) -> WhereClause;

/// The LIMIT of `statement`, where it has one.
pub uninterp spec fn select_limit(statement: SelectStatement) -> Option<u64>;

/// The OFFSET of `statement`, where it has one.
pub uninterp spec fn select_offset(statement: SelectStatement) -> Option<u64>;

/// The ORDER BY entries of `statement`, in order.
pub uninterp spec fn select_orders(statement: SelectStatement) -> Seq<SortKey>;

/// The WHERE clause of `statement`.
pub uninterp spec fn delete_where(statement: DeleteStatement) -> WhereClause;

/// The LIMIT of `statement`, where it has one.
pub uninterp spec fn delete_limit(statement: DeleteStatement) -> Option<u64>;

/// The ORDER BY entries of `statement`, in order.
pub uninterp spec fn delete_orders(statement: DeleteStatement) -> Seq<SortKey>;

/// The column that is known by `name` alone.
pub uninterp spec fn named_column(name: Seq<char>) -> ColumnRef;

/// The models of the literals in `values`, in order.
pub open spec fn value_models(values: Seq<Value>) -> Seq<Operand> {
    values.map_values(|v: Value| value_model(v))
}

/// `Clone::clone` of `ColumnRef`: the copy names the same column.
pub assume_specification[ <ColumnRef as Clone>::clone ](column: &ColumnRef) -> (copy: ColumnRef)
    ensures
        copy == *column,
;

/// `Value::from(i64)`: the literal is the integer.
#[verifier::external_body]
pub(crate) fn number_value(number: i64) -> (value: Value)
    ensures
        value_model(value) == Operand::Number(number),
{
    Value::from(number)
}

/// `Value::from(NaiveDate)`: the literal is the date.
#[verifier::external_body]
pub(crate) fn date_value(date: NaiveDate) -> (value: Value)
    ensures
        value_model(value) == Operand::Date(date),
{
    Value::from(date)
}

/// `Value::from(NaiveDateTime)`: the literal is the date and time.
#[verifier::external_body]
pub(crate) fn datetime_value(datetime: NaiveDateTime) -> (value: Value)
    ensures
        value_model(value) == Operand::DateTime(datetime),
{
    Value::from(datetime)
}

/// `Value::from(DateTime<FixedOffset>)`, on the `DateTime` that
/// `DateTime::from_naive_utc_and_offset` makes of the two fields: the literal
/// is that instant with that offset.
#[verifier::external_body]
pub(crate) fn datetime_tz_value(datetime: DateTimeTz) -> (value: Value)
    ensures
        value_model(value) == Operand::DateTimeTz(datetime),
{
    Value::from(DateTime::<FixedOffset>::from_naive_utc_and_offset(datetime.utc, datetime.offset))
}

/// `Value::from(Uuid)`: the literal is the identifier.
#[verifier::external_body]
pub(crate) fn id_value(id: Uuid) -> (value: Value)
    ensures
        value_model(value) == Operand::Id(id),
{
    Value::from(id)
}

/// `Expr::col(column).eq(value)`: the binary expression `column = value`.
#[verifier::external_body]
pub(crate) fn column_eq(column: ColumnRef, value: Value) -> (expr: SimpleExpr)
    ensures
        expr_model(expr) == (Expression::Compare {
            column,
            op: BinOper::Equal,
            value: value_model(value),
        }),
{
    Expr::col(column).eq(value)
}

/// `Expr::col(column).ne(value)`: the binary expression `column <> value`.
#[verifier::external_body]
pub(crate) fn column_ne(column: ColumnRef, value: Value) -> (expr: SimpleExpr)
    ensures
        expr_model(expr) == (Expression::Compare {
            column,
            op: BinOper::NotEqual,
            value: value_model(value),
        }),
{
    Expr::col(column).ne(value)
}

/// `Expr::col(column).lt(value)`: the binary expression `column < value`.
#[verifier::external_body]
pub(crate) fn column_lt(column: ColumnRef, value: Value) -> (expr: SimpleExpr)
    ensures
        expr_model(expr) == (Expression::Compare {
            column,
            op: BinOper::SmallerThan,
            value: value_model(value),
        }),
{
    Expr::col(column).lt(value)
}

/// `Expr::col(column).lte(value)`: the binary expression `column <= value`.
#[verifier::external_body]
pub(crate) fn column_lte(column: ColumnRef, value: Value) -> (expr: SimpleExpr)
    ensures
        expr_model(expr) == (Expression::Compare {
            column,
            op: BinOper::SmallerThanOrEqual,
            value: value_model(value),
        }),
{
    Expr::col(column).lte(value)
}

/// `Expr::col(column).gt(value)`: the binary expression `column > value`.
#[verifier::external_body]
pub(crate) fn column_gt(column: ColumnRef, value: Value) -> (expr: SimpleExpr)
    ensures
        expr_model(expr) == (Expression::Compare {
            column,
            op: BinOper::GreaterThan,
            value: value_model(value),
        }),
{
    Expr::col(column).gt(value)
}

/// `Expr::col(column).gte(value)`: the binary expression `column >= value`.
#[verifier::external_body]
pub(crate) fn column_gte(column: ColumnRef, value: Value) -> (expr: SimpleExpr)
    ensures
        expr_model(expr) == (Expression::Compare {
            column,
            op: BinOper::GreaterThanOrEqual,
            value: value_model(value),
        }),
{
    Expr::col(column).gte(value)
}

/// `Expr::col(column).like(pattern)`: the binary expression
/// `column LIKE pattern`, the pattern a string literal without an escape.
#[verifier::external_body]
pub(crate) fn column_like(column: ColumnRef, pattern: String) -> (expr: SimpleExpr)
    ensures
        expr_model(expr) == (Expression::Compare {
            column,
            op: BinOper::Like,
            value: Operand::Text(pattern@),
        }),
{
    Expr::col(column).like(pattern)
}

/// `Expr::col(column).not_like(pattern)`: the binary expression
/// `column NOT LIKE pattern`, the pattern a string literal without an escape.
#[verifier::external_body]
pub(crate) fn column_not_like(column: ColumnRef, pattern: String) -> (expr: SimpleExpr)
    ensures
        expr_model(expr) == (Expression::Compare {
            column,
            op: BinOper::NotLike,
            value: Operand::Text(pattern@),
        }),
{
    Expr::col(column).not_like(pattern)
}

/// `Expr::col(column).is_in(values)`: `column IN (..)` over the tuple of the
/// literals, in the order of `values`.
#[verifier::external_body]
pub(crate) fn column_is_in(column: ColumnRef, values: Vec<Value>) -> (expr: SimpleExpr)
    ensures
        expr_model(expr) == (Expression::Among { column, values: value_models(values@) }),
{
    Expr::col(column).is_in(values)
}

/// `IntoCondition::into_condition` of a `SimpleExpr`: the conjunction whose
/// only term is the expression.
#[verifier::external_body]
pub(crate) fn into_condition(expr: SimpleExpr) -> (cond: Cond)
    ensures
        cond_model(cond) == single(expr_model(expr)),
{
    expr.into_condition()
}

/// `Cond::all()`: the conjunction without terms.
#[verifier::external_body]
pub(crate) fn cond_all() -> (cond: Cond)
    ensures
        cond_model(cond) == conjunction(Seq::<Term>::empty()),
{
    Cond::all()
}

/// `Cond::add` with a condition: `child` joins `cond` as its last term, a
/// child of one term that is not negated as that term itself.
#[verifier::external_body]
pub(crate) fn cond_add(cond: Cond, child: Cond) -> (sum: Cond)
    ensures
        cond_model(sum) == (Condition {
            terms: cond_model(cond).terms.push(absorbed(cond_model(child))),
            ..cond_model(cond)
        }),
{
    cond.add(child)
}

/// `Alias::new(name).into_column_ref()`: the column of that name, without a
/// table.
#[verifier::external_body]
pub(crate) fn column_named(name: &str) -> (column: ColumnRef)
    ensures
        column == named_column(name@),
{
    Alias::new(name).into_column_ref()
}

/// `Query::select()`: a statement without a WHERE clause, a LIMIT, an OFFSET
/// or an ORDER BY entry.
#[verifier::external_body]
pub(crate) fn select_new() -> (statement: SelectStatement)
    ensures
        select_where(statement) is Empty,
        select_limit(statement) is None,
        select_offset(statement) is None,
        select_orders(statement) == Seq::<SortKey>::empty(),
{
    Query::select()
}

/// `Query::delete()`: a statement without a WHERE clause, a LIMIT or an
/// ORDER BY entry.
#[verifier::external_body]
pub(crate) fn delete_new() -> (statement: DeleteStatement)
    ensures
        delete_where(statement) is Empty,
        delete_limit(statement) is None,
        delete_orders(statement) == Seq::<SortKey>::empty(),
{
    Query::delete()
}

/// `SelectStatement::cond_where`: attaches `cond` to the WHERE clause and
/// leaves the rest of the statement as it was. The call panics on a clause of
/// chained expressions.
#[verifier::external_body]
pub(crate) fn select_cond_where(statement: &mut SelectStatement, cond: Cond)
    requires
        !(select_where(*old(statement)) is Chain),
    ensures
        select_where(*final(statement)) == attached(
            select_where(*old(statement)),
            cond_model(cond),
        ),
        select_limit(*final(statement)) == select_limit(*old(statement)),
        select_offset(*final(statement)) == select_offset(*old(statement)),
        select_orders(*final(statement)) == select_orders(*old(statement)),
{
    statement.cond_where(cond);
}

/// `SelectStatement::limit`: sets the LIMIT and leaves the rest of the
/// statement as it was.
#[verifier::external_body]
pub(crate) fn select_set_limit(statement: &mut SelectStatement, limit: u64)
    ensures
        select_limit(*final(statement)) == Some(limit),
        select_where(*final(statement)) == select_where(*old(statement)),
        select_offset(*final(statement)) == select_offset(*old(statement)),
        select_orders(*final(statement)) == select_orders(*old(statement)),
{
    statement.limit(limit);
}

/// `SelectStatement::offset`: sets the OFFSET and leaves the rest of the
/// statement as it was.
#[verifier::external_body]
pub(crate) fn select_set_offset(statement: &mut SelectStatement, offset: u64)
    ensures
        select_offset(*final(statement)) == Some(offset),
        select_where(*final(statement)) == select_where(*old(statement)),
        select_limit(*final(statement)) == select_limit(*old(statement)),
        select_orders(*final(statement)) == select_orders(*old(statement)),
{
    statement.offset(offset);
}

/// `SelectStatement::order_by` with `Order::Asc`: appends the column,
/// ascending, to the ORDER BY entries and leaves the rest as it was.
#[verifier::external_body]
pub(crate) fn select_order_by_asc(statement: &mut SelectStatement, column: ColumnRef)
    ensures
        select_orders(*final(statement)) == select_orders(*old(statement)).push(
            SortKey::Column { column, descending: false },
        ),
        select_where(*final(statement)) == select_where(*old(statement)),
        select_limit(*final(statement)) == select_limit(*old(statement)),
        select_offset(*final(statement)) == select_offset(*old(statement)),
{
    statement.order_by(column, sea_query::Order::Asc);
}

/// `SelectStatement::order_by` with `Order::Desc`: appends the column,
/// descending, to the ORDER BY entries and leaves the rest as it was.
#[verifier::external_body]
pub(crate) fn select_order_by_desc(statement: &mut SelectStatement, column: ColumnRef)
    ensures
        select_orders(*final(statement)) == select_orders(*old(statement)).push(
            SortKey::Column { column, descending: true },
        ),
        select_where(*final(statement)) == select_where(*old(statement)),
        select_limit(*final(statement)) == select_limit(*old(statement)),
        select_offset(*final(statement)) == select_offset(*old(statement)),
{
    statement.order_by(column, sea_query::Order::Desc);
}

/// `DeleteStatement::cond_where`: attaches `cond` to the WHERE clause and
/// leaves the rest of the statement as it was. The call panics on a clause of
/// chained expressions.
#[verifier::external_body]
pub(crate) fn delete_cond_where(statement: &mut DeleteStatement, cond: Cond)
    requires
        !(delete_where(*old(statement)) is Chain),
    ensures
        delete_where(*final(statement)) == attached(
            delete_where(*old(statement)),
            cond_model(cond),
        ),
        delete_limit(*final(statement)) == delete_limit(*old(statement)),
        delete_orders(*final(statement)) == delete_orders(*old(statement)),
{
    statement.cond_where(cond);
}

/// `DeleteStatement::limit`: sets the LIMIT and leaves the rest of the
/// statement as it was.
#[verifier::external_body]
pub(crate) fn delete_set_limit(statement: &mut DeleteStatement, limit: u64)
    ensures
        delete_limit(*final(statement)) == Some(limit),
        delete_where(*final(statement)) == delete_where(*old(statement)),
        delete_orders(*final(statement)) == delete_orders(*old(statement)),
{
    statement.limit(limit);
}

/// `DeleteStatement::order_by` with `Order::Asc`: appends the column,
/// ascending, to the ORDER BY entries and leaves the rest as it was.
#[verifier::external_body]
pub(crate) fn delete_order_by_asc(statement: &mut DeleteStatement, column: ColumnRef)
    ensures
        delete_orders(*final(statement)) == delete_orders(*old(statement)).push(
            SortKey::Column { column, descending: false },
        ),
        delete_where(*final(statement)) == delete_where(*old(statement)),
        delete_limit(*final(statement)) == delete_limit(*old(statement)),
{
    statement.order_by(column, sea_query::Order::Asc);
}

/// `DeleteStatement::order_by` with `Order::Desc`: appends the column,
/// descending, to the ORDER BY entries and leaves the rest as it was.
#[verifier::external_body]
pub(crate) fn delete_order_by_desc(statement: &mut DeleteStatement, column: ColumnRef)
    ensures
        delete_orders(*final(statement)) == delete_orders(*old(statement)).push(
            SortKey::Column { column, descending: true },
        ),
        delete_where(*final(statement)) == delete_where(*old(statement)),
        delete_limit(*final(statement)) == delete_limit(*old(statement)),
{
    statement.order_by(column, sea_query::Order::Desc);
}

} // verus!

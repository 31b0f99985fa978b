//! Compiling filters into `sea_query` conditions.

use vstd::prelude::*;
use sea_query::{ColumnRef, Cond, DeleteStatement, SelectStatement};
use crate::backend::{
    column_named, cond_add, cond_all, cond_model, delete_cond_where, delete_limit, delete_new,
    delete_order_by_asc, delete_order_by_desc, delete_orders, delete_set_limit, delete_where,
    named_column, select_cond_where, select_limit, select_new, select_offset,
    select_order_by_asc, select_order_by_desc, select_orders, select_set_limit,
    select_set_offset, select_where,
};
use crate::predicate::{
    absorbed, attached, conjunction, single, Condition, Expression, SortKey, Term, WhereClause,
};
use crate::query::{Filter, Order, QueryFilter};

verus! {

/// The model of a condition that may be absent.
pub open spec fn cond_view(cond: Option<Cond>) -> Option<Condition> {
    match cond {
        Some(c) => Some(cond_model(c)),
        None => None,
    }
}

/// Filters on a single field.
pub trait ToFieldCond {
    /// The condition that these filters put on `column`; `None` where they
    /// put none.
    spec fn field_condition(&self, column: ColumnRef) -> Option<Condition>;

    /// Compiles the filters into a condition on the column `iden`.
    fn to_cond(&self, iden: ColumnRef) -> (cond: Option<Cond>)
        ensures
            cond_view(cond) == self.field_condition(iden),
    ;
}

impl<T: ToFieldCond> ToFieldCond for Option<T> {
    /// An absent value puts no condition on the column.
    open spec fn field_condition(&self, column: ColumnRef) -> Option<Condition> {
        match self {
            Some(val) => val.field_condition(column),
            None => None,
        }
    }

    fn to_cond(&self, iden: ColumnRef) -> (cond: Option<Cond>) {
        match self {
            Some(val) => val.to_cond(iden),
            None => None,
        }
    }
}

impl ToFieldCond for () {
    /// The unit value puts no condition on any column.
    open spec fn field_condition(&self, column: ColumnRef) -> Option<Condition> {
        None
    }

    fn to_cond(&self, _iden: ColumnRef) -> (cond: Option<Cond>) {
        None
    }
}

/// The condition of a filter set whose operators state `tests`: none for the
/// empty set, else the conjunction of the tests in order.
pub open spec fn set_condition(tests: Seq<Expression>) -> Option<Condition> {
    if tests.len() == 0 {
        None
    } else {
        Some(conjunction(tests.map_values(|test: Expression| Term::Test(test))))
    }
}

/// One more operator on a field adds its test as the last term: the
/// condition of a set after a push is the conjunction of the terms that the
/// set had, in their order, and then the test of the operator pushed.
pub proof fn lemma_push_adds_last_term(tests: Seq<Expression>, test: Expression)
    ensures
        set_condition(tests.push(test)) == Some(
            conjunction(tests.map_values(|t: Expression| Term::Test(t)).push(Term::Test(test))),
        ),
{
    assert(tests.push(test).map_values(|t: Expression| Term::Test(t)) =~= tests.map_values(
        |t: Expression| Term::Test(t),
    ).push(Term::Test(test)));
}

/// Conjoins the conditions of `filters` on the column `iden`, each of which
/// is the single expression that `test` gives.
pub(crate) fn conjoin<T: ToFieldCond>(
    filters: &Vec<T>,
    iden: ColumnRef,
    Ghost(test): Ghost<spec_fn(T) -> Expression>,
) -> (cond: Option<Cond>)
    requires
        forall|f: T| #[trigger] f.field_condition(iden) == Some(single(test(f))),
    ensures
        cond_view(cond) == set_condition(filters@.map_values(test)),
{
    if filters.len() == 0 {
        return None;
    }
    let mut conds = cond_all();
    let mut i: usize = 0;
    while i < filters.len()
        invariant
            i <= filters.len(),
            forall|f: T| #[trigger] f.field_condition(iden) == Some(single(test(f))),
            !cond_model(conds).negated,
            cond_model(conds).junction is All,
            cond_model(conds).terms =~= filters@.take(i as int).map_values(test).map_values(
                |test: Expression| Term::Test(test),
            ),
        decreases filters.len() - i,
    {
        if let Some(filter) = filters[i].to_cond(iden.clone()) {
            conds = cond_add(conds, filter);
        }
        proof {
            assert(filters@[i as int].field_condition(iden) == Some(single(test(filters@[i as int]))));
            assert(filters@.take(i + 1) == filters@.take(i as int).push(filters@[i as int]));
            assert(cond_model(conds).terms =~= filters@.take(i + 1).map_values(test).map_values(
                |test: Expression| Term::Test(test),
            ));
        }
        i += 1;
    }
    assert(filters@.take(i as int) == filters@);
    assert(cond_model(conds) == conjunction(cond_model(conds).terms));
    Some(conds)
}

/// A group of filters that compiles into one condition.
///
/// [`group_condition`] makes that condition from the conditions of the
/// fields.
pub trait ToCond {
    /// The condition that the group compiles into. A group states it
    /// beside its `to_cond`; the body here stands for one that states none
    /// and fixes no condition.
    open spec fn condition(&self) -> Condition {
        arbitrary()
    }

    /// Compiles the group into its condition.
    fn to_cond(&self) -> (cond: Cond)
        ensures
            cond_model(cond) == self.condition(),
    ;
}

/// The terms that the conditions `parts` give to their conjunction, in order:
/// one for each part that is a condition, none for a part that is absent.
pub open spec fn group_terms(parts: Seq<Option<Condition>>) -> Seq<Term>
    decreases parts.len(),
{
    if parts.len() == 0 {
        Seq::empty()
    } else {
        let rest = group_terms(parts.drop_last());
        match parts.last() {
            Some(part) => rest.push(absorbed(part)),
            None => rest,
        }
    }
}

/// A field without a condition adds nothing to the condition of its group,
/// wherever it stands among the fields.
pub proof fn lemma_absent_part_adds_nothing(
    before: Seq<Option<Condition>>,
    after: Seq<Option<Condition>>,
)
    ensures
        group_terms(before + seq![None::<Condition>] + after) == group_terms(before + after),
    decreases after.len(),
{
    let with = before + seq![None::<Condition>] + after;
    let without = before + after;
    if after.len() == 0 {
        assert(with.drop_last() =~= before);
        assert(without =~= before);
    } else {
        lemma_absent_part_adds_nothing(before, after.drop_last());
        assert(with.drop_last() =~= before + seq![None::<Condition>] + after.drop_last());
        assert(without.drop_last() =~= before + after.drop_last());
        assert(with.last() == without.last());
    }
}

/// A group none of whose fields has a condition conjoins no term.
pub proof fn lemma_empty_group_has_no_term(parts: Seq<Option<Condition>>)
    requires
        forall|i: int| 0 <= i < parts.len() ==> parts[i] is None,
    ensures
        group_terms(parts) == Seq::<Term>::empty(),
    decreases parts.len(),
{
    if parts.len() > 0 {
        lemma_empty_group_has_no_term(parts.drop_last());
    }
}

/// The models of `parts`, in order.
pub open spec fn part_views(parts: Seq<Option<Cond>>) -> Seq<Option<Condition>> {
    parts.map_values(|part: Option<Cond>| cond_view(part))
}

/// The conjunction of the conditions of the fields of a group, `parts`, in
/// order. A field without a condition adds nothing; without any condition the
/// conjunction has no term and holds of every row.
pub fn group_condition(parts: Vec<Option<Cond>>) -> (cond: Cond)
    ensures
        cond_model(cond) == conjunction(group_terms(part_views(parts@))),
{
    let ghost views = part_views(parts@);
    let mut cond = cond_all();
    for part in it: parts.into_iter()
        invariant
            it.seq() == parts@,
            views == part_views(parts@),
            cond_model(cond) == conjunction(group_terms(views.take(it.index() as int))),
    {
        proof {
            let done = it.index() as int;
            assert(views.take(done + 1).drop_last() =~= views.take(done));
            assert(views.take(done + 1).last() == cond_view(part));
        }
        if let Some(part) = part {
            cond = cond_add(cond, part);
        }
    }
    assert(views.take(views.len() as int) =~= views);
    cond
}

/// Statements whose WHERE clause takes conditions.
pub trait ApplyCond: Sized {
    /// The WHERE clause of the statement.
    spec fn where_clause(&self) -> WhereClause;

    /// The LIMIT of the statement, where it has one.
    spec fn row_limit(&self) -> Option<u64>;

    /// The ORDER BY entries of the statement, in order.
    spec fn sort_keys(&self) -> Seq<SortKey>;

    /// Attaches `cond` to the WHERE clause and leaves the page and the sort
    /// as they were.
    fn apply_cond(&mut self, cond: Cond) -> (statement: &mut Self)
        requires
            !(old(self).where_clause() is Chain),
        ensures
            statement.where_clause() == attached(old(self).where_clause(), cond_model(cond)),
            statement.row_limit() == old(self).row_limit(),
            statement.sort_keys() == old(self).sort_keys(),
            *final(statement) == *final(self),
    ;
}

impl ApplyCond for SelectStatement {
    open spec fn where_clause(&self) -> WhereClause {
        select_where(*self)
    }

    open spec fn row_limit(&self) -> Option<u64> {
        select_limit(*self)
    }

    open spec fn sort_keys(&self) -> Seq<SortKey> {
        select_orders(*self)
    }

    fn apply_cond(&mut self, cond: Cond) -> (statement: &mut Self)
        ensures
            select_offset(*statement) == select_offset(*old(self)),
    {
        select_cond_where(self, cond);
        self
    }
}

impl ApplyCond for DeleteStatement {
    open spec fn where_clause(&self) -> WhereClause {
        delete_where(*self)
    }

    open spec fn row_limit(&self) -> Option<u64> {
        delete_limit(*self)
    }

    open spec fn sort_keys(&self) -> Seq<SortKey> {
        delete_orders(*self)
    }

    fn apply_cond(&mut self, cond: Cond) -> (statement: &mut Self) {
        delete_cond_where(self, cond);
        self
    }
}

/// Statements that take the condition of a group of filters.
pub trait ApplyConds<T: ToCond>: ApplyCond {
    /// Attaches the condition that `filters` compiles into to the WHERE
    /// clause and leaves the page and the sort as they were.
    fn apply_conds(&mut self, filters: &T) -> (statement: &mut Self)
        requires
            !(old(self).where_clause() is Chain),
        ensures
            statement.where_clause() == attached(old(self).where_clause(), filters.condition()),
            statement.row_limit() == old(self).row_limit(),
            statement.sort_keys() == old(self).sort_keys(),
            *final(statement) == *final(self),
    ;
}

impl<T: ToCond> ApplyConds<T> for SelectStatement {
    fn apply_conds(&mut self, filters: &T) -> (statement: &mut Self)
        ensures
            select_offset(*statement) == select_offset(*old(self)),
    {
        let conds = filters.to_cond();
        self.apply_cond(conds)
    }
}

impl<T: ToCond> ApplyConds<T> for DeleteStatement {
    fn apply_conds(&mut self, filters: &T) -> (statement: &mut Self) {
        let conds = filters.to_cond();
        self.apply_cond(conds)
    }
}

/// The ORDER BY entries `orders` after a request that sorts by `sort` in
/// `direction`: without a sort field they stay as they are.
pub open spec fn sorted_by(orders: Seq<SortKey>, sort: Option<&'static str>, direction: Order) -> Seq<
    SortKey,
> {
    match sort {
        Some(field) => orders.push(
            SortKey::Column { column: named_column(field@), descending: direction is Desc },
        ),
        None => orders,
    }
}

/// The WHERE clause `clause` after a request with the filters `group`: the
/// condition of the group is attached where there is one, and without one
/// the clause stays as it is.
pub open spec fn filtered_by<T: ToCond>(clause: WhereClause, group: Option<T>) -> WhereClause {
    match group {
        Some(group) => attached(clause, group.condition()),
        None => clause,
    }
}

/// The offset as the statement holds it: a negative offset is passed on
/// unchecked, as the unsigned number with the same 64 bits.
pub open spec fn unsigned_offset(offset: i32) -> u64 {
    offset as u64
}

/// Statements that take the filters, the page and the sort of a request.
pub trait ApplyFilters<T: Filter + ToCond>: ApplyConds<T> {
    /// The row at which the page of `filters` starts in this kind of
    /// statement.
    spec fn first_row(filters: &QueryFilter<T>) -> int;

    /// Attaches the condition of the filters, sets the page, and sorts by the
    /// sort field where the request names a sortable one.
    fn apply_filters(&mut self, filters: &QueryFilter<T>) -> (statement: &mut Self)
        requires
            !(old(self).where_clause() is Chain),
            filters.end matches Some(end) ==> end - Self::first_row(filters) <= i32::MAX,
        ensures
            statement.where_clause() == filtered_by(old(self).where_clause(), filters.filter),
            statement.row_limit() == Some(filters.limit(Self::first_row(filters)) as u64),
            statement.sort_keys() == sorted_by(
                old(self).sort_keys(),
                filters.sort_field(),
                filters.direction(),
            ),
            *final(statement) == *final(self),
    ;
}

impl<T: Filter + ToCond> ApplyFilters<T> for SelectStatement {
    /// A SELECT starts at the offset of the request.
    open spec fn first_row(filters: &QueryFilter<T>) -> int {
        filters.offset()
    }

    fn apply_filters(&mut self, filters: &QueryFilter<T>) -> (statement: &mut Self)
        ensures
            select_offset(*statement) == Some(unsigned_offset(filters.offset() as i32)),
    {
        let offset = filters.get_offset();
        let limit = filters.get_limit(offset);
        let order = filters.get_order();
        let sort = filters.get_sort();

        if let Some(filter) = &filters.filter {
            self.apply_conds(filter);
        }
        select_set_offset(self, offset as u64);
        select_set_limit(self, limit as u64);

        if let Some(field) = sort {
            if order.is_descending() {
                select_order_by_desc(self, column_named(field));
            } else {
                select_order_by_asc(self, column_named(field));
            }
        }
        self
    }
}

impl<T: Filter + ToCond> ApplyFilters<T> for DeleteStatement {
    /// A DELETE has no offset: its page starts at the first row.
    open spec fn first_row(filters: &QueryFilter<T>) -> int {
        0
    }

    fn apply_filters(&mut self, filters: &QueryFilter<T>) -> (statement: &mut Self) {
        let limit = filters.get_limit(0);
        let order = filters.get_order();
        let sort = filters.get_sort();

        if let Some(filter) = &filters.filter {
            self.apply_conds(filter);
        }
        delete_set_limit(self, limit as u64);

        if let Some(field) = sort {
            if order.is_descending() {
                delete_order_by_desc(self, column_named(field));
            } else {
                delete_order_by_asc(self, column_named(field));
            }
        }
        self
    }
}

/// A new SELECT that takes the filters, the page and the sort of a request.
/// What it selects, and from where, is added afterwards.
pub fn filtered_select<T: Filter + ToCond>(filters: &QueryFilter<T>) -> (statement: SelectStatement)
    requires
        filters.end matches Some(end) ==> end - filters.offset() <= i32::MAX,
    ensures
        select_where(statement) == filtered_by(WhereClause::Empty, filters.filter),
        select_limit(statement) == Some(filters.limit(filters.offset()) as u64),
        select_offset(statement) == Some(unsigned_offset(filters.offset() as i32)),
        select_orders(statement) == sorted_by(
            Seq::<SortKey>::empty(),
            filters.sort_field(),
            filters.direction(),
        ),
{
    let mut statement = select_new();
    statement.apply_filters(filters);
    statement
}

/// A new DELETE that takes the filters, the size of the page and the sort of
/// a request. The table that it deletes from is added afterwards.
pub fn filtered_delete<T: Filter + ToCond>(filters: &QueryFilter<T>) -> (statement: DeleteStatement)
    ensures
        delete_where(statement) == filtered_by(WhereClause::Empty, filters.filter),
        delete_limit(statement) == Some(filters.limit(0) as u64),
        delete_orders(statement) == sorted_by(
            Seq::<SortKey>::empty(),
            filters.sort_field(),
            filters.direction(),
        ),
{
    let mut statement = delete_new();
    statement.apply_filters(filters);
    statement
}

} // verus!

//! Filters on text fields.

use vstd::prelude::*;
use vstd::string::*;
use sea_query::{BinOper, ColumnRef, Cond};
use crate::backend::{column_like, column_not_like, into_condition};
use crate::predicate::{single, Condition, Expression, Operand};
use crate::read::{
    fails_first, read_entries, reads_all, DeserializeError, Entries, ErrorKind, Operator,
};
use crate::seaq::{conjoin, set_condition, ToFieldCond};
use crate::text::same_text;

verus! {

/// One pattern match on a text field.
#[derive(Debug, PartialEq, Eq, PartialOrd, Ord, Hash)]
pub enum StringFilter {
    /// The field contains the text.
    Contains(String),
    /// The field does not contain the text.
    NotContains(String),
    /// The field starts with the text.
    StartsWith(String),
    /// The field ends with the text.
    EndsWith(String),
}

/// The wildcard that matches any run of characters.
pub open spec fn wildcard() -> Seq<char> {
    seq!['%']
}

impl StringFilter {
    /// The text that the field is searched for.
    pub open spec fn operand(self) -> Seq<char> {
        match self {
            StringFilter::Contains(val) => val@,
            StringFilter::NotContains(val) => val@,
            StringFilter::StartsWith(val) => val@,
            StringFilter::EndsWith(val) => val@,
        }
    }

    /// The token by which a query names the operator.
    pub open spec fn token(self) -> Seq<char> {
        match self {
            StringFilter::Contains(_) => "contains"@,
            StringFilter::NotContains(_) => "notcontains"@,
            StringFilter::StartsWith(_) => "startswith"@,
            StringFilter::EndsWith(_) => "endswith"@,
        }
    }

    /// Whether `token` names an operator on text.
    pub open spec fn known(token: Seq<char>) -> bool {
        token == "contains"@ || token == "notcontains"@ || token == "startswith"@ || token
            == "endswith"@
    }

    /// The pattern that the field is matched against: the text with a
    /// wildcard on each side where anything may stand.
    pub open spec fn pattern(self) -> Seq<char> {
        match self {
            StringFilter::Contains(val) => wildcard() + val@ + wildcard(),
            StringFilter::NotContains(val) => wildcard() + val@ + wildcard(),
            StringFilter::StartsWith(val) => val@ + wildcard(),
            StringFilter::EndsWith(val) => wildcard() + val@,
        }
    }

    /// The match that the operator stands for.
    pub open spec fn operator(self) -> BinOper {
        match self {
            StringFilter::NotContains(_) => BinOper::NotLike,
            _ => BinOper::Like,
        }
    }

    /// The predicate that the filter states of `column`.
    pub open spec fn expression(self, column: ColumnRef) -> Expression {
        Expression::Compare { column, op: self.operator(), value: Operand::Text(self.pattern()) }
    }
}

/// The text `val` between the given wildcards.
fn wrap(leading: bool, val: &String, trailing: bool) -> (pattern: String)
    ensures
        pattern@ == (if leading {
            wildcard()
        } else {
            Seq::<char>::empty()
        }) + val@ + (if trailing {
            wildcard()
        } else {
            Seq::<char>::empty()
        }),
{
    proof {
        reveal_strlit("%");
        assert("%"@ =~= wildcard());
    }
    let mut pattern = String::new();
    if leading {
        pattern.append("%");
    }
    pattern.append(val.as_str());
    if trailing {
        pattern.append("%");
    }
    assert(pattern@ =~= (if leading {
        wildcard()
    } else {
        Seq::<char>::empty()
    }) + val@ + (if trailing {
        wildcard()
    } else {
        Seq::<char>::empty()
    }));
    pattern
}

/// A token names one operator only: two filters with the same token and the
/// same text match the same pattern in the same way.
pub proof fn lemma_string_token_names_one(a: StringFilter, b: StringFilter)
    requires
        a.token() == b.token(),
        a.operand() == b.operand(),
    ensures
        a.operator() == b.operator(),
        a.pattern() == b.pattern(),
{
    reveal_strlit("contains");
    reveal_strlit("notcontains");
    reveal_strlit("startswith");
    reveal_strlit("endswith");
    assert("contains"@.len() == 8 && "contains"@[0] == 'c');
    assert("notcontains"@.len() == 11 && "notcontains"@[0] == 'n');
    assert("startswith"@.len() == 10 && "startswith"@[0] == 's');
    assert("endswith"@.len() == 8 && "endswith"@[0] == 'e');
}

impl Operator for StringFilter {
    /// An unknown token is an unknown operator; every raw value is a text.
    open spec fn pair_error(token: Seq<char>, raw: Seq<char>) -> Option<ErrorKind> {
        if !StringFilter::known(token) {
            Some(ErrorKind::UnknownOperator)
        } else {
            None
        }
    }

    /// The filter has the operator that `token` names and the text `raw`.
    open spec fn reads_as(&self, token: Seq<char>, raw: Seq<char>) -> bool {
        self.token() == token && self.operand() == raw
    }

    fn from_pair(token: &str, raw: &str) -> (read: Result<Self, ErrorKind>) {
        if same_text(token, "contains") {
            Ok(StringFilter::Contains(raw.to_owned()))
        } else if same_text(token, "notcontains") {
            Ok(StringFilter::NotContains(raw.to_owned()))
        } else if same_text(token, "startswith") {
            Ok(StringFilter::StartsWith(raw.to_owned()))
        } else if same_text(token, "endswith") {
            Ok(StringFilter::EndsWith(raw.to_owned()))
        } else {
            Err(ErrorKind::UnknownOperator)
        }
    }
}

impl ToFieldCond for StringFilter {
    /// A single operator always yields its one pattern match.
    open spec fn field_condition(&self, column: ColumnRef) -> Option<Condition> {
        Some(single(self.expression(column)))
    }

    fn to_cond(&self, iden: ColumnRef) -> (cond: Option<Cond>) {
        Some(
            match self {
                StringFilter::Contains(val) => {
                    let value = wrap(true, val, true);
                    into_condition(column_like(iden, value))
                },
                StringFilter::NotContains(val) => {
                    let value = wrap(true, val, true);
                    into_condition(column_not_like(iden, value))
                },
                StringFilter::StartsWith(val) => {
                    let value = wrap(false, val, true);
                    assert(value@ =~= val@ + wildcard());
                    into_condition(column_like(iden, value))
                },
                StringFilter::EndsWith(val) => {
                    let value = wrap(true, val, false);
                    assert(value@ =~= wildcard() + val@);
                    into_condition(column_like(iden, value))
                },
            },
        )
    }
}

/// The pattern matches asked of one text field, in the order given.
#[derive(Debug, PartialEq, Eq)]
pub struct StringFilterSet(pub Vec<StringFilter>);

impl View for StringFilterSet {
    type V = Seq<StringFilter>;

    open spec fn view(&self) -> Seq<StringFilter> {
        self.0@
    }
}

impl Default for StringFilterSet {
    fn default() -> (set: StringFilterSet)
        ensures
            set@ == Seq::<StringFilter>::empty(),
    {
        StringFilterSet(Vec::new())
    }
}

impl StringFilterSet {
    /// Appends `value` after the filters already in the set.
    pub fn push(&mut self, value: StringFilter)
        ensures
            final(self)@ == old(self)@.push(value),
    {
        self.0.push(value);
    }

    /// Whether the set holds no filter.
    pub fn is_empty(&self) -> (empty: bool)
        ensures
            empty == (self@.len() == 0),
    {
        self.0.len() == 0
    }

    /// Reads the filters that `entries` write, in their order, and fails on
    /// the first token that names no operator.
    pub fn from_entries(entries: &Entries) -> (read: Result<StringFilterSet, DeserializeError>)
        ensures
            match read {
                Ok(set) => reads_all::<StringFilter>(entries@, set@),
                Err(error) => fails_first::<StringFilter>(entries@, error),
            },
    {
        match read_entries::<StringFilter>(entries) {
            Ok(filters) => Ok(StringFilterSet(filters)),
            Err(error) => Err(error),
        }
    }

    /// The predicates that the filters state of `column`, in order.
    pub open spec fn expressions(self, column: ColumnRef) -> Seq<Expression> {
        self@.map_values(|filter: StringFilter| filter.expression(column))
    }
}

impl ToFieldCond for StringFilterSet {
    /// No condition for the empty set, else the conjunction of the filters'
    /// pattern matches in the order in which they were pushed.
    open spec fn field_condition(&self, column: ColumnRef) -> Option<Condition> {
        set_condition(self.expressions(column))
    }

    fn to_cond(&self, iden: ColumnRef) -> (cond: Option<Cond>) {
        conjoin(&self.0, iden, Ghost(|filter: StringFilter| filter.expression(iden)))
    }
}

} // verus!

//! A request for one page of a filtered, sorted listing.

use vstd::prelude::*;
use vstd::string::*;
use crate::text::{ascii_upper, same_text, same_text_ignoring_case};

verus! {

/// The first of `names` that reads `wanted`, if there is one.
pub open spec fn first_named(names: Seq<&'static str>, wanted: Seq<char>) -> Option<&'static str>
    decreases names.len(),
{
    if names.len() == 0 {
        None
    } else if names[0]@ == wanted {
        Some(names[0])
    } else {
        first_named(names.skip(1), wanted)
    }
}

/// A name that is not among the sortable ones is no sort field, and a sort
/// field is the first of the sortable names that reads as asked.
pub proof fn lemma_first_named(names: Seq<&'static str>, wanted: Seq<char>)
    ensures
        first_named(names, wanted) is None <==> forall|i: int|
            0 <= i < names.len() ==> (#[trigger] names[i])@ != wanted,
        first_named(names, wanted) matches Some(found) ==> exists|i: int|
            {
                &&& 0 <= i < names.len()
                &&& #[trigger] names[i] == found
                &&& found@ == wanted
                &&& forall|j: int| 0 <= j < i ==> (#[trigger] names[j])@ != wanted
            },
    decreases names.len(),
{
    if names.len() > 0 {
        if names[0]@ == wanted {
            assert(names[0] == names[0]);
        } else {
            let rest = names.skip(1);
            lemma_first_named(rest, wanted);
            assert forall|i: int| 0 <= i < rest.len() implies #[trigger] rest[i] == names[i + 1] by {}
            if first_named(rest, wanted) is None {
                assert forall|i: int| 0 <= i < names.len() implies (#[trigger] names[i])@
                    != wanted by {
                    if i > 0 {
                        assert(rest[i - 1] == names[i]);
                    }
                }
            } else {
                let found = first_named(rest, wanted)->0;
                let i = choose|i: int|
                    {
                        &&& 0 <= i < rest.len()
                        &&& #[trigger] rest[i] == found
                        &&& found@ == wanted
                        &&& forall|j: int| 0 <= j < i ==> (#[trigger] rest[j])@ != wanted
                    };
                assert(names[i + 1] == found);
                assert forall|j: int| 0 <= j < i + 1 implies (#[trigger] names[j])@ != wanted by {
                    if j > 0 {
                        assert(rest[j - 1] == names[j]);
                    }
                }
                assert(rest[i] == names[i + 1]);
            }
        }
    }
}

/// What a group of filters declares of the listing that it filters.
pub trait Filter {
    /// The names of the fields by which the listing may be sorted.
    const SORTABLE_FIELDS: &'static [&'static str];

    /// The sortable field that `field` names, or `None` where it names none.
    fn validate_sortable_field(field: &str) -> (found: Option<&'static str>)
        ensures
            found == first_named(Self::SORTABLE_FIELDS@, field@),
    {
        let fields: &'static [&'static str] = Self::SORTABLE_FIELDS;
        let mut i: usize = 0;
        assert(fields@.skip(0) =~= fields@);
        while i < fields.len()
            invariant
                i <= fields.len(),
                fields@ == Self::SORTABLE_FIELDS@,
                first_named(fields@, field@) == first_named(fields@.skip(i as int), field@),
            decreases fields.len() - i,
        {
            if same_text(fields[i], field) {
                return Some(fields[i]);
            }
            assert(fields@.skip(i as int).skip(1) =~= fields@.skip(i + 1));
            i += 1;
        }
        None
    }

    /// The largest page that a caller should grant. Nothing here enforces it.
    fn get_max_limit() -> (limit: i32)
        default_ensures
            limit == 100,
    {
        100
    }
}

/// The direction of a sort.
#[derive(Debug, Clone, Copy, PartialEq, Eq, Hash)]
pub enum Order {
    /// Ascending.
    Asc,
    /// Descending.
    Desc,
    /// No direction was asked for; read as ascending.
    Unspecified,
}

/// The characters of `ASC`.
pub open spec fn asc_word() -> Seq<char> {
    seq!['A', 'S', 'C']
}

/// The characters of `DESC`.
pub open spec fn desc_word() -> Seq<char> {
    seq!['D', 'E', 'S', 'C']
}

/// The direction that `word` names, whatever the case of its letters.
pub open spec fn order_named(word: Seq<char>) -> Option<Order> {
    if ascii_upper(word) == asc_word() {
        Some(Order::Asc)
    } else if ascii_upper(word) == desc_word() {
        Some(Order::Desc)
    } else {
        None
    }
}

impl Order {
    /// The keyword of the direction: `DESC` for descending, else `ASC`.
    pub fn as_str(&self) -> (word: &'static str)
        ensures
            word@ == (match self {
                Order::Desc => desc_word(),
                _ => asc_word(),
            }),
    {
        proof {
            reveal_strlit("DESC");
            reveal_strlit("ASC");
            assert("DESC"@ =~= desc_word());
            assert("ASC"@ =~= asc_word());
        }
        match self {
            Order::Desc => "DESC",
            _ => "ASC",
        }
    }

    /// Whether rows come in descending order; any other direction is
    /// ascending.
    pub fn is_descending(&self) -> (descending: bool)
        ensures
            descending == (self is Desc),
    {
        match self {
            Order::Desc => true,
            _ => false,
        }
    }

    /// Reads `ASC` or `DESC` in any case; any other text is an error.
    pub fn from_str(val: &str) -> (parsed: Result<Order, ()>)
        ensures
            parsed == (match order_named(val@) {
                Some(order) => Ok::<Order, ()>(order),
                None => Err::<Order, ()>(()),
            }),
    {
        proof {
            reveal_strlit("DESC");
            reveal_strlit("ASC");
            assert(ascii_upper("DESC"@) =~= desc_word());
            assert(ascii_upper("ASC"@) =~= asc_word());
        }
        if same_text_ignoring_case(val, "ASC") {
            Ok(Order::Asc)
        } else if same_text_ignoring_case(val, "DESC") {
            Ok(Order::Desc)
        } else {
            Err(())
        }
    }
}

impl std::str::FromStr for Order {
    type Err = ();

    fn from_str(val: &str) -> (parsed: Result<Order, ()>)
        ensures
            parsed == (match order_named(val@) {
                Some(order) => Ok::<Order, ()>(order),
                None => Err::<Order, ()>(()),
            }),
    {
        Order::from_str(val)
    }
}

/// The paging, sorting and filtering that one request asks for.
///
/// The fields are held as they came; the accessors read them.
#[derive(Debug, PartialEq)]
pub struct QueryFilter<T> {
    /// The index of the first row wanted.
    pub start: Option<i32>,
    /// The index after the last row wanted.
    pub end: Option<i32>,
    /// The name of the field to sort by.
    pub sort: Option<String>,
    /// The direction of the sort, `ASC` or `DESC` in any case.
    pub order: Option<String>,
    /// The filters on the fields.
    pub filter: Option<T>,
}

impl<T> Default for QueryFilter<T> {
    fn default() -> (filters: QueryFilter<T>)
        ensures
            filters.start is None,
            filters.end is None,
            filters.sort is None,
            filters.order is None,
            filters.filter is None,
    {
        QueryFilter { start: None, end: None, sort: None, order: None, filter: None }
    }
}

impl<T: Filter> QueryFilter<T> {
    /// The offset that the request asks for: `start`, or 0 without one.
    pub open spec fn offset(&self) -> int {
        match self.start {
            Some(offset) => offset as int,
            None => 0,
        }
    }

    /// The number of rows that the request asks for after `offset`: those up
    /// to `end` but at least one, or 10 without an `end`.
    pub open spec fn limit(&self, offset: int) -> int {
        match self.end {
            Some(end) => if end - offset >= 1 {
                end - offset
            } else {
                1
            },
            None => 10,
        }
    }

    /// The sort field that the request names, where `T` declares it sortable.
    pub open spec fn sort_field(&self) -> Option<&'static str> {
        match self.sort {
            Some(field) => first_named(T::SORTABLE_FIELDS@, field@),
            None => None,
        }
    }

    /// The direction that the request names; `Order::Unspecified` where it names
    /// none or one that is not known.
    pub open spec fn direction(&self) -> Order {
        match self.order {
            Some(val) => match order_named(val@) {
                Some(order) => order,
                None => Order::Unspecified,
            },
            None => Order::Unspecified,
        }
    }

    /// The offset of the page: `start`, negative or not, or 0 without one.
    pub fn get_offset(&self) -> (offset: i32)
        ensures
            offset == self.offset(),
    {
        if let Some(offset) = self.start {
            offset
        } else {
            0
        }
    }

    /// The size of the page that starts at `offset`: `end - offset` but at
    /// least 1, or 10 without an `end`.
    pub fn get_limit(&self, offset: i32) -> (limit: i32)
        requires
            self.end matches Some(end) ==> end - offset <= i32::MAX,
        ensures
            limit == self.limit(offset as int),
            limit >= 1,
    {
        if let Some(end) = self.end {
            let rows: i64 = end as i64 - offset as i64;
            if rows >= 1 {
                rows as i32
            } else {
                1
            }
        } else {
            10
        }
    }

    /// The field to sort by: the sortable field that `sort` names, if any.
    pub fn get_sort(&self) -> (sort: Option<&'static str>)
        ensures
            sort == self.sort_field(),
    {
        if let Some(ref field) = self.sort {
            T::validate_sortable_field(field.as_str())
        } else {
            None
        }
    }

    /// The direction of the sort, read from `order` in any case.
    pub fn get_order(&self) -> (order: Order)
        ensures
            order == self.direction(),
    {
        if let Some(ref val) = self.order {
            match Order::from_str(val.as_str()) {
                Ok(order) => order,
                Err(_) => Order::Unspecified,
            }
        } else {
            Order::Unspecified
        }
    }

    /// The filters of the request, if it has any.
    pub fn get_filter(&self) -> (filter: Option<&T>)
        ensures
            filter == (match self.filter {
                Some(group) => Some(&group),
                None => None,
            }),
    {
        self.filter.as_ref()
    }
}

} // verus!

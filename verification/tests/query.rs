use query_filter::text::{same_text, same_text_ignoring_case, to_upper};
use query_filter::{Filter, Order, QueryFilter};

struct Listing;

impl Filter for Listing {
    const SORTABLE_FIELDS: &'static [&'static str] = &["name", "age", "score"];
}

struct Capped;

impl Filter for Capped {
    const SORTABLE_FIELDS: &'static [&'static str] = &[];

    fn get_max_limit() -> i32 {
        25
    }
}

fn page(start: Option<i32>, end: Option<i32>) -> QueryFilter<Listing> {
    QueryFilter { start, end, ..QueryFilter::default() }
}

#[test]
fn offset_defaults_to_zero() {
    assert_eq!(page(None, None).get_offset(), 0);
    assert_eq!(page(None, Some(5)).get_offset(), 0);
    assert_eq!(page(Some(10), None).get_offset(), 10);
}

#[test]
fn negative_offset_is_passed_through() {
    assert_eq!(page(Some(-3), None).get_offset(), -3);
    assert_eq!(page(Some(-3), Some(2)).get_limit(-3), 5);
}

#[test]
fn limit_defaults_to_ten() {
    assert_eq!(page(None, None).get_limit(0), 10);
    assert_eq!(page(Some(40), None).get_limit(40), 10);
}

#[test]
fn limit_is_the_rows_up_to_end() {
    assert_eq!(page(Some(10), Some(100)).get_limit(10), 90);
    assert_eq!(page(None, Some(7)).get_limit(0), 7);
}

#[test]
fn limit_is_never_less_than_one() {
    assert_eq!(page(Some(50), Some(10)).get_limit(50), 1);
    assert_eq!(page(Some(10), Some(10)).get_limit(10), 1);
    assert_eq!(page(Some(10), Some(11)).get_limit(10), 1);
    assert_eq!(page(Some(i32::MAX), Some(i32::MIN)).get_limit(i32::MAX), 1);
    assert_eq!(page(Some(0), Some(i32::MAX)).get_limit(0), i32::MAX);
}

#[test]
fn default_envelope_is_empty() {
    let filters: QueryFilter<Listing> = QueryFilter::default();
    assert_eq!(filters.start, None);
    assert_eq!(filters.end, None);
    assert_eq!(filters.sort, None);
    assert_eq!(filters.order, None);
    assert!(filters.get_filter().is_none());
    assert_eq!(filters.get_sort(), None);
    assert_eq!(filters.get_order(), Order::Unspecified);
}

#[test]
fn filter_is_handed_out() {
    let filters = QueryFilter { filter: Some(Listing), ..QueryFilter::default() };
    assert!(filters.get_filter().is_some());
}

#[test]
fn sort_field_must_be_sortable() {
    let sort = |name: &str| {
        let filters: QueryFilter<Listing> =
            QueryFilter { sort: Some(name.to_string()), ..QueryFilter::default() };
        filters.get_sort()
    };
    assert_eq!(sort("name"), Some("name"));
    assert_eq!(sort("score"), Some("score"));
    assert_eq!(sort("height"), None);
    assert_eq!(sort("Name"), None);
    assert_eq!(sort(""), None);
    assert_eq!(Listing::validate_sortable_field("age"), Some("age"));
    assert_eq!(Listing::validate_sortable_field("ag"), None);
    assert_eq!(Capped::validate_sortable_field("age"), None);
}

#[test]
fn max_limit_defaults_to_one_hundred() {
    assert_eq!(Listing::get_max_limit(), 100);
    assert_eq!(Capped::get_max_limit(), 25);
}

#[test]
fn order_is_read_in_any_case() {
    let order = |word: &str| {
        let filters: QueryFilter<Listing> =
            QueryFilter { order: Some(word.to_string()), ..QueryFilter::default() };
        filters.get_order()
    };
    assert_eq!(order("ASC"), Order::Asc);
    assert_eq!(order("asc"), Order::Asc);
    assert_eq!(order("DESC"), Order::Desc);
    assert_eq!(order("dEsC"), Order::Desc);
    assert_eq!(order("descending"), Order::Unspecified);
    assert_eq!(order(""), Order::Unspecified);
    assert_eq!(order("AS"), Order::Unspecified);
}

#[test]
fn order_parses_from_text() {
    assert_eq!("asc".parse::<Order>(), Ok(Order::Asc));
    assert_eq!("Desc".parse::<Order>(), Ok(Order::Desc));
    assert_eq!("down".parse::<Order>(), Err(()));
    assert_eq!(Order::from_str("DESC"), Ok(Order::Desc));
    assert_eq!(Order::from_str("none"), Err(()));
}

#[test]
fn order_keyword() {
    assert_eq!(Order::Asc.as_str(), "ASC");
    assert_eq!(Order::Desc.as_str(), "DESC");
    assert_eq!(Order::Unspecified.as_str(), "ASC");
    assert!(Order::Desc.is_descending());
    assert!(!Order::Asc.is_descending());
    assert!(!Order::Unspecified.is_descending());
}

#[test]
fn texts_are_compared_by_character() {
    assert!(same_text("", ""));
    assert!(same_text("lte", "lte"));
    assert!(!same_text("lte", "lt"));
    assert!(!same_text("lt", "gt"));
    assert!(same_text("é", "é"));
    assert!(same_text_ignoring_case("Desc", "DESC"));
    assert!(!same_text_ignoring_case("Desc", "DESK"));
    assert!(!same_text_ignoring_case("é", "É"));
    assert_eq!(to_upper('a'), 'A');
    assert_eq!(to_upper('z'), 'Z');
    assert_eq!(to_upper('A'), 'A');
    assert_eq!(to_upper('{'), '{');
    assert_eq!(to_upper('`'), '`');
}

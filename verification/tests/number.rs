use query_filter::filters::{NumberFilter, NumberFilterSet};
use query_filter::ToFieldCond;
use sea_query::tests_cfg::Glyph;
use sea_query::{IntoColumnRef, PostgresQueryBuilder, Query};

fn check_number_query(filter: impl ToFieldCond, result: &'static str) {
    let cond = filter.to_cond(Glyph::Aspect.into_column_ref()).unwrap();

    let query = Query::select()
        .column(Glyph::Image)
        .from(Glyph::Table)
        .cond_where(cond)
        .to_owned();

    assert_eq!(query.to_string(PostgresQueryBuilder), result);
}

#[test]
fn test_lt() {
    check_number_query(
        NumberFilter::LesserThan(100),
        r#"SELECT "image" FROM "glyph" WHERE "aspect" < 100"#,
    );
}

#[test]
fn test_lte() {
    check_number_query(
        NumberFilter::LesserThanEqual(100),
        r#"SELECT "image" FROM "glyph" WHERE "aspect" <= 100"#,
    );
}

#[test]
fn test_gt() {
    check_number_query(
        NumberFilter::GreaterThan(100),
        r#"SELECT "image" FROM "glyph" WHERE "aspect" > 100"#,
    );
}

#[test]
fn test_gte() {
    check_number_query(
        NumberFilter::GreaterThanEqual(100),
        r#"SELECT "image" FROM "glyph" WHERE "aspect" >= 100"#,
    );
}

#[test]
fn number_test_eq() {
    check_number_query(
        NumberFilter::Equals(100),
        r#"SELECT "image" FROM "glyph" WHERE "aspect" = 100"#,
    );
}

#[test]
fn number_test_neq() {
    check_number_query(
        NumberFilter::NotEquals(100),
        r#"SELECT "image" FROM "glyph" WHERE "aspect" <> 100"#,
    );
}

#[test]
fn number_test_set() {
    let mut set = NumberFilterSet::default();
    set.push(NumberFilter::LesserThan(120));
    set.push(NumberFilter::GreaterThanEqual(140));

    check_number_query(
        set,
        r#"SELECT "image" FROM "glyph" WHERE "aspect" < 120 AND "aspect" >= 140"#,
    );
}

#[test]
fn number_empty_set_has_no_condition() {
    let set = NumberFilterSet::default();
    assert!(set.is_empty());
    assert!(set.to_cond(Glyph::Aspect.into_column_ref()).is_none());
}

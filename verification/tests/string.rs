use query_filter::filters::{StringFilter, StringFilterSet};
use query_filter::ToFieldCond;
use sea_query::tests_cfg::Glyph;
use sea_query::{IntoColumnRef, PostgresQueryBuilder, Query};

fn check_string_query(filter: impl ToFieldCond, result: &'static str) {
    let cond = filter.to_cond(Glyph::Aspect.into_column_ref()).unwrap();

    let query = Query::select()
        .column(Glyph::Image)
        .from(Glyph::Table)
        .cond_where(cond)
        .to_owned();

    assert_eq!(query.to_string(PostgresQueryBuilder), result);
}

#[test]
fn test_contains() {
    check_string_query(
        StringFilter::Contains("string".into()),
        r#"SELECT "image" FROM "glyph" WHERE "aspect" LIKE '%string%'"#,
    );
}

#[test]
fn test_not_contains() {
    check_string_query(
        StringFilter::NotContains("string".into()),
        r#"SELECT "image" FROM "glyph" WHERE "aspect" NOT LIKE '%string%'"#,
    );
}

#[test]
fn test_startswith() {
    check_string_query(
        StringFilter::StartsWith("string".into()),
        r#"SELECT "image" FROM "glyph" WHERE "aspect" LIKE 'string%'"#,
    );
}

#[test]
fn test_endswith() {
    check_string_query(
        StringFilter::EndsWith("string".into()),
        r#"SELECT "image" FROM "glyph" WHERE "aspect" LIKE '%string'"#,
    );
}

#[test]
fn string_test_set() {
    let mut set = StringFilterSet::default();
    set.push(StringFilter::Contains("string".into()));
    set.push(StringFilter::StartsWith("string".into()));

    check_string_query(
        set,
        r#"SELECT "image" FROM "glyph" WHERE "aspect" LIKE '%string%' AND "aspect" LIKE 'string%'"#,
    );
}

#[test]
fn string_empty_text_is_all_wildcards() {
    check_string_query(
        StringFilter::Contains(String::new()),
        r#"SELECT "image" FROM "glyph" WHERE "aspect" LIKE '%%'"#,
    );
}

#[test]
fn string_empty_set_has_no_condition() {
    let set = StringFilterSet::default();
    assert!(set.is_empty());
    assert!(set.to_cond(Glyph::Aspect.into_column_ref()).is_none());
}

use query_filter::filters::{UuidFilter, UuidFilterSet};
use query_filter::ToFieldCond;
use sea_query::tests_cfg::Glyph;
use sea_query::{IntoColumnRef, PostgresQueryBuilder, Query};
use uuid::Uuid;

fn check_uuid_query(filter: impl ToFieldCond, result: &'static str) {
    let cond = filter.to_cond(Glyph::Aspect.into_column_ref()).unwrap();

    let query = Query::select()
        .column(Glyph::Image)
        .from(Glyph::Table)
        .cond_where(cond)
        .to_owned();

    assert_eq!(query.to_string(PostgresQueryBuilder), result);
}

fn uuid(text: &str) -> Uuid {
    Uuid::parse_str(text).unwrap()
}

#[test]
fn uuid_test_eq() {
    check_uuid_query(
        UuidFilter::Equals(uuid("urn:uuid:F9168C5E-CEB2-4faa-B6BF-329BF39FA1E4")),
        r#"SELECT "image" FROM "glyph" WHERE "aspect" = 'f9168c5e-ceb2-4faa-b6bf-329bf39fa1e4'"#,
    );
}

#[test]
fn test_in() {
    check_uuid_query(
        UuidFilter::In(vec![
            uuid("urn:uuid:F9168C5E-CEB2-4faa-B6BF-329BF39FA1E4"),
            uuid("00000000-0000-0000-0000-ffff00000001"),
            uuid("00000000-0000-0000-0000-ffff00000002"),
        ]),
        "SELECT \"image\" FROM \"glyph\" WHERE \"aspect\" IN (\
            'f9168c5e-ceb2-4faa-b6bf-329bf39fa1e4', \
            '00000000-0000-0000-0000-ffff00000001', \
            '00000000-0000-0000-0000-ffff00000002')",
    );
}

#[test]
fn uuid_test_set() {
    let mut set = UuidFilterSet::default();
    set.push(UuidFilter::In(vec![uuid(
        "urn:uuid:F9168C5E-CEB2-4faa-B6BF-329BF39FA1E4",
    )]));
    set.push(UuidFilter::Equals(uuid("00000000-0000-0000-0000-ffff00000002")));

    check_uuid_query(
        set,
        "SELECT \"image\" FROM \"glyph\" WHERE \
        \"aspect\" IN ('f9168c5e-ceb2-4faa-b6bf-329bf39fa1e4') AND \
        \"aspect\" = '00000000-0000-0000-0000-ffff00000002'",
    );
}

#[test]
fn uuid_empty_set_has_no_condition() {
    let set = UuidFilterSet::default();
    assert!(set.is_empty());
    assert!(set.to_cond(Glyph::Aspect.into_column_ref()).is_none());
}

use chrono::{FixedOffset, NaiveDate, TimeZone};
use query_filter::filters::{DateTimeTzFilter, DateTimeTzFilterSet};
use query_filter::temporal::DateTimeTz;
use query_filter::ToFieldCond;
use sea_query::tests_cfg::Glyph;
use sea_query::{IntoColumnRef, PostgresQueryBuilder, Query};

fn check_datetime_tz_query(filter: impl ToFieldCond, result: &'static str) {
    let cond = filter.to_cond(Glyph::Aspect.into_column_ref()).unwrap();

    let query = Query::select()
        .column(Glyph::Image)
        .from(Glyph::Table)
        .cond_where(cond)
        .to_owned();

    assert_eq!(query.to_string(PostgresQueryBuilder), result);
}

fn local(hours_east: i32) -> DateTimeTz {
    let datetime = FixedOffset::east_opt(hours_east * 3600)
        .unwrap()
        .from_local_datetime(
            &NaiveDate::from_ymd_opt(2022, 10, 15)
                .unwrap()
                .and_hms_opt(10, 30, 5)
                .unwrap(),
        )
        .unwrap();
    DateTimeTz { utc: datetime.naive_utc(), offset: *datetime.offset() }
}

#[test]
fn datetime_tz_test_before() {
    check_datetime_tz_query(
        DateTimeTzFilter::Before(local(0)),
        r#"SELECT "image" FROM "glyph" WHERE "aspect" < '2022-10-15 10:30:05 +00:00'"#,
    );
}

#[test]
fn datetime_tz_test_after() {
    check_datetime_tz_query(
        DateTimeTzFilter::After(local(0)),
        r#"SELECT "image" FROM "glyph" WHERE "aspect" >= '2022-10-15 10:30:05 +00:00'"#,
    );
}

#[test]
fn datetime_tz_test_eq() {
    check_datetime_tz_query(
        DateTimeTzFilter::Equals(local(0)),
        r#"SELECT "image" FROM "glyph" WHERE "aspect" = '2022-10-15 10:30:05 +00:00'"#,
    );
}

#[test]
fn datetime_tz_test_neq() {
    check_datetime_tz_query(
        DateTimeTzFilter::NotEquals(local(0)),
        r#"SELECT "image" FROM "glyph" WHERE "aspect" <> '2022-10-15 10:30:05 +00:00'"#,
    );
}

#[test]
fn datetime_tz_test_set() {
    let mut set = DateTimeTzFilterSet::default();
    set.push(DateTimeTzFilter::After(local(0)));
    set.push(DateTimeTzFilter::Before(local(0)));

    check_datetime_tz_query(
        set,
        "SELECT \"image\" FROM \"glyph\" WHERE \"aspect\" >= '2022-10-15 10:30:05 +00:00' AND \
        \"aspect\" < '2022-10-15 10:30:05 +00:00'",
    );
}

#[test]
fn datetime_tz_keeps_its_offset() {
    check_datetime_tz_query(
        DateTimeTzFilter::Equals(local(2)),
        r#"SELECT "image" FROM "glyph" WHERE "aspect" = '2022-10-15 10:30:05 +02:00'"#,
    );
}

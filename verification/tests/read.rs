use std::collections::BTreeSet;

use chrono::{FixedOffset, NaiveDate, TimeZone};
use query_filter::filters::{
    DateFilter, DateFilterSet, DateTimeFilter, DateTimeFilterSet, DateTimeTzFilter,
    DateTimeTzFilterSet, NumberFilter, NumberFilterSet, StringFilter, StringFilterSet, UuidFilter,
    UuidFilterSet,
};
use query_filter::read::{DeserializeError, Entries, ErrorKind, Operator};
use query_filter::temporal::DateTimeTz;
use query_filter::text::parse_number;
use query_filter::ToFieldCond;
use sea_query::tests_cfg::Glyph;
use sea_query::{IntoColumnRef, PostgresQueryBuilder, Query};
use serde_querystring::BracketsQS;
use uuid::Uuid;

/// The entries of `field` in `query`, as the bracket parser gives them.
fn entries_of(query: &'static str, field: &'static str) -> Entries {
    let parsed = BracketsQS::parse(query.as_bytes());
    let operators = parsed.sub_values(field.as_bytes()).unwrap();
    let mut entries = Entries::new();
    for token in operators.keys() {
        let mut raws = Vec::new();
        for raw in operators.values(token).unwrap() {
            raws.push(String::from_utf8(raw.unwrap().into_owned()).unwrap());
        }
        entries.push((String::from_utf8(token.to_vec()).unwrap(), raws));
    }
    entries
}

fn entry(token: &str, raws: &[&str]) -> (String, Vec<String>) {
    (token.to_string(), raws.iter().map(|raw| raw.to_string()).collect())
}

fn rendered(filter: impl ToFieldCond) -> String {
    let cond = filter.to_cond(Glyph::Aspect.into_column_ref()).unwrap();
    Query::select()
        .column(Glyph::Image)
        .from(Glyph::Table)
        .cond_where(cond)
        .to_string(PostgresQueryBuilder)
}

#[test]
fn number_deserialize() {
    const QUERY: &'static str = "key[lt]=100\
                                &key[gt]=50\
                                &key[eq]=75\
                                &bar[lte]=200\
                                &bar[gte]=100\
                                &bar[neq]=150";

    let res_key = NumberFilterSet::from_entries(&entries_of(QUERY, "key")).unwrap();
    let res_bar = NumberFilterSet::from_entries(&entries_of(QUERY, "bar")).unwrap();

    let mut key = NumberFilterSet::default();
    key.push(NumberFilter::LesserThan(100));
    key.push(NumberFilter::GreaterThan(50));
    key.push(NumberFilter::Equals(75));

    assert_eq!(
        BTreeSet::from_iter(res_key.0.iter()),
        BTreeSet::from_iter(key.0.iter())
    );

    let mut bar = NumberFilterSet::default();
    bar.push(NumberFilter::LesserThanEqual(200));
    bar.push(NumberFilter::GreaterThanEqual(100));
    bar.push(NumberFilter::NotEquals(150));

    assert_eq!(
        BTreeSet::from_iter(res_bar.0.iter()),
        BTreeSet::from_iter(bar.0.iter())
    )
}

#[test]
fn string_deserialize() {
    const QUERY: &'static str = "key[contains]=right_there\
                                &key[notcontains]=not_there\
                                &bla[startswith]=hello_there\
                                &bla[endswith]=bye";

    let res_key = StringFilterSet::from_entries(&entries_of(QUERY, "key")).unwrap();
    let res_bla = StringFilterSet::from_entries(&entries_of(QUERY, "bla")).unwrap();

    let mut key = StringFilterSet::default();
    key.push(StringFilter::Contains("right_there".into()));
    key.push(StringFilter::NotContains("not_there".into()));

    assert_eq!(
        BTreeSet::from_iter(res_key.0.iter()),
        BTreeSet::from_iter(key.0.iter())
    );

    let mut bla = StringFilterSet::default();
    bla.push(StringFilter::StartsWith("hello_there".into()));
    bla.push(StringFilter::EndsWith("bye".into()));

    assert_eq!(
        BTreeSet::from_iter(res_bla.0.iter()),
        BTreeSet::from_iter(bla.0.iter())
    )
}

#[test]
fn uuid_deserialize() {
    const QUERY: &'static str = "id[in]=23191e01-8af8-4381-848c-f9387116d132\
                                &id[in]=23191e01-8af8-4381-848c-f9387116d132\
                                &id[eq]=23191e01-8af8-4381-848c-f9387116d132";

    let res = UuidFilterSet::from_entries(&entries_of(QUERY, "id")).unwrap();

    let one = Uuid::parse_str("23191e01-8af8-4381-848c-f9387116d132").unwrap();
    let mut id = UuidFilterSet::default();
    id.push(UuidFilter::In(vec![one, one]));
    id.push(UuidFilter::Equals(one));

    assert_eq!(
        BTreeSet::from_iter(res.0.iter()),
        BTreeSet::from_iter(id.0.iter())
    );
}

#[test]
fn date_deserialize() {
    const QUERY: &'static str = "birthday[before]=1993-10-15\
                                &birthday[eq]=1993-2-28\
                                &register_date[after]=2022-10-15\
                                &register_date[neq]=2022-10-15";

    let res_birthday = DateFilterSet::from_entries(&entries_of(QUERY, "birthday")).unwrap();
    let res_register_date =
        DateFilterSet::from_entries(&entries_of(QUERY, "register_date")).unwrap();

    let mut birthday = DateFilterSet::default();
    birthday.push(DateFilter::Before(NaiveDate::from_ymd_opt(1993, 10, 15).unwrap()));
    birthday.push(DateFilter::Equals(NaiveDate::from_ymd_opt(1993, 2, 28).unwrap()));

    assert_eq!(
        BTreeSet::from_iter(res_birthday.0.iter()),
        BTreeSet::from_iter(birthday.0.iter())
    );

    let mut register_date = DateFilterSet::default();
    register_date.push(DateFilter::After(NaiveDate::from_ymd_opt(2022, 10, 15).unwrap()));
    register_date.push(DateFilter::NotEquals(NaiveDate::from_ymd_opt(2022, 10, 15).unwrap()));

    assert_eq!(
        BTreeSet::from_iter(res_register_date.0.iter()),
        BTreeSet::from_iter(register_date.0.iter())
    );
}

#[test]
fn datetime_deserialize() {
    const QUERY: &'static str = "birthday[before]=1993-10-15T10:30:5\
                                &birthday[eq]=1993-2-28T10:30:05\
                                &register_date[after]=2022-10-15T10:30:05\
                                &register_date[neq]=2022-10-15T10:30:05";

    let res_birthday = DateTimeFilterSet::from_entries(&entries_of(QUERY, "birthday")).unwrap();
    let res_register_date =
        DateTimeFilterSet::from_entries(&entries_of(QUERY, "register_date")).unwrap();

    let at = |y, m, d| {
        NaiveDate::from_ymd_opt(y, m, d)
            .unwrap()
            .and_hms_opt(10, 30, 5)
            .unwrap()
    };

    let mut birthday = DateTimeFilterSet::default();
    birthday.push(DateTimeFilter::Before(at(1993, 10, 15)));
    birthday.push(DateTimeFilter::Equals(at(1993, 2, 28)));

    assert_eq!(
        BTreeSet::from_iter(res_birthday.0.iter()),
        BTreeSet::from_iter(birthday.0.iter())
    );

    let mut register_date = DateTimeFilterSet::default();
    register_date.push(DateTimeFilter::After(at(2022, 10, 15)));
    register_date.push(DateTimeFilter::NotEquals(at(2022, 10, 15)));

    assert_eq!(
        BTreeSet::from_iter(res_register_date.0.iter()),
        BTreeSet::from_iter(register_date.0.iter())
    );
}

#[test]
fn datetime_tz_deserialize() {
    const QUERY: &'static str = "birthday[before]=1993-10-15T10:30:5%2b00:00\
                                &birthday[eq]=1993-2-28T10:30:05%2b00:00\
                                &register_date[after]=2022-10-15T10:30:05%2b00:00\
                                &register_date[neq]=2022-10-15T10:30:05%2b00:00";

    let res_birthday = DateTimeTzFilterSet::from_entries(&entries_of(QUERY, "birthday")).unwrap();
    let res_register_date =
        DateTimeTzFilterSet::from_entries(&entries_of(QUERY, "register_date")).unwrap();

    let at = |y, m, d| {
        let datetime = FixedOffset::east_opt(0)
            .unwrap()
            .from_local_datetime(
                &NaiveDate::from_ymd_opt(y, m, d)
                    .unwrap()
                    .and_hms_opt(10, 30, 5)
                    .unwrap(),
            )
            .unwrap();
        DateTimeTz { utc: datetime.naive_utc(), offset: *datetime.offset() }
    };

    let mut birthday = DateTimeTzFilterSet::default();
    birthday.push(DateTimeTzFilter::Before(at(1993, 10, 15)));
    birthday.push(DateTimeTzFilter::Equals(at(1993, 2, 28)));

    assert_eq!(res_birthday, birthday);

    let mut register_date = DateTimeTzFilterSet::default();
    register_date.push(DateTimeTzFilter::After(at(2022, 10, 15)));
    register_date.push(DateTimeTzFilter::NotEquals(at(2022, 10, 15)));

    assert_eq!(res_register_date, register_date);
}

#[test]
fn number_entries_keep_their_order() {
    let entries = vec![entry("lt", &["100"]), entry("gt", &["50"]), entry("eq", &["75"])];
    let set = NumberFilterSet::from_entries(&entries).unwrap();
    assert_eq!(
        set.0,
        vec![
            NumberFilter::LesserThan(100),
            NumberFilter::GreaterThan(50),
            NumberFilter::Equals(75)
        ]
    );
    assert_eq!(
        rendered(set),
        r#"SELECT "image" FROM "glyph" WHERE "aspect" < 100 AND "aspect" > 50 AND "aspect" = 75"#
    );
}

#[test]
fn every_value_under_a_token_is_one_filter() {
    let entries = vec![entry("gte", &["1", "2"]), entry("gte", &["3"])];
    let set = NumberFilterSet::from_entries(&entries).unwrap();
    assert_eq!(
        set.0,
        vec![
            NumberFilter::GreaterThanEqual(1),
            NumberFilter::GreaterThanEqual(2),
            NumberFilter::GreaterThanEqual(3)
        ]
    );
}

#[test]
fn no_entries_read_as_the_empty_set() {
    let set = NumberFilterSet::from_entries(&Entries::new()).unwrap();
    assert!(set.is_empty());
    let set = StringFilterSet::from_entries(&vec![entry("contains", &[])]).unwrap();
    assert!(set.is_empty());
    let set = UuidFilterSet::from_entries(&vec![entry("in", &[])]).unwrap();
    assert!(set.is_empty());
}

#[test]
fn unknown_operator_is_rejected() {
    let entries = vec![entry("lt", &["1"]), entry("contains", &["2"])];
    assert_eq!(
        NumberFilterSet::from_entries(&entries),
        Err(DeserializeError { entry: 1, value: 0, kind: ErrorKind::UnknownOperator })
    );
    assert_eq!(
        StringFilterSet::from_entries(&entries),
        Err(DeserializeError { entry: 0, value: 0, kind: ErrorKind::UnknownOperator })
    );
    assert_eq!(
        DateFilterSet::from_entries(&vec![entry("lt", &["2022-10-15"])]),
        Err(DeserializeError { entry: 0, value: 0, kind: ErrorKind::UnknownOperator })
    );
    assert_eq!(
        UuidFilterSet::from_entries(&vec![entry("neq", &["x"])]),
        Err(DeserializeError { entry: 0, value: 0, kind: ErrorKind::UnknownOperator })
    );
}

#[test]
fn malformed_value_is_rejected() {
    assert_eq!(
        NumberFilterSet::from_entries(&vec![entry("lt", &["1", "one"])]),
        Err(DeserializeError { entry: 0, value: 1, kind: ErrorKind::InvalidValue })
    );
    assert_eq!(
        DateFilterSet::from_entries(&vec![entry("eq", &["2022-13-01"])]),
        Err(DeserializeError { entry: 0, value: 0, kind: ErrorKind::InvalidValue })
    );
    assert_eq!(
        DateTimeFilterSet::from_entries(&vec![entry("eq", &["2022-10-15"])]),
        Err(DeserializeError { entry: 0, value: 0, kind: ErrorKind::InvalidValue })
    );
    assert_eq!(
        DateTimeTzFilterSet::from_entries(&vec![entry("after", &["2022-10-15T10:30:05"])]),
        Err(DeserializeError { entry: 0, value: 0, kind: ErrorKind::InvalidValue })
    );
    assert_eq!(
        UuidFilterSet::from_entries(&vec![
            entry("eq", &["23191e01-8af8-4381-848c-f9387116d132"]),
            entry("in", &["23191e01-8af8-4381-848c-f9387116d132", "23191e01"]),
        ]),
        Err(DeserializeError { entry: 1, value: 1, kind: ErrorKind::InvalidValue })
    );
}

#[test]
fn the_token_is_judged_before_the_value() {
    assert_eq!(NumberFilter::from_pair("like", "one"), Err(ErrorKind::UnknownOperator));
    assert_eq!(NumberFilter::from_pair("eq", "one"), Err(ErrorKind::InvalidValue));
    assert_eq!(NumberFilter::from_pair("eq", "1"), Ok(NumberFilter::Equals(1)));
    assert_eq!(NumberFilter::from_pair("EQ", "1"), Err(ErrorKind::UnknownOperator));
}

#[test]
fn each_token_reads_as_its_operator() {
    assert_eq!(NumberFilter::from_pair("neq", "-7"), Ok(NumberFilter::NotEquals(-7)));
    assert_eq!(NumberFilter::from_pair("lt", "7"), Ok(NumberFilter::LesserThan(7)));
    assert_eq!(NumberFilter::from_pair("lte", "7"), Ok(NumberFilter::LesserThanEqual(7)));
    assert_eq!(NumberFilter::from_pair("gt", "7"), Ok(NumberFilter::GreaterThan(7)));
    assert_eq!(NumberFilter::from_pair("gte", "7"), Ok(NumberFilter::GreaterThanEqual(7)));
    assert_eq!(
        StringFilter::from_pair("contains", "a b"),
        Ok(StringFilter::Contains("a b".into()))
    );
    assert_eq!(
        StringFilter::from_pair("notcontains", ""),
        Ok(StringFilter::NotContains(String::new()))
    );
    assert_eq!(
        StringFilter::from_pair("startswith", "%"),
        Ok(StringFilter::StartsWith("%".into()))
    );
    assert_eq!(StringFilter::from_pair("endswith", "é"), Ok(StringFilter::EndsWith("é".into())));
    let day = NaiveDate::from_ymd_opt(2022, 10, 15).unwrap();
    assert_eq!(DateFilter::from_pair("before", "2022-10-15"), Ok(DateFilter::Before(day)));
    assert_eq!(DateFilter::from_pair("after", "2022-10-15"), Ok(DateFilter::After(day)));
    assert_eq!(DateFilter::from_pair("eq", "2022-10-15"), Ok(DateFilter::Equals(day)));
    assert_eq!(DateFilter::from_pair("neq", "2022-10-15"), Ok(DateFilter::NotEquals(day)));
    let id = Uuid::parse_str("23191e01-8af8-4381-848c-f9387116d132").unwrap();
    assert_eq!(
        UuidFilter::from_pair("eq", "23191e01-8af8-4381-848c-f9387116d132"),
        Ok(UuidFilter::Equals(id))
    );
    assert_eq!(
        UuidFilter::from_pair("in", "23191E01-8AF8-4381-848C-F9387116D132"),
        Ok(UuidFilter::In(vec![id]))
    );
}

#[test]
fn an_offset_is_read_with_its_instant() {
    let read = DateTimeTzFilter::from_pair("eq", "2022-10-15T12:30:05+02:00").unwrap();
    let datetime = FixedOffset::east_opt(7200)
        .unwrap()
        .with_ymd_and_hms(2022, 10, 15, 12, 30, 5)
        .unwrap();
    assert_eq!(
        read,
        DateTimeTzFilter::Equals(DateTimeTz {
            utc: datetime.naive_utc(),
            offset: *datetime.offset()
        })
    );
    assert_eq!(
        rendered(read),
        r#"SELECT "image" FROM "glyph" WHERE "aspect" = '2022-10-15 12:30:05 +02:00'"#
    );
}

#[test]
fn numbers_are_read_in_decimal() {
    assert_eq!(parse_number("0"), Some(0));
    assert_eq!(parse_number("007"), Some(7));
    assert_eq!(parse_number("+5"), Some(5));
    assert_eq!(parse_number("-5"), Some(-5));
    assert_eq!(parse_number("9223372036854775807"), Some(i64::MAX));
    assert_eq!(parse_number("-9223372036854775808"), Some(i64::MIN));
    assert_eq!(parse_number("9223372036854775808"), None);
    assert_eq!(parse_number("-9223372036854775809"), None);
    assert_eq!(parse_number("99999999999999999999999"), None);
    assert_eq!(parse_number(""), None);
    assert_eq!(parse_number("-"), None);
    assert_eq!(parse_number("+"), None);
    assert_eq!(parse_number("12a"), None);
    assert_eq!(parse_number(" 12"), None);
    assert_eq!(parse_number("1-2"), None);
    assert_eq!(parse_number("١٢"), None);
}

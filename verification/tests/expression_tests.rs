use std::sync::Arc;

use axon_features::expression::{
    Aggregation, AxonDate, AxonTime, AxonTimestamp, Const, DataSource, Expression, Filter,
    KnownColumn, Operator,
};

fn sample_timestamp() -> AxonTimestamp {
    AxonTimestamp::new(
        AxonDate::new(2024, 5, 6).unwrap(),
        AxonTime::new(7, 8, 9).unwrap(),
    )
}

#[test]
fn type_tag_names_each_variant() {
    assert_eq!(Const::Null.type_tag(), "null");
    assert_eq!(Const::Boolean(true).type_tag(), "boolean");
    assert_eq!(Const::String(String::from("x")).type_tag(), "string");
    assert_eq!(Const::Uint32(7).type_tag(), "uint32");
    assert_eq!(Const::Int32(-7).type_tag(), "int32");
    assert_eq!(Const::Float32(1.5f32.to_bits()).type_tag(), "float32");
    assert_eq!(Const::Timestamp(sample_timestamp()).type_tag(), "timestamp");
}

#[test]
fn type_tag_ignores_the_payload() {
    assert_eq!(Const::Boolean(true).type_tag(), Const::Boolean(false).type_tag());
    assert_eq!(
        Const::String(String::from("a")).type_tag(),
        Const::String(String::new()).type_tag()
    );
    assert_eq!(Const::Uint32(0).type_tag(), Const::Uint32(u32::MAX).type_tag());
    assert_eq!(Const::Int32(i32::MIN).type_tag(), Const::Int32(i32::MAX).type_tag());
    assert_eq!(
        Const::Float32(0f32.to_bits()).type_tag(),
        Const::Float32((-2.5f32).to_bits()).type_tag()
    );
}

#[test]
fn operator_symbols() {
    assert_eq!(Operator::Eq.symbol(), "==");
    assert_eq!(Operator::NotEq.symbol(), "!=");
    assert_eq!(Operator::Gt.symbol(), ">");
    assert_eq!(Operator::GtEq.symbol(), ">=");
    assert_eq!(Operator::Lt.symbol(), "<");
    assert_eq!(Operator::LtEq.symbol(), "<=");
}

#[test]
fn column_names_are_fixed_and_lowercase() {
    assert_eq!(KnownColumn::KeyColumn.name(), "key");
    assert_eq!(KnownColumn::TimestampColumn.name(), "timestamp");
    assert_eq!(KnownColumn::ValueColumn.name(), "value");
}

#[test]
fn aggregation_name() {
    assert_eq!(Aggregation::Sum.name(), "sum");
}

#[test]
fn filter_renders_column_operator_and_value_type() {
    let f = Filter::new(
        KnownColumn::KeyColumn,
        Operator::Eq,
        Const::String(String::from("whatever")),
    );
    assert_eq!(f.render(), "key == string");
    let g = Filter::new(KnownColumn::ValueColumn, Operator::GtEq, Const::Int32(3));
    assert_eq!(g.render(), "value >= int32");
}

#[test]
fn date_construction_rejects_impossible_dates() {
    assert!(AxonDate::new(2024, 2, 29).is_some());
    assert!(AxonDate::new(2023, 2, 29).is_none());
    assert!(AxonDate::new(2100, 2, 29).is_none());
    assert!(AxonDate::new(2000, 2, 29).is_some());
    assert!(AxonDate::new(2024, 13, 1).is_none());
    assert!(AxonDate::new(2024, 1, 32).is_none());
    assert!(AxonDate::new(2024, 4, 31).is_none());
    assert!(AxonDate::new(2024, 0, 1).is_none());
    assert!(AxonDate::new(2024, 1, 0).is_none());
    assert!(AxonDate::new(1989, 12, 31).is_none());
    assert!(AxonDate::new(2111, 1, 1).is_none());
    assert!(AxonDate::new(1990, 1, 1).is_some());
    assert!(AxonDate::new(2110, 12, 31).is_some());
}

#[test]
fn date_construction_never_clamps() {
    let d = AxonDate::new(2001, 12, 31).unwrap();
    assert_eq!(d.year(), 2001);
    assert_eq!(d.month(), 12);
    assert_eq!(d.day(), 31);
}

#[test]
fn time_construction_rejects_impossible_times() {
    assert!(AxonTime::new(25, 0, 0).is_none());
    assert!(AxonTime::new(24, 0, 0).is_none());
    assert!(AxonTime::new(0, 60, 0).is_none());
    assert!(AxonTime::new(0, 0, 60).is_none());
    assert!(AxonTime::new(0, 0, 0).is_some());
    assert!(AxonTime::new(23, 59, 59).is_some());
}

#[test]
fn time_construction_never_clamps() {
    let t = AxonTime::new(23, 1, 2).unwrap();
    assert_eq!(t.hour(), 23);
    assert_eq!(t.minute(), 1);
    assert_eq!(t.second(), 2);
}

#[test]
fn next_walks_the_chain_without_consuming_it() {
    let f1 = Filter::new(KnownColumn::KeyColumn, Operator::Eq, Const::Null);
    let f2 = Filter::new(KnownColumn::ValueColumn, Operator::Gt, Const::Int32(1));
    let tail = Expression::FilterValue(f2.clone(), Arc::new(None));
    let chain = Expression::FilterValue(f1, Arc::new(Some(tail.clone())));

    let first_next = chain.next();
    assert_eq!(*first_next, Some(tail));
    let second_next = match &*first_next {
        Some(e) => e.next(),
        None => unreachable!(),
    };
    assert_eq!(*second_next, None);
    // walking again gives the same link
    assert_eq!(*chain.next(), *first_next);
}

#[test]
fn data_source_binds_name_and_chain() {
    let f = Filter::new(KnownColumn::KeyColumn, Operator::Eq, Const::Null);
    let chain = Expression::FilterValue(f, Arc::new(None));
    let ds = DataSource::new("logins", chain.clone());
    assert_eq!(ds.feature_name, "logins");
    assert_eq!(*ds.exp, chain);
    let copy = ds.clone();
    assert_eq!(copy.feature_name, "logins");
}

use std::sync::Arc;

use axon_features::builder::DataSourceBuilder;
use axon_features::expression::{Const, Expression, Filter, KnownColumn, Operator};

fn one_node_chain() -> Expression {
    let f = Filter::new(KnownColumn::ValueColumn, Operator::Lt, Const::Uint32(9));
    Expression::FilterValue(f, Arc::new(None))
}

#[test]
fn build_without_expression_is_absent() {
    let builder = DataSourceBuilder::new("logins");
    assert!(builder.build().is_none());
}

#[test]
fn build_with_both_parts_succeeds() {
    let mut builder = DataSourceBuilder::new("logins");
    builder.attach_expression(one_node_chain());
    let ds = builder.build().expect("builder had both parts");
    assert_eq!(ds.feature_name, "logins");
    assert_eq!(*ds.exp, one_node_chain());
}

#[test]
fn build_leaves_the_builder_reusable() {
    let mut builder = DataSourceBuilder::new("logins");
    builder.attach_expression(one_node_chain());
    let first = builder.build();
    let second = builder.build();
    assert!(first.is_some());
    assert!(second.is_some());
}

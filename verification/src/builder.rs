//! The builder surface exposed to an embedding scripting host: start a
//! definition from a feature name, attach the expression chain, then
//! build the `DataSource` — which is absent until both parts are there.

use std::sync::Arc;

use vstd::prelude::*;

use crate::expression::{DataSource, Expression};

verus! {

/// Collects the parts of a `DataSource` one call at a time, for hosts
/// that cannot supply them all at once.
#[derive(Clone, Debug)]
pub struct DataSourceBuilder {
    pub feature_name: Option<String>,
    pub exp: Option<Arc<Expression>>,
}

impl DataSourceBuilder {
    /// Starts a definition from its feature name alone; no expression
    /// is attached yet.
    pub fn new(feature_name: &str) -> (r: Self)
        ensures
            r.feature_name matches Some(n) && n@ == feature_name@,
            r.exp is None,
    {
        DataSourceBuilder { feature_name: Some(String::from_str(feature_name)), exp: None }
    }

    /// Attaches the expression chain, replacing any chain attached
    /// before; the feature name is untouched.
    pub fn attach_expression(&mut self, exp: Expression)
        ensures
            final(self).feature_name == old(self).feature_name,
            final(self).exp matches Some(e) && *e == exp,
    {
        self.exp = Some(Arc::new(exp));
    }

    /// Yields the finished `DataSource`, or absence unless both the
    /// feature name and at least a terminal expression node have been
    /// supplied.
    pub fn build(&self) -> (r: Option<DataSource>)
        ensures
            r is Some <==> (self.feature_name is Some && self.exp is Some),
            r matches Some(ds) ==> {
                &&& ds.spec_feature_name() == self.feature_name->Some_0@
                &&& ds.spec_expression() == *self.exp->Some_0
            },
    {
        let feature_name = match &self.feature_name {
            Option::Some(n) => n,
            Option::None => {
                return None;
            },
        };
        let exp = match &self.exp {
            Option::Some(e) => e,
            Option::None => {
                return None;
            },
        };
        Some(DataSource { feature_name: String::from_str(feature_name.as_str()), exp: exp.clone() })
    }
}

} // verus!

//! The compilation contracts: `DataProvider` resolves a feature name to
//! its backing lazy dataset, and `Translate` lowers a `DataSource` into
//! a target query representation.

use polars::prelude::LazyFrame;

use vstd::prelude::*;

pub mod to_polars;

verus! {

/// Resolves a feature name to its backing lazy tabular dataset.
/// Supplied by the host application: the lookup may be a catalog read, a
/// file access or a remote fetch, and it is the sole point where
/// compilation touches actual data storage.  Returns `None` when no
/// dataset is registered under the name.
pub trait DataProvider {
    fn retrieve_feature_data(&self, feature_name: &str) -> Option<LazyFrame>;
}

/// The compiler pass, generic over the target query representation `T`:
/// resolves the base table through the provider and folds the expression
/// chain over it, or yields `None` when the feature name resolves to
/// nothing.
pub trait Translate<T> {
    fn translate<P: DataProvider>(&self, data_provider: &P) -> Option<T>;
}

} // verus!

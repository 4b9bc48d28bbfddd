//! Catalog metadata, the binding of `CREATE TABLE`, and the core of a
//! cost-based plan optimizer: the plan language, the catalog-aware parts of
//! the cost model and the control of the optimization stages.

pub mod binder;
pub mod catalog;
pub mod planner;
pub mod types;

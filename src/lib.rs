//! Inference of implicit many-to-many relations from join tables, with
//! stable naming of the relation and of its two fields across runs.

pub mod m2m;
pub mod naming;
pub mod output;
pub mod schema;

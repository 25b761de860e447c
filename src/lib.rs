//! Reading a pharmaceutical registry export (packages and documented
//! drug-drug interactions) and answering queries over it.
pub mod fest;
pub mod tree;
pub mod types;
pub mod xml;

pub use crate::fest::Fest;
pub use crate::types::Package;

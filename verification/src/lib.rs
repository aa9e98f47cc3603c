//! A tenant-scoped repository for `Book` records.
//!
//! Every read, update or delete is scoped by the owning tenant before it
//! matches on the primary key, so a book of another tenant is
//! indistinguishable from a missing one. Creation always stamps the
//! authenticated tenant as the owner, whatever the payload says.

pub mod model;
pub mod storage;
pub mod repo;
pub mod laws;

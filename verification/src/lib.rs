//! A verified model of a small CRUD service over four related tables
//! (quotes, sections, categories, items).
//!
//! Every resource family follows one pattern: a creation payload, a stored
//! record carrying two timestamps, and a read projection that adds the
//! store-generated identifier.  The pattern itself lives in [`store`] as a
//! generic table; the four families instantiate it.

pub mod categories;
pub mod clock;
pub mod handlers;
pub mod items;
pub mod sections;
pub mod store;

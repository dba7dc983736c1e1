//! Oblivious storage of key image records.
//!
//! A key image is a 32-byte tag; the store maps each tag to a small record
//! (block index and timestamp) inside an oblivious hash map, so that lookups
//! do not reveal which tag was asked for or whether it was present.

mod ct;
pub mod engine;
pub mod key_image;
pub mod outcome;
pub mod record;
pub mod store;

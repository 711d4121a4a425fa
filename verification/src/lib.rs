//! Notes on names: what language a name comes from, what it means, which
//! gender it has and whether it comes from fiction.
//!
//! The library holds the collection of names, the rule by which a name meets
//! a query, and what becomes of the collection when a name is added. Every
//! function is verified against a contract over plain mathematical values:
//! a name is a [`cli::NameRecord`], a query a [`cli::FilterSpec`], and a
//! collection a sequence of records.
//!
//! - [`gender`]: the gender of a name and the rule by which it passes a
//!   gender filter;
//! - [`text`]: searching in text, and writing numbers;
//! - [`cli`]: a name, a query, and whether the one meets the other;
//! - [`name`]: the collection, filtering it and adding to it;
//! - [`store`]: where the collection is kept, what to do when it cannot be
//!   read, and what a command comes to.

pub mod cli;
pub mod gender;
pub mod name;
pub mod store;
pub mod text;

//! The core of an order lookup service: clients submit an order and fetch it
//! later by its identifier.
//!
//! A bounded cache of the least recently used kind stands in front of a
//! transactional store. This crate holds what the service decides and proves
//! it; it opens no connection and waits for nothing. A caller feeds it what
//! has happened and does what it asks for.
//!
//! - [`models`]: the order document.
//! - [`cache`]: the bounded cache, its model and the laws of eviction.
//! - [`db`]: the store adapter's statements, the steps of its transactions,
//!   and the test for a violated primary key.
//! - [`handlers`]: the application state and the steps of the read path and
//!   the write path, with the laws that tie cache and store together.
//! - [`helpers`]: mock orders.
//! - [`text`]: numbers in decimal notation.
//! - [`unpack`]: unpacking of run-length notation.

pub mod cache;
pub mod db;
pub mod handlers;
pub mod helpers;
pub mod models;
pub mod text;
pub mod unpack;

//! The core of a small storefront service: a catalogue of products, a
//! directory of users, and registration and login on top of the directory.
//!
//! A repository is a value that its owner holds: a method that changes it
//! takes `&mut self`, so two changes cannot overlap, and a caller that
//! shares a repository between threads keeps it behind a lock of its own.
//! What a repository holds is described by a mathematical model, `Catalog`
//! for products and `Directory` for users, and every method states what it
//! returns and how the model changes. The `laws` modules state what follows
//! for several calls in a row.
//!
//! Passwords are hashed with Argon2, session tokens are random UUIDs and
//! the time of a login comes from the system clock; these calls are the
//! only code here that is taken on trust.

pub mod products;
pub mod user;
pub mod utils;
pub mod web;

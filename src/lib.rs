//! A small credential store with salted password hashing.
//!
//! `db` keeps accounts in SQLite, `password` hashes and checks passwords with
//! Argon2, and `service` holds the two operations a transport layer calls:
//! registering an account and logging in.
pub mod db;
pub mod password;
pub mod service;
pub mod types;

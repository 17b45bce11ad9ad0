//! A bank account that records deposits and renders a statement of them,
//! newest first, with the running balance of each entry.
pub mod decimal;
pub mod transaction;
pub mod repository;
pub mod statement;
pub mod printer;
pub mod calendar;
pub mod account;

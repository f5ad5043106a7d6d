//! An item-creation service: the rules by which a request to create an item
//! becomes a stored, uniquely named record, and the vocabulary of errors in
//! which every failure on the way is reported.
//!
//! The service itself touches neither a database nor a network. It is
//! written against a store that it is handed ([`repositories`]) and a source
//! of time ([`time_helper`]), and says for every answer that they may give
//! what it does next ([`usecases`]). What callers send and receive is in
//! [`models`], what the store holds in [`entities`], and what a caller is
//! answered in [`handlers`].

pub mod entities;
pub mod handlers;
pub mod models;
pub mod repositories;
pub mod time_helper;
pub mod usecases;
pub mod views;

//! Verified core of a watch marketplace backend: request authentication,
//! input validation, SQL filter composition, pagination, invoice numbering,
//! byte-range parsing and the decisions that the HTTP handlers take between
//! their database round trips.

pub mod text;
pub mod numeric;
pub mod response;
pub mod auth;
pub mod range;
pub mod invoice;
pub mod pagination;
pub mod sql;
pub mod listing;
pub mod requests;
pub mod validation;
pub mod orders;
pub mod passwords;
pub mod accounts;
pub mod media;
pub mod catalog;
pub mod pages;
pub mod chat;

//! Detection of HTTP method overrides in `application/x-www-form-urlencoded`
//! request bodies.
//!
//! HTML forms can only be submitted as `GET` or `POST` requests, so
//! applications simulate other verbs by placing the intended method in a
//! hidden form field named `_method`. This library decides, from a bounded
//! prefix of the body bytes, whether the *first* form field is `_method`
//! and whether its value names a valid HTTP method, and composes that
//! decision with the usual preconditions (request method `POST`, content
//! type `application/x-www-form-urlencoded`).

pub mod filter;
pub mod inspect;
pub mod method;
pub mod utf8;

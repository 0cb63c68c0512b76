//! Authentication, session governance and data-scope authorization for a
//! nursing-home administration back end, with the helpers around them.
//!
//! The core: credential checks (`security`), captcha challenges consumed on
//! first use (`captcha`), a login attempt governor that locks an account
//! after consecutive failures (`governor`), signed stateless session tokens
//! (`token`, `codec`), the data scope of a user's roles (`scope`), and the
//! facade that composes them (`auth`), all over an expiring key/value store
//! (`cache`, `keys`).

pub mod auth;
pub mod cache;
pub mod captcha;
pub mod codec;
pub mod governor;
pub mod keys;
pub mod scope;
pub mod security;
pub mod token;

pub mod annotation;
pub mod config;
pub mod date;
pub mod domain;
pub mod enums;
pub mod error;
pub mod excel;
pub mod exception;
pub mod file;
pub mod http;
pub mod json;
pub mod response;
pub mod sql;
pub mod text;
pub mod url;
pub mod validation;

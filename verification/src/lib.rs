//! Verified core of the group, customer-app and user service of the API server:
//! error answers, group rank rules, key storage and fetch bookkeeping,
//! captcha checks, app-token resolution and paged queries.

pub mod api_err;
pub mod captcha;
pub mod customer_app;
pub mod decimal;
pub mod error;
pub mod file;
pub mod group;
pub mod group_keys;
pub mod ids;
pub mod paging;
pub mod routes;
pub mod user;

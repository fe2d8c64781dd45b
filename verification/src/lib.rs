//! Client-side logic for backing up a budget file from a remote
//! budgeting server: a four-step session (connectivity probe,
//! authentication, file resolution, download) driven by HTTP
//! responses that the caller supplies, plus the formatting of the
//! timestamped backup file name.

pub mod errors;
pub mod http;
pub mod numfmt;
pub mod timestamp;
pub mod json;
pub mod session;

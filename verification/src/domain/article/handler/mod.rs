//! What the boundary decides between a decoded request and an encoded
//! response: which requests reach the use cases, and with which status a
//! success is answered.

pub mod create;
pub mod delete;
pub mod read_article;
pub mod update;

//! A moderation-gated publishing backend: users submit excerpts with
//! citations into topical sections, administrators confirm or reject each
//! submission, and authors are notified of the outcome.

pub mod section;
pub mod text;
pub mod ids;
pub mod pagination;
pub mod table;
pub mod model;
pub mod backend;
pub mod moderation;
pub mod laws;
pub mod auth;

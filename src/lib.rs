//! Request decoding, statement construction and response shaping for a
//! small user resource served over HTTP and stored in a relational table.
pub mod laws;
pub mod path_id;
pub mod response;
pub mod statement;
pub mod store;
pub mod user;

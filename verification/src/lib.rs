//! Normalisation of the responses of a blog's GraphQL service.
//!
//! The service answers a post query and a comments query with loosely typed
//! envelopes in which almost every field may be absent. This crate turns such
//! an envelope into a strict [`Post`] or into a [`CommentMap`] keyed by comment
//! identifier, or says exactly which field was missing. It also holds the
//! decisions that surround one HTTP exchange: the variables of each query, how
//! a status code is classified, and which error a failed exchange becomes.
//!
//! Performing the exchange itself is left to the caller.

pub mod author;
pub mod comment_map;
pub mod comments;
pub mod error;
pub mod model;
pub mod post;
pub mod request;
pub mod response;
pub mod transport;

pub use comment_map::CommentMap;
pub use error::{Error, ErrorView};
pub use model::{Comment, CommentView, Post, PostView, Score, Timestamp};

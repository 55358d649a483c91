//! The envelopes that the service answers with, as they arrive: a tree of
//! optional fields.

use vstd::prelude::*;
use crate::model::{Score, Timestamp};

verus! {

/// The user that a post or a comment refers to.
#[derive(Debug, Clone, PartialEq, Default)]
pub struct UserRef {
    pub display_name: Option<String>,
}

/// The source of a post or a comment.
#[derive(Debug, Clone, PartialEq, Default)]
pub struct Contents {
    pub markdown: Option<String>,
}

/// The fields of a post as the service sent them.
#[derive(Debug, Clone, PartialEq, Default)]
pub struct PostResult {
    pub id: Option<String>,
    pub title: Option<String>,
    pub author: Option<String>,
    pub user: Option<UserRef>,
    pub posted_at: Option<Timestamp>,
    pub slug: Option<String>,
    pub page_url: String,
    pub base_score: Option<Score>,
    pub word_count: Option<i64>,
    pub contents: Option<Contents>,
    pub html_body: Option<String>,
}

/// The outcome of looking a post up.
#[derive(Debug, Clone, PartialEq, Default)]
pub struct PostLookup {
    pub result: Option<PostResult>,
}

/// The payload of the post query.
#[derive(Debug, Clone, PartialEq, Default)]
pub struct PostData {
    pub post: Option<PostLookup>,
}

/// The envelope of the post query.
#[derive(Debug, Clone, PartialEq, Default)]
pub struct PostResponse {
    pub data: Option<PostData>,
}

/// The fields of a comment as the service sent them.
#[derive(Debug, Clone, PartialEq, Default)]
pub struct CommentResult {
    pub id: Option<String>,
    pub parent_comment_id: Option<String>,
    pub author: Option<String>,
    pub user: Option<UserRef>,
    pub posted_at: Option<Timestamp>,
    pub page_url: Option<String>,
    pub base_score: Option<Score>,
    pub vote_count: Option<Score>,
    pub html_body: Option<String>,
    pub contents: Option<Contents>,
    pub deleted: Option<bool>,
}

/// The comments container: a list in which a slot may be empty.
#[derive(Debug, Clone, PartialEq, Default)]
pub struct CommentsLookup {
    pub results: Option<Vec<Option<CommentResult>>>,
}

/// The payload of the comments query.
#[derive(Debug, Clone, PartialEq, Default)]
pub struct CommentsData {
    pub comments: Option<CommentsLookup>,
}

/// The envelope of the comments query.
#[derive(Debug, Clone, PartialEq, Default)]
pub struct CommentsResponse {
    pub data: Option<CommentsData>,
}

} // verus!

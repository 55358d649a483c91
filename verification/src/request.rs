//! What the two queries are asked with.

use vstd::prelude::*;

verus! {

/// The address that both queries are posted to.
pub open spec fn endpoint_text() -> Seq<char> {
    "https://www.lesswrong.com/graphql"@
}

/// The selector of the comments of one post, best first.
pub open spec fn top_comments_view() -> Seq<char> {
    "postCommentsTop"@
}

/// The address that both queries are posted to.
pub fn endpoint() -> (url: &'static str)
    ensures
        url@ == endpoint_text(),
{
    "https://www.lesswrong.com/graphql"
}

/// The variables of the post query: the identifier of the post.
#[derive(Debug, Clone, PartialEq, Eq)]
pub struct PostVariables {
    pub id: String,
}

/// The terms of the comments query: which comments, of which post, and how
/// many of them at most.
#[derive(Debug, Clone, PartialEq, Eq)]
pub struct CommentsTerms {
    pub view: String,
    pub post_id: String,
    pub limit: i64,
}

/// The variables of the comments query.
#[derive(Debug, Clone, PartialEq, Eq)]
pub struct CommentsVariables {
    pub terms: Option<CommentsTerms>,
}

impl PostVariables {
    /// The variables that ask for the post `post_id`.
    pub fn new(post_id: &str) -> (v: PostVariables)
        ensures
            v.id@ == post_id@,
    {
        PostVariables { id: post_id.to_owned() }
    }
}

impl CommentsVariables {
    /// The variables that ask for at most `limit` of the top comments of the
    /// post `post_id`.
    pub fn new(post_id: &str, limit: i64) -> (v: CommentsVariables)
        ensures
            v.terms is Some,
            v.terms->0.view@ == top_comments_view(),
            v.terms->0.post_id@ == post_id@,
            v.terms->0.limit == limit,
    {
        CommentsVariables {
            terms: Some(
                CommentsTerms {
                    view: "postCommentsTop".to_owned(),
                    post_id: post_id.to_owned(),
                    limit,
                },
            ),
        }
    }
}

} // verus!

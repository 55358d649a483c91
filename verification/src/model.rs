//! The strict records that the library hands out.

use vstd::prelude::*;

verus! {

/// An instant in UTC: whole seconds since the Unix epoch and the nanoseconds
/// that have passed within that second.
#[derive(Debug, Clone, Copy, PartialEq, Eq, Structural)]
pub struct Timestamp {
    pub secs: i64,
    pub nanos: u32,
}

/// A score of the service, held as the bit pattern of the IEEE 754 binary64
/// number that the service sent. Two scores are equal when their bits are.
#[derive(Debug, Clone, Copy, PartialEq, Eq, Structural)]
pub struct Score {
    pub bits: u64,
}

impl Default for Timestamp {
    /// The Unix epoch.
    fn default() -> (t: Timestamp)
        ensures
            t == (Timestamp { secs: 0, nanos: 0 }),
    {
        Timestamp { secs: 0, nanos: 0 }
    }
}

impl Default for Score {
    /// The score zero.
    fn default() -> (s: Score)
        ensures
            s == (Score { bits: 0 }),
    {
        Score { bits: 0 }
    }
}

/// A blog post with every mandatory field present.
#[derive(Debug, Clone, PartialEq)]
pub struct Post {
    pub id: String,
    pub title: String,
    pub author: String,
    pub date: Timestamp,
    pub content_html: String,
    pub content_markdown: String,
    pub slug: String,
    pub page_url: String,
    pub base_score: Score,
    pub word_count: i64,
}

/// The mathematical content of a [`Post`].
pub struct PostView {
    pub id: Seq<char>,
    pub title: Seq<char>,
    pub author: Seq<char>,
    pub date: Timestamp,
    pub content_html: Seq<char>,
    pub content_markdown: Seq<char>,
    pub slug: Seq<char>,
    pub page_url: Seq<char>,
    pub base_score: Score,
    pub word_count: i64,
}

impl View for Post {
    type V = PostView;

    open spec fn view(&self) -> PostView {
        PostView {
            id: self.id@,
            title: self.title@,
            author: self.author@,
            date: self.date,
            content_html: self.content_html@,
            content_markdown: self.content_markdown@,
            slug: self.slug@,
            page_url: self.page_url@,
            base_score: self.base_score,
            word_count: self.word_count,
        }
    }
}

impl Default for Post {
    /// A post of empty texts, written at the Unix epoch, with the score zero
    /// and no words.
    fn default() -> (p: Post)
        ensures
            p@ == (PostView {
                id: Seq::empty(),
                title: Seq::empty(),
                author: Seq::empty(),
                date: Timestamp { secs: 0, nanos: 0 },
                content_html: Seq::empty(),
                content_markdown: Seq::empty(),
                slug: Seq::empty(),
                page_url: Seq::empty(),
                base_score: Score { bits: 0 },
                word_count: 0,
            }),
    {
        Post {
            id: String::new(),
            title: String::new(),
            author: String::new(),
            date: Timestamp { secs: 0, nanos: 0 },
            content_html: String::new(),
            content_markdown: String::new(),
            slug: String::new(),
            page_url: String::new(),
            base_score: Score { bits: 0 },
            word_count: 0,
        }
    }
}

/// A comment of a post's discussion. It was not deleted and its rendered body
/// is not empty. With a parent it is a reply, without one it is top-level.
#[derive(Debug, Clone, PartialEq)]
pub struct Comment {
    pub id: String,
    pub parent_comment_id: Option<String>,
    pub author: String,
    pub posted_at: Timestamp,
    pub page_url: String,
    pub base_score: Score,
    pub vote_count: Score,
    pub content_html: String,
    pub content_markdown: String,
}

/// The mathematical content of a [`Comment`].
pub struct CommentView {
    pub id: Seq<char>,
    pub parent_comment_id: Option<Seq<char>>,
    pub author: Seq<char>,
    pub posted_at: Timestamp,
    pub page_url: Seq<char>,
    pub base_score: Score,
    pub vote_count: Score,
    pub content_html: Seq<char>,
    pub content_markdown: Seq<char>,
}

/// The characters of an optional string.
pub open spec fn text_of(s: Option<String>) -> Option<Seq<char>> {
    match s {
        Some(t) => Some(t@),
        None => None,
    }
}

impl View for Comment {
    type V = CommentView;

    open spec fn view(&self) -> CommentView {
        CommentView {
            id: self.id@,
            parent_comment_id: text_of(self.parent_comment_id),
            author: self.author@,
            posted_at: self.posted_at,
            page_url: self.page_url@,
            base_score: self.base_score,
            vote_count: self.vote_count,
            content_html: self.content_html@,
            content_markdown: self.content_markdown@,
        }
    }
}

impl Default for Comment {
    /// A top-level comment of empty texts, written at the Unix epoch, with
    /// both scores zero.
    fn default() -> (c: Comment)
        ensures
            c@ == (CommentView {
                id: Seq::empty(),
                parent_comment_id: None,
                author: Seq::empty(),
                posted_at: Timestamp { secs: 0, nanos: 0 },
                page_url: Seq::empty(),
                base_score: Score { bits: 0 },
                vote_count: Score { bits: 0 },
                content_html: Seq::empty(),
                content_markdown: Seq::empty(),
            }),
    {
        Comment {
            id: String::new(),
            parent_comment_id: None,
            author: String::new(),
            posted_at: Timestamp { secs: 0, nanos: 0 },
            page_url: String::new(),
            base_score: Score { bits: 0 },
            vote_count: Score { bits: 0 },
            content_html: String::new(),
            content_markdown: String::new(),
        }
    }
}

} // verus!

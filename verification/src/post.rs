//! From the envelope of the post query to a strict post.

use vstd::prelude::*;
use crate::author::{display_name, resolve_author, resolved_author};
use crate::error::{view_result, Error, ErrorView};
use crate::model::{Post, PostView};
use crate::response::{Contents, PostData, PostLookup, PostResponse, PostResult};

verus! {

/// The fields without which a post is not handed out, in the order in which
/// they are looked for.
#[derive(Debug, Clone, Copy, PartialEq, Eq, Structural)]
pub enum PostField {
    Contents,
    Author,
    Id,
    Title,
    PostedAt,
    Slug,
    BaseScore,
    WordCount,
    Markdown,
    HtmlBody,
}

impl PostField {
    /// The place of the field in the order in which the fields are looked for.
    pub open spec fn rank(self) -> nat {
        match self {
            PostField::Contents => 0,
            PostField::Author => 1,
            PostField::Id => 2,
            PostField::Title => 3,
            PostField::PostedAt => 4,
            PostField::Slug => 5,
            PostField::BaseScore => 6,
            PostField::WordCount => 7,
            PostField::Markdown => 8,
            PostField::HtmlBody => 9,
        }
    }

    /// The dotted path by which an error names the field.
    pub open spec fn spec_path(self) -> Seq<char> {
        match self {
            PostField::Contents => "post.contents"@,
            PostField::Author => "post.author"@,
            PostField::Id => "post.id"@,
            PostField::Title => "post.title"@,
            PostField::PostedAt => "post.posted_at"@,
            PostField::Slug => "post.slug"@,
            PostField::BaseScore => "post.base_score"@,
            PostField::WordCount => "post.word_count"@,
            PostField::Markdown => "post.contents.markdown"@,
            PostField::HtmlBody => "post.html_body"@,
        }
    }

    /// Whether the post `r` lacks the field. The author is lacking when
    /// neither an explicit author nor a display name is there; the markdown
    /// source is lacking when the contents are there and hold none.
    pub open spec fn missing_in(self, r: PostResult) -> bool {
        match self {
            PostField::Contents => r.contents is None,
            PostField::Author => resolved_author(r.author, r.user) is None,
            PostField::Id => r.id is None,
            PostField::Title => r.title is None,
            PostField::PostedAt => r.posted_at is None,
            PostField::Slug => r.slug is None,
            PostField::BaseScore => r.base_score is None,
            PostField::WordCount => r.word_count is None,
            PostField::Markdown => r.contents is Some && r.contents->0.markdown is None,
            PostField::HtmlBody => r.html_body is None,
        }
    }

    /// The dotted path by which an error names the field.
    pub fn path(self) -> (p: &'static str)
        ensures
            p@ == self.spec_path(),
    {
        match self {
            PostField::Contents => "post.contents",
            PostField::Author => "post.author",
            PostField::Id => "post.id",
            PostField::Title => "post.title",
            PostField::PostedAt => "post.posted_at",
            PostField::Slug => "post.slug",
            PostField::BaseScore => "post.base_score",
            PostField::WordCount => "post.word_count",
            PostField::Markdown => "post.contents.markdown",
            PostField::HtmlBody => "post.html_body",
        }
    }
}

/// The field that `r` lacks and that is looked for first, if `r` lacks any.
pub open spec fn first_missing(r: PostResult) -> Option<PostField> {
    if PostField::Contents.missing_in(r) {
        Some(PostField::Contents)
    } else if PostField::Author.missing_in(r) {
        Some(PostField::Author)
    } else if PostField::Id.missing_in(r) {
        Some(PostField::Id)
    } else if PostField::Title.missing_in(r) {
        Some(PostField::Title)
    } else if PostField::PostedAt.missing_in(r) {
        Some(PostField::PostedAt)
    } else if PostField::Slug.missing_in(r) {
        Some(PostField::Slug)
    } else if PostField::BaseScore.missing_in(r) {
        Some(PostField::BaseScore)
    } else if PostField::WordCount.missing_in(r) {
        Some(PostField::WordCount)
    } else if PostField::Markdown.missing_in(r) {
        Some(PostField::Markdown)
    } else if PostField::HtmlBody.missing_in(r) {
        Some(PostField::HtmlBody)
    } else {
        None
    }
}

/// The post that `r` holds when it lacks no field. The page address is taken
/// over as it came.
pub open spec fn strict_post(r: PostResult) -> PostView {
    PostView {
        id: r.id->0@,
        title: r.title->0@,
        author: resolved_author(r.author, r.user)->0,
        date: r.posted_at->0,
        content_html: r.html_body->0@,
        content_markdown: r.contents->0.markdown->0@,
        slug: r.slug->0@,
        page_url: r.page_url@,
        base_score: r.base_score->0,
        word_count: r.word_count->0,
    }
}

/// What the fields of a post become: the strict post, or the error that
/// names the first field that is lacking.
pub open spec fn post_of_result(r: PostResult) -> Result<PostView, ErrorView> {
    match first_missing(r) {
        Some(field) => Err(ErrorView::MalformattedResponse(field.spec_path())),
        None => Ok(strict_post(r)),
    }
}

/// What the envelope of the post query becomes. Without a payload the
/// envelope is malformed; without a post in the payload the post does not
/// exist; a post without fields is malformed again.
pub open spec fn post_of(response: PostResponse) -> Result<PostView, ErrorView> {
    if response.data is None {
        Err(ErrorView::MalformattedResponse("data"@))
    } else if response.data->0.post is None {
        Err(ErrorView::NotFound)
    } else if response.data->0.post->0.result is None {
        Err(ErrorView::MalformattedResponse("post"@))
    } else {
        post_of_result(response.data->0.post->0.result->0)
    }
}

/// The field that an error names is lacking, and no field that is looked for
/// before it is; where no field is named, none is lacking.
pub proof fn lemma_first_missing_is_least(r: PostResult)
    ensures
        match first_missing(r) {
            Some(field) => field.missing_in(r) && forall|other: PostField| #[trigger]
                other.missing_in(r) ==> field.rank() <= other.rank(),
            None => forall|other: PostField| !(#[trigger] other.missing_in(r)),
        },
{
}

/// The envelope in which the service sends the fields `r` of a post.
pub open spec fn envelope_of(r: PostResult) -> PostResponse {
    PostResponse { data: Some(PostData { post: Some(PostLookup { result: Some(r) }) }) }
}

/// An envelope whose post lacks exactly one mandatory field is refused with
/// the path of that field.
pub proof fn lemma_single_missing_field(r: PostResult, field: PostField)
    requires
        field.missing_in(r),
        forall|other: PostField| other != field ==> !(#[trigger] other.missing_in(r)),
    ensures
        post_of_result(r) == Err::<PostView, ErrorView>(
            ErrorView::MalformattedResponse(field.spec_path()),
        ),
        post_of(envelope_of(r)) == post_of_result(r),
{
    lemma_first_missing_is_least(r);
}

/// No two mandatory fields share a path, and none has the path under which a
/// missing payload or a post without fields is reported.
pub proof fn lemma_paths_differ(a: PostField, b: PostField)
    ensures
        a != b ==> a.spec_path() != b.spec_path(),
        a.spec_path() != "data"@,
        a.spec_path() != "post"@,
{
    reveal_strlit("data");
    reveal_strlit("post");
    reveal_strlit("post.contents");
    reveal_strlit("post.author");
    reveal_strlit("post.id");
    reveal_strlit("post.title");
    reveal_strlit("post.posted_at");
    reveal_strlit("post.slug");
    reveal_strlit("post.base_score");
    reveal_strlit("post.word_count");
    reveal_strlit("post.contents.markdown");
    reveal_strlit("post.html_body");
    assert("data"@.len() == 4 && "post"@.len() == 4);
    assert(a.spec_path().len() >= 7);
    if a != b && a.spec_path().len() == b.spec_path().len() {
        assert(a.spec_path()[5] != b.spec_path()[5]);
    }
}

/// A post with an explicit author has that author. A post without one has the
/// display name of its user. A post with neither is refused, and where its
/// contents are there the error names the author.
pub proof fn lemma_post_author(r: PostResult)
    ensures
        r.author is Some && post_of_result(r) is Ok ==> post_of_result(r)->Ok_0.author
            == r.author->0@,
        r.author is None && display_name(r.user) is Some && post_of_result(r) is Ok
            ==> post_of_result(r)->Ok_0.author == display_name(r.user)->0,
        r.author is None && display_name(r.user) is None ==> post_of_result(r) is Err,
        r.author is None && display_name(r.user) is None && r.contents is Some ==> post_of_result(r)
            == Err::<PostView, ErrorView>(ErrorView::MalformattedResponse("post.author"@)),
{
}

/// A post is handed out exactly when it lacks no mandatory field, and then
/// every field of it is the one that came, the page address included.
pub proof fn lemma_post_is_complete(r: PostResult)
    ensures
        post_of_result(r) is Ok <==> forall|field: PostField| !(#[trigger] field.missing_in(r)),
        post_of_result(r) is Ok ==> post_of_result(r)->Ok_0 == strict_post(r),
{
    lemma_first_missing_is_least(r);
}

/// Only a payload without a post is reported as a post that does not exist.
pub proof fn lemma_not_found(response: PostResponse)
    ensures
        post_of(response) == Err::<PostView, ErrorView>(ErrorView::NotFound) <==> {
            &&& response.data is Some
            &&& response.data->0.post is None
        },
{
    if response.data is Some && response.data->0.post is Some {
        let lookup = response.data->0.post->0;
        if lookup.result is Some {
            lemma_first_missing_is_least(lookup.result->0);
        }
    }
}

fn missing(field: PostField) -> (e: Error)
    ensures
        e@ == ErrorView::MalformattedResponse(field.spec_path()),
{
    Error::MalformattedResponse(field.path())
}

impl Post {
    /// Turns the fields of a post into a strict post, or names the first
    /// field that is lacking.
    pub fn from_result(r: PostResult) -> (res: Result<Post, Error>)
        ensures
            view_result(res) == post_of_result(r),
    {
        let PostResult {
            id,
            title,
            author,
            user,
            posted_at,
            slug,
            page_url,
            base_score,
            word_count,
            contents,
            html_body,
        } = r;
        let Contents { markdown } = match contents {
            Some(c) => c,
            None => return Err(missing(PostField::Contents)),
        };
        let author = match resolve_author(author, user) {
            Some(a) => a,
            None => return Err(missing(PostField::Author)),
        };
        let id = match id {
            Some(v) => v,
            None => return Err(missing(PostField::Id)),
        };
        let title = match title {
            Some(v) => v,
            None => return Err(missing(PostField::Title)),
        };
        let date = match posted_at {
            Some(v) => v,
            None => return Err(missing(PostField::PostedAt)),
        };
        let slug = match slug {
            Some(v) => v,
            None => return Err(missing(PostField::Slug)),
        };
        let base_score = match base_score {
            Some(v) => v,
            None => return Err(missing(PostField::BaseScore)),
        };
        let word_count = match word_count {
            Some(v) => v,
            None => return Err(missing(PostField::WordCount)),
        };
        let content_markdown = match markdown {
            Some(v) => v,
            None => return Err(missing(PostField::Markdown)),
        };
        let content_html = match html_body {
            Some(v) => v,
            None => return Err(missing(PostField::HtmlBody)),
        };
        Ok(
            Post {
                id,
                title,
                author,
                date,
                content_html,
                content_markdown,
                slug,
                page_url,
                base_score,
                word_count,
            },
        )
    }

    /// Turns the envelope of the post query into a strict post, or says what
    /// stood in the way.
    pub fn from_response(response: PostResponse) -> (res: Result<Post, Error>)
        ensures
            view_result(res) == post_of(response),
    {
        let data = match response.data {
            Some(d) => d,
            None => return Err(Error::MalformattedResponse("data")),
        };
        let lookup = match data.post {
            Some(p) => p,
            None => return Err(Error::NotFound),
        };
        match lookup.result {
            Some(r) => Post::from_result(r),
            None => Err(Error::MalformattedResponse("post")),
        }
    }
}

} // verus!

//! From the envelope of the comments query to the comments that can be shown.

use vstd::prelude::*;
use crate::author::{anonymous, author_or_anonymous, display_name, resolve_author_or_anonymous};
use crate::comment_map::CommentMap;
use crate::error::{view_result, Error, ErrorView};
use crate::model::{text_of, Comment, CommentView};
use crate::response::{CommentResult, CommentsResponse, Contents};

verus! {

/// The fields without which a comment that can be shown is not handed out, in
/// the order in which they are looked for. An error names such a field by the
/// path of the list and the name of the field; it does not say which comment
/// of the list lacks it.
#[derive(Debug, Clone, Copy, PartialEq, Eq, Structural)]
pub enum CommentField {
    PageUrl,
    Markdown,
    Id,
    PostedAt,
    BaseScore,
    VoteCount,
    HtmlBody,
}

impl CommentField {
    /// The place of the field in the order in which the fields are looked for.
    pub open spec fn rank(self) -> nat {
        match self {
            CommentField::PageUrl => 0,
            CommentField::Markdown => 1,
            CommentField::Id => 2,
            CommentField::PostedAt => 3,
            CommentField::BaseScore => 4,
            CommentField::VoteCount => 5,
            CommentField::HtmlBody => 6,
        }
    }

    /// The dotted path by which an error names the field.
    pub open spec fn spec_path(self) -> Seq<char> {
        match self {
            CommentField::PageUrl => "comments.results.page_url"@,
            CommentField::Markdown => "comments.results.contents.markdown"@,
            CommentField::Id => "comments.results.id"@,
            CommentField::PostedAt => "comments.results.posted_at"@,
            CommentField::BaseScore => "comments.results.base_score"@,
            CommentField::VoteCount => "comments.results.vote_count"@,
            CommentField::HtmlBody => "comments.results.html_body"@,
        }
    }

    /// Whether the comment `c` lacks the field. The markdown source is lacking
    /// when the contents are, or when they hold none.
    pub open spec fn missing_in(self, c: CommentResult) -> bool {
        match self {
            CommentField::PageUrl => c.page_url is None,
            CommentField::Markdown => c.contents is None || c.contents->0.markdown is None,
            CommentField::Id => c.id is None,
            CommentField::PostedAt => c.posted_at is None,
            CommentField::BaseScore => c.base_score is None,
            CommentField::VoteCount => c.vote_count is None,
            CommentField::HtmlBody => c.html_body is None,
        }
    }

    /// The dotted path by which an error names the field.
    pub fn path(self) -> (p: &'static str)
        ensures
            p@ == self.spec_path(),
    {
        match self {
            CommentField::PageUrl => "comments.results.page_url",
            CommentField::Markdown => "comments.results.contents.markdown",
            CommentField::Id => "comments.results.id",
            CommentField::PostedAt => "comments.results.posted_at",
            CommentField::BaseScore => "comments.results.base_score",
            CommentField::VoteCount => "comments.results.vote_count",
            CommentField::HtmlBody => "comments.results.html_body",
        }
    }
}

/// Whether a comment can be shown: it is not marked as deleted (a comment
/// without the mark counts as not deleted) and its rendered body is there and
/// not empty.
pub open spec fn displayable(c: CommentResult) -> bool {
    &&& c.deleted != Some(true)
    &&& c.html_body is Some
    &&& c.html_body->0@.len() > 0
}

/// The field that `c` lacks and that is looked for first, if `c` lacks any.
pub open spec fn first_missing(c: CommentResult) -> Option<CommentField> {
    if CommentField::PageUrl.missing_in(c) {
        Some(CommentField::PageUrl)
    } else if CommentField::Markdown.missing_in(c) {
        Some(CommentField::Markdown)
    } else if CommentField::Id.missing_in(c) {
        Some(CommentField::Id)
    } else if CommentField::PostedAt.missing_in(c) {
        Some(CommentField::PostedAt)
    } else if CommentField::BaseScore.missing_in(c) {
        Some(CommentField::BaseScore)
    } else if CommentField::VoteCount.missing_in(c) {
        Some(CommentField::VoteCount)
    } else if CommentField::HtmlBody.missing_in(c) {
        Some(CommentField::HtmlBody)
    } else {
        None
    }
}

/// The comment that `c` holds when it lacks no field. A comment without any
/// author goes under "anonymous".
pub open spec fn strict_comment(c: CommentResult) -> CommentView {
    CommentView {
        id: c.id->0@,
        parent_comment_id: text_of(c.parent_comment_id),
        author: author_or_anonymous(c.author, c.user),
        posted_at: c.posted_at->0,
        page_url: c.page_url->0@,
        base_score: c.base_score->0,
        vote_count: c.vote_count->0,
        content_html: c.html_body->0@,
        content_markdown: c.contents->0.markdown->0@,
    }
}

/// What the fields of a comment become: the strict comment, or the error that
/// names the first field that is lacking.
pub open spec fn comment_of(c: CommentResult) -> Result<CommentView, ErrorView> {
    match first_missing(c) {
        Some(field) => Err(ErrorView::MalformattedResponse(field.spec_path())),
        None => Ok(strict_comment(c)),
    }
}

/// What a list of slots becomes. An empty slot and a comment that cannot be
/// shown are passed over. Each other comment is entered under its identifier,
/// in the order of the list, so that of two comments with one identifier the
/// later one stays. The first comment that can be shown and lacks a field
/// fails the whole list, with the error that names the field.
pub open spec fn collect(slots: Seq<Option<CommentResult>>) -> Result<
    Map<Seq<char>, CommentView>,
    ErrorView,
>
    decreases slots.len(),
{
    if slots.len() == 0 {
        Ok(Map::empty())
    } else {
        match collect(slots.drop_last()) {
            Err(e) => Err(e),
            Ok(m) => match slots.last() {
                None => Ok(m),
                Some(c) => if !displayable(c) {
                    Ok(m)
                } else {
                    match comment_of(c) {
                        Err(e) => Err(e),
                        Ok(comment) => Ok(m.insert(comment.id, comment)),
                    }
                },
            },
        }
    }
}

/// What the envelope of the comments query becomes. An envelope without a
/// payload, a payload without the comments container and a container without
/// the list are malformed.
pub open spec fn comments_of(response: CommentsResponse) -> Result<
    Map<Seq<char>, CommentView>,
    ErrorView,
> {
    if response.data is None {
        Err(ErrorView::MalformattedResponse("data"@))
    } else if response.data->0.comments is None {
        Err(ErrorView::MalformattedResponse("comments"@))
    } else if response.data->0.comments->0.results is None {
        Err(ErrorView::MalformattedResponse("comments.results"@))
    } else {
        collect(response.data->0.comments->0.results->0@)
    }
}

/// An error within a list stays the error of every longer list.
pub proof fn lemma_collect_error_stays(slots: Seq<Option<CommentResult>>, n: int)
    requires
        0 <= n <= slots.len(),
        collect(slots.take(n)) is Err,
    ensures
        collect(slots) == collect(slots.take(n)),
    decreases slots.len() - n,
{
    if n < slots.len() {
        assert(slots.take(n + 1).drop_last() =~= slots.take(n));
        lemma_collect_error_stays(slots, n + 1);
    } else {
        assert(slots.take(n) =~= slots);
    }
}

/// The field that an error names is lacking, and no field that is looked for
/// before it is; where no field is named, none is lacking.
pub proof fn lemma_first_missing_is_least(c: CommentResult)
    ensures
        match first_missing(c) {
            Some(field) => field.missing_in(c) && forall|other: CommentField| #[trigger]
                other.missing_in(c) ==> field.rank() <= other.rank(),
            None => forall|other: CommentField| !(#[trigger] other.missing_in(c)),
        },
{
}

/// A comment is never refused for want of an author. With an explicit author
/// it has that author; without one it has the display name of its user; with
/// neither it is anonymous.
pub proof fn lemma_comment_author(c: CommentResult)
    ensures
        comment_of(c) is Ok <==> forall|field: CommentField| !(#[trigger] field.missing_in(c)),
        comment_of(c) is Ok && c.author is Some ==> comment_of(c)->Ok_0.author == c.author->0@,
        comment_of(c) is Ok && c.author is None && display_name(c.user) is Some ==> comment_of(
            c,
        )->Ok_0.author == display_name(c.user)->0,
        comment_of(c) is Ok && c.author is None && display_name(c.user) is None ==> comment_of(
            c,
        )->Ok_0.author == anonymous(),
{
    lemma_first_missing_is_least(c);
}

/// Whether slot `i` of `slots` holds a comment that can be shown.
pub open spec fn shown(slots: Seq<Option<CommentResult>>, i: int) -> bool {
    &&& 0 <= i < slots.len()
    &&& slots[i] is Some
    &&& displayable(slots[i]->0)
}

/// Whether slot `i` of `slots` holds a comment that can be shown and lacks a
/// mandatory field.
pub open spec fn fails(slots: Seq<Option<CommentResult>>, i: int) -> bool {
    shown(slots, i) && comment_of(slots[i]->0) is Err
}

/// Whether slot `i` of `slots` holds a comment that can be shown and that
/// becomes the comment `v` with the identifier `k`.
pub open spec fn source_of(
    slots: Seq<Option<CommentResult>>,
    i: int,
    k: Seq<char>,
    v: CommentView,
) -> bool {
    &&& shown(slots, i)
    &&& comment_of(slots[i]->0) == Ok::<CommentView, ErrorView>(v)
    &&& v.id == k
}

/// A slot that is empty, or whose comment cannot be shown, leaves no trace:
/// the outcome is that of the list without the slot.
pub proof fn lemma_passed_over_leaves_no_trace(slots: Seq<Option<CommentResult>>, i: int)
    requires
        0 <= i < slots.len(),
        !shown(slots, i),
    ensures
        collect(slots) == collect(slots.remove(i)),
    decreases slots.len(),
{
    if i == slots.len() - 1 {
        assert(slots.remove(i) =~= slots.drop_last());
    } else {
        let front = slots.drop_last();
        assert(!shown(front, i));
        lemma_passed_over_leaves_no_trace(front, i);
        assert(slots.remove(i).drop_last() =~= front.remove(i));
        assert(slots.remove(i).last() == slots.last());
    }
}

/// Every comment that is handed out stems from a slot whose comment can be
/// shown, stands under its own identifier and has a rendered body that is
/// not empty.
pub proof fn lemma_collected_are_shown(slots: Seq<Option<CommentResult>>)
    requires
        collect(slots) is Ok,
    ensures
        forall|k: Seq<char>| #[trigger]
            collect(slots)->Ok_0.contains_key(k) ==> {
                &&& exists|i: int| #[trigger] source_of(slots, i, k, collect(slots)->Ok_0[k])
                &&& collect(slots)->Ok_0[k].id == k
                &&& collect(slots)->Ok_0[k].content_html.len() > 0
            },
    decreases slots.len(),
{
    if slots.len() > 0 {
        let front = slots.drop_last();
        let last = slots.len() - 1;
        lemma_collected_are_shown(front);
        let m = collect(slots)->Ok_0;
        assert forall|k: Seq<char>| #[trigger] m.contains_key(k) implies {
            &&& exists|i: int| #[trigger] source_of(slots, i, k, m[k])
            &&& m[k].id == k
            &&& m[k].content_html.len() > 0
        } by {
            if shown(slots, last) && comment_of(slots[last]->0)->Ok_0.id == k {
                assert(source_of(slots, last, k, m[k]));
            } else {
                let i = choose|i: int| #[trigger] source_of(front, i, k, collect(front)->Ok_0[k]);
                assert(source_of(slots, i, k, m[k]));
            }
        }
    }
}

/// A comment that cannot be shown stands nowhere in the outcome, unless a
/// comment that can be shown bears the same identifier.
pub proof fn lemma_filtered_comment_is_absent(slots: Seq<Option<CommentResult>>, i: int)
    requires
        0 <= i < slots.len(),
        slots[i] is Some,
        !displayable(slots[i]->0),
        slots[i]->0.id is Some,
        forall|j: int| #[trigger]
            shown(slots, j) ==> text_of(slots[j]->0.id) != text_of(slots[i]->0.id),
    ensures
        collect(slots) is Ok ==> !collect(slots)->Ok_0.contains_key(slots[i]->0.id->0@),
{
    if collect(slots) is Ok {
        lemma_collected_are_shown(slots);
        let m = collect(slots)->Ok_0;
        let k = slots[i]->0.id->0@;
        if m.contains_key(k) {
            let j = choose|j: int| #[trigger] source_of(slots, j, k, m[k]);
            assert(shown(slots, j));
        }
    }
}

/// The list is collected exactly when no comment that can be shown lacks a
/// mandatory field. Else the error is that of the first such comment.
pub proof fn lemma_first_failure_decides(slots: Seq<Option<CommentResult>>)
    ensures
        collect(slots) is Ok <==> forall|i: int| !(#[trigger] fails(slots, i)),
        forall|i: int|
            (#[trigger] fails(slots, i)) && (forall|j: int| 0 <= j < i ==> !(#[trigger] fails(
                slots,
                j,
            ))) ==> collect(slots) == Err::<Map<Seq<char>, CommentView>, ErrorView>(
                comment_of(slots[i]->0)->Err_0,
            ),
    decreases slots.len(),
{
    if slots.len() > 0 {
        let front = slots.drop_last();
        let last = slots.len() - 1;
        lemma_first_failure_decides(front);
        assert forall|i: int| #[trigger] fails(front, i) implies fails(slots, i) by {}
        assert forall|i: int| 0 <= i < last && #[trigger] fails(slots, i) implies fails(
            front,
            i,
        ) by {}
        if collect(front) is Ok {
            if fails(slots, last) {
            } else {
                assert forall|i: int| !(#[trigger] fails(slots, i)) by {
                    if 0 <= i < last {
                        assert(!fails(front, i));
                    }
                }
            }
        } else {
            let w = choose|w: int| #[trigger] fails(front, w);
            assert(fails(slots, w));
        }
        assert forall|i: int|
            (#[trigger] fails(slots, i)) && (forall|j: int| 0 <= j < i ==> !(#[trigger] fails(
                slots,
                j,
            ))) implies collect(slots) == Err::<Map<Seq<char>, CommentView>, ErrorView>(
            comment_of(slots[i]->0)->Err_0,
        ) by {
            if i < last {
                assert(fails(front, i));
                assert forall|j: int| 0 <= j < i implies !(#[trigger] fails(front, j)) by {
                    assert(!fails(slots, j));
                }
            } else {
                assert forall|j: int| !(#[trigger] fails(front, j)) by {
                    if 0 <= j < last {
                        assert(!fails(slots, j));
                    }
                }
            }
        }
    }
}

/// Where the list is collected, a comment that can be shown stands in the
/// outcome under its identifier, unless a later one bears the same
/// identifier: of two such comments the later one stays.
pub proof fn lemma_later_comment_stays(slots: Seq<Option<CommentResult>>, i: int)
    requires
        collect(slots) is Ok,
        shown(slots, i),
        forall|j: int|
            i < j && #[trigger] shown(slots, j) ==> text_of(slots[j]->0.id) != text_of(
                slots[i]->0.id,
            ),
    ensures
        comment_of(slots[i]->0) is Ok,
        collect(slots)->Ok_0.contains_key(slots[i]->0.id->0@),
        collect(slots)->Ok_0[slots[i]->0.id->0@] == comment_of(slots[i]->0)->Ok_0,
    decreases slots.len(),
{
    let front = slots.drop_last();
    let last = slots.len() - 1;
    if i < last {
        assert(shown(front, i));
        assert forall|j: int| i < j && #[trigger] shown(front, j) implies text_of(front[j]->0.id)
            != text_of(front[i]->0.id) by {
            assert(shown(slots, j));
        }
        lemma_later_comment_stays(front, i);
        if shown(slots, last) {
            assert(text_of(slots[last]->0.id) != text_of(slots[i]->0.id));
        }
    }
}

fn missing(field: CommentField) -> (e: Error)
    ensures
        e@ == ErrorView::MalformattedResponse(field.spec_path()),
{
    Error::MalformattedResponse(field.path())
}

/// Whether a comment can be shown.
pub fn is_displayable(c: &CommentResult) -> (b: bool)
    ensures
        b == displayable(*c),
{
    let deleted = match c.deleted {
        Some(d) => d,
        None => false,
    };
    let has_body = match &c.html_body {
        Some(body) => !body.as_str().is_empty(),
        None => false,
    };
    !deleted && has_body
}

impl Comment {
    /// Turns the fields of a comment into a strict comment, or names the
    /// first field that is lacking.
    pub fn from_result(c: CommentResult) -> (res: Result<Comment, Error>)
        ensures
            view_result(res) == comment_of(c),
    {
        let CommentResult {
            id,
            parent_comment_id,
            author,
            user,
            posted_at,
            page_url,
            base_score,
            vote_count,
            html_body,
            contents,
            deleted: _,
        } = c;
        let page_url = match page_url {
            Some(v) => v,
            None => return Err(missing(CommentField::PageUrl)),
        };
        let content_markdown = match contents {
            Some(Contents { markdown: Some(v) }) => v,
            _ => return Err(missing(CommentField::Markdown)),
        };
        let id = match id {
            Some(v) => v,
            None => return Err(missing(CommentField::Id)),
        };
        let posted_at = match posted_at {
            Some(v) => v,
            None => return Err(missing(CommentField::PostedAt)),
        };
        let base_score = match base_score {
            Some(v) => v,
            None => return Err(missing(CommentField::BaseScore)),
        };
        let vote_count = match vote_count {
            Some(v) => v,
            None => return Err(missing(CommentField::VoteCount)),
        };
        let content_html = match html_body {
            Some(v) => v,
            None => return Err(missing(CommentField::HtmlBody)),
        };
        let author = resolve_author_or_anonymous(author, user);
        Ok(
            Comment {
                id,
                parent_comment_id,
                author,
                posted_at,
                page_url,
                base_score,
                vote_count,
                content_html,
                content_markdown,
            },
        )
    }
}

impl CommentMap {
    /// Collects the comments of a list of slots that can be shown.
    ///
    /// A comment that can be shown and lacks a mandatory field is not passed
    /// over: it fails the whole list with an error that names the field, and
    /// the caller decides what to do about it.
    pub fn from_results(results: Vec<Option<CommentResult>>) -> (res: Result<CommentMap, Error>)
        ensures
            view_result(res) == collect(results@),
    {
        let mut map = CommentMap::new();
        let ghost slots = results@;
        for slot in it: results
            invariant
                it.seq() == slots,
                collect(slots.take(it.index() as int)) == Ok::<
                    Map<Seq<char>, CommentView>,
                    ErrorView,
                >(map@),
        {
            proof {
                assert(slots.take(it.index() + 1).drop_last() =~= slots.take(it.index() as int));
            }
            match slot {
                None => {},
                Some(c) => {
                    if is_displayable(&c) {
                        match Comment::from_result(c) {
                            Ok(comment) => {
                                map.insert(comment);
                            },
                            Err(e) => {
                                proof {
                                    lemma_collect_error_stays(slots, it.index() + 1);
                                }
                                return Err(e);
                            },
                        }
                    }
                },
            }
        }
        proof {
            assert(slots.take(slots.len() as int) =~= slots);
        }
        Ok(map)
    }

    /// Turns the envelope of the comments query into the comments that can be
    /// shown, or says what stood in the way.
    pub fn from_response(response: CommentsResponse) -> (res: Result<CommentMap, Error>)
        ensures
            view_result(res) == comments_of(response),
    {
        let data = match response.data {
            Some(d) => d,
            None => return Err(Error::MalformattedResponse("data")),
        };
        let lookup = match data.comments {
            Some(c) => c,
            None => return Err(Error::MalformattedResponse("comments")),
        };
        match lookup.results {
            Some(results) => CommentMap::from_results(results),
            None => Err(Error::MalformattedResponse("comments.results")),
        }
    }
}

} // verus!

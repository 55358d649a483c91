use lesswrong_api::error::Error;
use lesswrong_api::model::{Post, Score, Timestamp};
use lesswrong_api::post::PostField;
use lesswrong_api::response::{
    Contents, PostData, PostLookup, PostResponse, PostResult, UserRef,
};

const ALL_FIELDS: [PostField; 10] = [
    PostField::Contents,
    PostField::Author,
    PostField::Id,
    PostField::Title,
    PostField::PostedAt,
    PostField::Slug,
    PostField::BaseScore,
    PostField::WordCount,
    PostField::Markdown,
    PostField::HtmlBody,
];

fn text(s: &str) -> Option<String> {
    Some(s.to_string())
}

fn score(value: f64) -> Score {
    Score { bits: value.to_bits() }
}

fn recorded_result() -> PostResult {
    PostResult {
        id: text("7ZqGiPHTpiDMwqMN2"),
        title: text("Twelve Virtues of Rationality"),
        author: text("Eliezer Yudkowsky"),
        user: Some(UserRef { display_name: text("Eliezer_Yudkowsky") }),
        posted_at: Some(Timestamp { secs: 1_136_102_405, nanos: 370_000_000 }),
        slug: text("twelve-virtues-of-rationality"),
        page_url: "https://www.lesswrong.com/posts/7ZqGiPHTpiDMwqMN2/twelve-virtues-of-rationality"
            .to_string(),
        base_score: Some(score(412.0)),
        word_count: Some(2228),
        contents: Some(Contents { markdown: Some("m".repeat(12964)) }),
        html_body: Some("h".repeat(14134)),
    }
}

fn envelope(result: PostResult) -> PostResponse {
    PostResponse { data: Some(PostData { post: Some(PostLookup { result: Some(result) }) }) }
}

fn without(field: PostField) -> PostResult {
    let mut r = recorded_result();
    match field {
        PostField::Contents => r.contents = None,
        PostField::Author => {
            r.author = None;
            r.user = None;
        }
        PostField::Id => r.id = None,
        PostField::Title => r.title = None,
        PostField::PostedAt => r.posted_at = None,
        PostField::Slug => r.slug = None,
        PostField::BaseScore => r.base_score = None,
        PostField::WordCount => r.word_count = None,
        PostField::Markdown => r.contents = Some(Contents { markdown: None }),
        PostField::HtmlBody => r.html_body = None,
    }
    r
}

fn malformed(path: &'static str) -> Result<Post, Error> {
    Err(Error::MalformattedResponse(path))
}

#[test]
fn test_get_post() {
    let result = Post::from_response(envelope(recorded_result()));

    let post = result.unwrap();
    assert_eq!(post.id, "7ZqGiPHTpiDMwqMN2");
    assert_eq!(post.title, "Twelve Virtues of Rationality");
    assert_eq!(post.author, "Eliezer Yudkowsky");
    let date = chrono::DateTime::from_timestamp(post.date.secs, post.date.nanos).unwrap();
    assert_eq!(date.to_rfc3339(), "2006-01-01T08:00:05.370+00:00");
    assert_eq!(
        post.page_url,
        "https://www.lesswrong.com/posts/7ZqGiPHTpiDMwqMN2/twelve-virtues-of-rationality"
    );
    assert_eq!(post.slug, "twelve-virtues-of-rationality");
    assert!(f64::from_bits(post.base_score.bits).is_finite());
    assert_eq!(post.word_count, 2228);
    assert_eq!(post.content_html.len(), 14134);
    assert_eq!(post.content_markdown.len(), 12964);
    println!("{:#?}", post);
}

#[test]
fn test_fail_get_not_found_post() {
    let result = Post::from_response(PostResponse { data: Some(PostData { post: None }) });
    let err = result.unwrap_err();
    match err {
        Error::NotFound => (),
        other => panic!("Expected NotFound error, got {:?}", other),
    }
}

#[test]
fn post_keeps_every_field_as_it_came() {
    let post = Post::from_result(recorded_result()).unwrap();
    let expected = Post {
        id: "7ZqGiPHTpiDMwqMN2".to_string(),
        title: "Twelve Virtues of Rationality".to_string(),
        author: "Eliezer Yudkowsky".to_string(),
        date: Timestamp { secs: 1_136_102_405, nanos: 370_000_000 },
        content_html: "h".repeat(14134),
        content_markdown: "m".repeat(12964),
        slug: "twelve-virtues-of-rationality".to_string(),
        page_url: "https://www.lesswrong.com/posts/7ZqGiPHTpiDMwqMN2/twelve-virtues-of-rationality"
            .to_string(),
        base_score: Score { bits: 412.0f64.to_bits() },
        word_count: 2228,
    };
    assert_eq!(post, expected);
    assert_eq!(f64::from_bits(post.base_score.bits), 412.0);
}

#[test]
fn envelope_without_payload_names_data() {
    assert_eq!(Post::from_response(PostResponse { data: None }), malformed("data"));
}

#[test]
fn lookup_without_result_names_post() {
    let response =
        PostResponse { data: Some(PostData { post: Some(PostLookup { result: None }) }) };
    assert_eq!(Post::from_response(response), malformed("post"));
}

#[test]
fn each_missing_field_is_named_by_its_path() {
    let expected = [
        "post.contents",
        "post.author",
        "post.id",
        "post.title",
        "post.posted_at",
        "post.slug",
        "post.base_score",
        "post.word_count",
        "post.contents.markdown",
        "post.html_body",
    ];
    for (field, path) in ALL_FIELDS.iter().zip(expected.iter()) {
        assert_eq!(field.path(), *path);
        assert_eq!(Post::from_result(without(*field)), malformed(path));
        assert_eq!(Post::from_response(envelope(without(*field))), malformed(path));
    }
}

#[test]
fn paths_of_fields_differ() {
    for a in ALL_FIELDS.iter() {
        assert_ne!(a.path(), "data");
        assert_ne!(a.path(), "post");
        for b in ALL_FIELDS.iter() {
            if a != b {
                assert_ne!(a.path(), b.path());
            }
        }
    }
}

#[test]
fn the_field_looked_for_first_is_named() {
    // Every later field is lacking as well: the earlier one is reported.
    for (i, first) in ALL_FIELDS.iter().enumerate() {
        let mut r = without(*first);
        for later in ALL_FIELDS[i + 1..].iter() {
            match later {
                PostField::Contents => r.contents = None,
                PostField::Author => {
                    r.author = None;
                    r.user = None;
                }
                PostField::Id => r.id = None,
                PostField::Title => r.title = None,
                PostField::PostedAt => r.posted_at = None,
                PostField::Slug => r.slug = None,
                PostField::BaseScore => r.base_score = None,
                PostField::WordCount => r.word_count = None,
                PostField::Markdown => {
                    if r.contents.is_some() {
                        r.contents = Some(Contents { markdown: None });
                    }
                }
                PostField::HtmlBody => r.html_body = None,
            }
        }
        assert_eq!(Post::from_result(r), malformed(first.path()));
    }
}

#[test]
fn author_is_reported_before_identifier() {
    let mut r = recorded_result();
    r.author = None;
    r.user = None;
    r.id = None;
    assert_eq!(Post::from_result(r), malformed("post.author"));
}

#[test]
fn contents_are_reported_before_author() {
    let mut r = recorded_result();
    r.author = None;
    r.user = None;
    r.contents = None;
    assert_eq!(Post::from_result(r), malformed("post.contents"));
}

#[test]
fn explicit_author_wins_over_display_name() {
    let post = Post::from_result(recorded_result()).unwrap();
    assert_eq!(post.author, "Eliezer Yudkowsky");
}

#[test]
fn display_name_stands_in_for_missing_author() {
    let mut r = recorded_result();
    r.author = None;
    let post = Post::from_result(r).unwrap();
    assert_eq!(post.author, "Eliezer_Yudkowsky");
}

#[test]
fn post_without_author_and_display_name_is_refused() {
    let mut r = recorded_result();
    r.author = None;
    r.user = Some(UserRef { display_name: None });
    assert_eq!(Post::from_result(r), malformed("post.author"));

    let mut r = recorded_result();
    r.author = None;
    r.user = None;
    assert_eq!(Post::from_result(r), malformed("post.author"));
}

#[test]
fn post_without_user_keeps_explicit_author() {
    let mut r = recorded_result();
    r.user = None;
    assert_eq!(Post::from_result(r).unwrap().author, "Eliezer Yudkowsky");
}

#[test]
fn page_address_is_not_asked_for() {
    let mut r = recorded_result();
    r.page_url = String::new();
    let post = Post::from_result(r).unwrap();
    assert_eq!(post.page_url, "");
}

#[test]
fn same_envelope_gives_same_post() {
    let first = Post::from_response(envelope(recorded_result()));
    let second = Post::from_response(envelope(recorded_result()));
    assert!(first.is_ok());
    assert_eq!(first, second);

    let first = Post::from_response(envelope(without(PostField::Slug)));
    let second = Post::from_response(envelope(without(PostField::Slug)));
    assert_eq!(first, second);
}

#[test]
fn empty_texts_are_present_texts() {
    let mut r = recorded_result();
    r.title = text("");
    r.html_body = text("");
    r.contents = Some(Contents { markdown: text("") });
    let post = Post::from_result(r).unwrap();
    assert_eq!(post.title, "");
    assert_eq!(post.content_html, "");
    assert_eq!(post.content_markdown, "");
}

#[test]
fn default_post_is_empty() {
    let post = Post::default();
    assert_eq!(post.id, "");
    assert_eq!(post.title, "");
    assert_eq!(post.author, "");
    assert_eq!(post.date, Timestamp { secs: 0, nanos: 0 });
    assert_eq!(post.content_html, "");
    assert_eq!(post.content_markdown, "");
    assert_eq!(post.slug, "");
    assert_eq!(post.page_url, "");
    assert_eq!(f64::from_bits(post.base_score.bits), 0.0);
    assert_eq!(post.word_count, 0);
    assert_eq!(Timestamp::default(), Timestamp { secs: 0, nanos: 0 });
    assert_eq!(Score::default(), Score { bits: 0 });
}

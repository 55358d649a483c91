use lesswrong_api::error::Error;
use lesswrong_api::request::{endpoint, CommentsTerms, CommentsVariables, PostVariables};
use lesswrong_api::transport::{server_error, status_is_success};

#[test]
fn success_is_two_hundred_to_two_hundred_ninety_nine() {
    assert!(!status_is_success(0));
    assert!(!status_is_success(100));
    assert!(!status_is_success(199));
    assert!(status_is_success(200));
    assert!(status_is_success(204));
    assert!(status_is_success(299));
    assert!(!status_is_success(300));
    assert!(!status_is_success(404));
    assert!(!status_is_success(500));
    assert!(!status_is_success(u16::MAX));
}

#[test]
fn success_agrees_with_the_http_status_type() {
    for code in 100u16..1000 {
        let status = reqwest::StatusCode::from_u16(code).unwrap();
        assert_eq!(status_is_success(status.as_u16()), status.is_success());
    }
}

#[test]
fn refusal_carries_status_and_text() {
    assert_eq!(
        server_error(503, Some("try later".to_string())),
        Error::ServerError(503, "try later".to_string())
    );
    assert_eq!(server_error(404, Some(String::new())), Error::ServerError(404, String::new()));
}

#[test]
fn refusal_with_unreadable_body_carries_the_stand_in() {
    assert_eq!(
        server_error(500, None),
        Error::ServerError(500, "Error reading response text".to_string())
    );
}

#[test]
fn errors_of_different_kinds_differ() {
    let kinds = [
        Error::Reqwest("connection refused".to_string()),
        Error::ServerError(500, "connection refused".to_string()),
        Error::NotFound,
        Error::MalformattedResponse("data"),
    ];
    for (i, a) in kinds.iter().enumerate() {
        for (j, b) in kinds.iter().enumerate() {
            assert_eq!(a == b, i == j);
        }
    }
}

#[test]
fn queries_go_to_the_graphql_endpoint() {
    assert_eq!(endpoint(), "https://www.lesswrong.com/graphql");
}

#[test]
fn post_query_asks_for_the_identifier() {
    assert_eq!(
        PostVariables::new("7ZqGiPHTpiDMwqMN2"),
        PostVariables { id: "7ZqGiPHTpiDMwqMN2".to_string() }
    );
}

#[test]
fn comments_query_asks_for_the_top_comments() {
    assert_eq!(
        CommentsVariables::new("7ZqGiPHTpiDMwqMN2", 9999),
        CommentsVariables {
            terms: Some(CommentsTerms {
                view: "postCommentsTop".to_string(),
                post_id: "7ZqGiPHTpiDMwqMN2".to_string(),
                limit: 9999,
            }),
        }
    );
    let negative = CommentsVariables::new("", -1);
    assert_eq!(negative.terms.unwrap().limit, -1);
}

use lesswrong_api::comment_map::CommentMap;
use lesswrong_api::model::Comment;

fn comment(id: &str, body: &str) -> Comment {
    Comment { id: id.to_string(), content_html: body.to_string(), ..Comment::default() }
}

#[test]
fn new_map_is_empty() {
    let map = CommentMap::new();
    assert!(map.is_empty());
    assert_eq!(map.len(), 0);
    assert!(map.values().is_empty());
    assert!(!map.contains_key("a"));
    assert!(map.get("a").is_none());
}

#[test]
fn insert_adds_a_new_identifier() {
    let mut map = CommentMap::new();
    map.insert(comment("a", "1"));
    assert!(!map.is_empty());
    assert_eq!(map.len(), 1);
    map.insert(comment("b", "2"));
    assert_eq!(map.len(), 2);
    assert!(map.contains_key("a"));
    assert!(map.contains_key("b"));
    assert!(!map.contains_key("c"));
    assert_eq!(map.get("a"), Some(&comment("a", "1")));
    assert_eq!(map.get("b"), Some(&comment("b", "2")));
    assert_eq!(map.get("c"), None);
}

#[test]
fn insert_replaces_a_known_identifier() {
    let mut map = CommentMap::new();
    map.insert(comment("a", "1"));
    map.insert(comment("b", "2"));
    map.insert(comment("a", "3"));
    assert_eq!(map.len(), 2);
    assert_eq!(map.get("a"), Some(&comment("a", "3")));
    assert_eq!(map.get("b"), Some(&comment("b", "2")));
}

#[test]
fn identifiers_are_compared_as_a_whole() {
    let mut map = CommentMap::new();
    map.insert(comment("ab", "1"));
    map.insert(comment("a", "2"));
    map.insert(comment("", "3"));
    assert_eq!(map.len(), 3);
    assert_eq!(map.get("a").unwrap().content_html, "2");
    assert_eq!(map.get("ab").unwrap().content_html, "1");
    assert_eq!(map.get("").unwrap().content_html, "3");
    assert!(!map.contains_key("abc"));
}

#[test]
fn values_hold_each_comment_once() {
    let mut map = CommentMap::new();
    for (id, body) in [("a", "1"), ("b", "2"), ("a", "3"), ("c", "4"), ("b", "5")] {
        map.insert(comment(id, body));
    }
    let mut seen: Vec<(String, String)> =
        map.values().iter().map(|c| (c.id.clone(), c.content_html.clone())).collect();
    seen.sort();
    let expected: Vec<(String, String)> = [("a", "3"), ("b", "5"), ("c", "4")]
        .iter()
        .map(|(id, body)| (id.to_string(), body.to_string()))
        .collect();
    assert_eq!(seen, expected);
    assert_eq!(map.len(), 3);

    let mut given: Vec<String> = map.into_values().into_iter().map(|c| c.id).collect();
    given.sort();
    assert_eq!(given, vec!["a".to_string(), "b".to_string(), "c".to_string()]);
}

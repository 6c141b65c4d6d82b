use orsta::token::{extract_bearer_or_cookie, extract_token, find_pair_value, strip_prefix};

#[test]
fn token_from_cookie_pair() {
    let t = extract_token(Some("theme=dark;  orsta_session=abc.def ; lang=en"), None);
    assert_eq!(t, Some("abc.def".to_string()));
}

#[test]
fn cookie_wins_over_bearer_in_requests() {
    let t = extract_token(Some("orsta_session=c1"), Some("Bearer b1"));
    assert_eq!(t, Some("c1".to_string()));
}

#[test]
fn bearer_used_when_cookie_lacks_session() {
    let t = extract_token(Some("theme=dark"), Some("Bearer b1"));
    assert_eq!(t, Some("b1".to_string()));
    assert_eq!(extract_token(None, Some("Basic xyz")), None);
    assert_eq!(extract_token(None, None), None);
}

#[test]
fn bearer_wins_over_cookie_on_channel() {
    let t = extract_bearer_or_cookie(Some("Bearer b1"), Some("orsta_session=c1"));
    assert_eq!(t, Some("b1".to_string()));
    let t = extract_bearer_or_cookie(Some("Token b1"), Some("orsta_session=c1"));
    assert_eq!(t, Some("c1".to_string()));
}

#[test]
fn pair_lookup_edges() {
    assert_eq!(find_pair_value("", "k="), None);
    assert_eq!(find_pair_value("k=", "k="), Some(String::new()));
    assert_eq!(find_pair_value("a=1;;\tk=2", "k="), Some("2".to_string()));
    assert_eq!(find_pair_value("xk=1", "k="), None);
    assert_eq!(find_pair_value("k=1; k=2", "k="), Some("1".to_string()));
}

#[test]
fn prefix_stripping() {
    assert_eq!(strip_prefix("Bearer tok", "Bearer "), Some("tok".to_string()));
    assert_eq!(strip_prefix("Bearer", "Bearer "), None);
    assert_eq!(strip_prefix("bearer tok", "Bearer "), None);
}

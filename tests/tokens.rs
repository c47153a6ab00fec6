use plim::errors::PlimErrorKind;
use plim::tokens::{GitlabTokens, normalize_name};

#[test]
fn double_underscores_collapse() {
    assert_eq!(normalize_name("A__B"), "A_B");
    assert_eq!(normalize_name("A___B"), "A__B");
    assert_eq!(normalize_name("A____B"), "A__B");
    assert_eq!(normalize_name("__"), "_");
    assert_eq!(normalize_name("_"), "_");
    assert_eq!(normalize_name(""), "");
    assert_eq!(normalize_name("PLAIN_NAME"), "PLAIN_NAME");
}

#[test]
fn lookup_by_normalized_name() {
    let t = GitlabTokens::new(vec![
        ("GITLAB__TOKEN".to_string(), "abc".to_string()),
        ("OTHER".to_string(), "x".to_string()),
    ]);
    match t.get("GITLAB_TOKEN") {
        Ok(v) => assert_eq!(v, "abc"),
        Err(_) => panic!("expected the token"),
    }
    assert!(matches!(t.get("GITLAB__TOKEN"), Err(PlimErrorKind::NotFound(_))));
    assert!(matches!(t.get("MISSING"), Err(PlimErrorKind::NotFound(_))));
}

#[test]
fn later_entry_wins() {
    let t = GitlabTokens::new(vec![
        ("A_B".to_string(), "first".to_string()),
        ("A__B".to_string(), "second".to_string()),
    ]);
    match t.get("A_B") {
        Ok(v) => assert_eq!(v, "second"),
        Err(_) => panic!("expected the token"),
    }
}

use todo_backend::cors::{cors_policy, AllowedHeader, AllowedMethod};

#[test]
fn policy_allows_the_configured_origin_only() {
    let p = cors_policy("http://localhost:3000").ok().unwrap();
    assert_eq!(p.origin(), "http://localhost:3000");
    assert_eq!(p.allow_origin().as_bytes(), "http://localhost:3000".as_bytes());
    let names: Vec<&str> = p.allow_methods().iter().map(|m| m.as_str()).collect();
    assert_eq!(names.join(","), "GET,POST,PATCH,DELETE");
    assert_eq!(p.allow_headers(), &vec![AllowedHeader::ContentType]);
    assert_eq!(AllowedHeader::ContentType.as_str(), "content-type");
    assert_eq!(p.allow_methods()[2], AllowedMethod::Patch);
}

#[test]
fn sent_origin_holds_the_bytes_of_a_non_ascii_origin() {
    let p = cors_policy("http://é.example").ok().unwrap();
    assert_eq!(p.allow_origin().as_bytes(), "http://é.example".as_bytes());
    assert_ne!(p.allow_origin().as_bytes(), "http://evil.example".as_bytes());
}

#[test]
fn origin_with_control_characters_is_refused() {
    assert!(cors_policy("http://a\nb").is_err());
    assert!(cors_policy("http://a\u{7f}").is_err());
    assert!(cors_policy("http://a\tb").is_ok());
    assert!(cors_policy("http://é.example").is_ok());
}

use zzyl_auth::url::{QueryParam, UrlUtils};

fn param(k: &str, v: &str) -> QueryParam {
    QueryParam { key: k.to_string(), value: v.to_string() }
}

#[test]
fn url_parts() {
    let u = "https://example.com:8080/a/b?x=1";
    assert!(UrlUtils::is_valid_url(u));
    assert!(!UrlUtils::is_valid_url("no scheme"));
    assert_eq!(UrlUtils::get_domain(u), Some("example.com".to_string()));
    assert_eq!(UrlUtils::get_path(u), Some("/a/b".to_string()));
    assert_eq!(UrlUtils::get_scheme(u), Some("https".to_string()));
    assert_eq!(UrlUtils::get_domain("mailto:a@b.c"), None);
    assert_eq!(UrlUtils::get_path("bad"), None);
}

#[test]
fn query_strings() {
    assert_eq!(UrlUtils::build_query_string(&[param("a", "1"), param("b", "x y")]), "a=1&b=x y");
    assert_eq!(UrlUtils::build_query_string(&[]), "");
    let ps = UrlUtils::parse_query_string("a=1&b=2=3&c&a=4&=5");
    let pairs: Vec<(String, String)> = ps.into_iter().map(|p| (p.key, p.value)).collect();
    assert_eq!(
        pairs,
        vec![
            ("a".to_string(), "4".to_string()),
            ("b".to_string(), "2=3".to_string()),
            ("".to_string(), "5".to_string()),
        ]
    );
    assert!(UrlUtils::parse_query_string("").is_empty());
}

use zzyl_auth::sql::{DatabaseUtils, LikePattern};

#[test]
fn pagination_sql() {
    assert_eq!(
        DatabaseUtils::build_pagination_sql("SELECT * FROM t", 3, 10, Some("id DESC")),
        "SELECT * FROM t ORDER BY id DESC LIMIT 10 OFFSET 20"
    );
    assert_eq!(DatabaseUtils::build_pagination_sql("Q", 1, 25, None), "Q LIMIT 25 OFFSET 0");
    assert_eq!(DatabaseUtils::build_pagination_sql("Q", 0, 5, None), "Q LIMIT 5 OFFSET -5");
}

#[test]
fn count_sql() {
    assert_eq!(
        DatabaseUtils::build_count_sql("SELECT id FROM t"),
        "SELECT COUNT(*) as total FROM (SELECT id FROM t) as count_table"
    );
}

#[test]
fn where_conditions() {
    assert_eq!(DatabaseUtils::build_where_conditions(&[]), "");
    assert_eq!(DatabaseUtils::build_where_conditions(&["a = 1".to_string()]), " WHERE a = 1");
    assert_eq!(
        DatabaseUtils::build_where_conditions(&["a = 1".to_string(), "b = 2".to_string(), "c".to_string()]),
        " WHERE a = 1 AND b = 2 AND c"
    );
}

#[test]
fn in_condition() {
    assert_eq!(DatabaseUtils::build_in_condition("id", &[]), "");
    assert_eq!(
        DatabaseUtils::build_in_condition("id", &["1".to_string(), "x".to_string()]),
        "id IN ('1','x')"
    );
}

#[test]
fn like_condition() {
    assert_eq!(DatabaseUtils::build_like_condition("n", "ab", LikePattern::Contains), "n LIKE '%ab%'");
    assert_eq!(DatabaseUtils::build_like_condition("n", "ab", LikePattern::StartsWith), "n LIKE 'ab%'");
    assert_eq!(DatabaseUtils::build_like_condition("n", "ab", LikePattern::EndsWith), "n LIKE '%ab'");
}

#[test]
fn range_condition() {
    assert_eq!(DatabaseUtils::build_range_condition("t", Some("1"), Some("9")), "t >= '1' AND t <= '9'");
    assert_eq!(DatabaseUtils::build_range_condition("t", Some("1"), None), "t >= '1'");
    assert_eq!(DatabaseUtils::build_range_condition("t", None, Some("9")), "t <= '9'");
    assert_eq!(DatabaseUtils::build_range_condition("t", None, None), "");
}

#[test]
fn escape_sql() {
    assert_eq!(DatabaseUtils::escape_sql_string("it's"), "it''s");
    assert_eq!(DatabaseUtils::escape_sql_string("a\\b"), "a\\\\b");
    assert_eq!(DatabaseUtils::escape_sql_string("x\0y\nz\r\u{1a}"), "x\\0y\\nz\\r\\Z");
    assert_eq!(DatabaseUtils::escape_sql_string("plain"), "plain");
}

#[test]
fn sql_safety() {
    assert!(DatabaseUtils::is_sql_safe("select name from users"));
    assert!(!DatabaseUtils::is_sql_safe("name; drop table users"));
    assert!(!DatabaseUtils::is_sql_safe("1 union select 2"));
    // the lower case patterns never match the upper case form
    assert!(DatabaseUtils::is_sql_safe("onload"));
}

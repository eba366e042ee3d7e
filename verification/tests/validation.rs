use app_catalog::statement::table_name_from_statement;
use app_catalog::validate::is_valid_email;
use app_catalog::validate::is_valid_username;

#[test]
fn username_length_bounds() {
    assert!(!is_valid_username("ab"));
    assert!(!is_valid_username("abcdefghijklmnopqrstu")); // 21 characters
    assert!(is_valid_username("abc"));
    assert!(is_valid_username("abcdefghijklmnopqrst")); // 20 characters
}

#[test]
fn username_forbidden_characters() {
    assert!(!is_valid_username("user@name"));
    assert!(!is_valid_username("user\\name"));
    assert!(!is_valid_username("user/name"));
    assert!(is_valid_username("user.name"));
    assert!(is_valid_username("user_name-1"));
}

#[test]
fn username_length_counts_bytes() {
    // twenty two-byte characters are forty bytes: too long
    let wide = "\u{e9}".repeat(20);
    assert_eq!(wide.chars().count(), 20);
    assert!(!is_valid_username(&wide));
    // three bytes in two characters is long enough
    let narrow = "a\u{e9}";
    assert_eq!(narrow.len(), 3);
    assert!(is_valid_username(narrow));
}

#[test]
fn email_length_counts_bytes() {
    let local = "\u{e9}".repeat(124);
    let at_cap = format!("{}@b.com", local); // 254 bytes
    assert_eq!(at_cap.len(), 254);
    assert!(is_valid_email(&at_cap));
    let local = "\u{e9}".repeat(125);
    let over_cap = format!("{}@b.com", local); // 256 bytes
    assert!(!is_valid_email(&over_cap));
}

#[test]
fn email_requires_dot_in_domain() {
    assert!(!is_valid_email("a@b"));
    assert!(is_valid_email("a@b.com"));
    assert!(!is_valid_email("a@bcom"));
}

#[test]
fn email_shape() {
    assert!(!is_valid_email("abcd")); // too short, no '@'
    assert!(!is_valid_email("a b@c.com")); // space
    assert!(!is_valid_email("a\\b@c.com")); // backslash
    assert!(!is_valid_email("a/b@c.com")); // slash
    assert!(!is_valid_email("a@b@c.com")); // two '@'
    assert!(!is_valid_email("@b.com")); // empty local part
    assert!(!is_valid_email("a.b@")); // empty domain
    assert!(is_valid_email("first.last@mail.example.org"));
}

#[test]
fn email_length_bounds() {
    let local = "a".repeat(248);
    let long_ok = format!("{}@b.com", local); // 254 characters
    assert_eq!(long_ok.len(), 254);
    assert!(is_valid_email(&long_ok));
    let local = "a".repeat(249);
    let too_long = format!("{}@b.com", local); // 255 characters
    assert!(!is_valid_email(&too_long));
}

#[test]
fn table_name_from_create_table() {
    let statement = "CREATE TABLE IF NOT EXISTS users (
                id UUID PRIMARY KEY DEFAULT gen_random_uuid(),
                username VARCHAR(50) UNIQUE NOT NULL
            )";
    assert_eq!(table_name_from_statement(statement), "users");
}

#[test]
fn table_name_cuts_at_paren() {
    assert_eq!(table_name_from_statement("CREATE TABLE apps(id INT)"), "apps");
}

#[test]
fn table_name_is_case_insensitive_on_keywords() {
    assert_eq!(table_name_from_statement("create table foo"), "foo");
}

#[test]
fn table_name_splits_on_any_whitespace() {
    assert_eq!(table_name_from_statement("CREATE\tTABLE\n  logs\r\n(id INT)"), "logs");
}

#[test]
fn table_name_unknown_when_all_protected() {
    assert_eq!(table_name_from_statement("CREATE TABLE"), "Unknown");
    assert_eq!(table_name_from_statement(""), "Unknown");
    assert_eq!(table_name_from_statement("   "), "Unknown");
}

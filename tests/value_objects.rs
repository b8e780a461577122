use rust_nexus::user::check_email_shape;
use rust_nexus::error::UserError;
use rust_nexus::text::{has_char, trim};
use rust_nexus::user::{Email, UserName};

#[test]
fn name_is_trimmed() {
    let n = UserName::new("  Ann Lee \t".to_string()).unwrap();
    assert_eq!(n.as_str(), "Ann Lee");
}

#[test]
fn name_of_one_hundred_chars_is_accepted() {
    let raw = format!("  {}  ", "x".repeat(100));
    let n = UserName::new(raw).unwrap();
    assert_eq!(n.as_str().chars().count(), 100);
}

#[test]
fn name_limit_counts_characters_not_bytes() {
    let n = UserName::new("é".repeat(100)).unwrap();
    assert_eq!(n.as_str(), "é".repeat(100));
}

#[test]
fn name_of_one_hundred_one_chars_is_refused() {
    let r = UserName::new("y".repeat(101));
    assert_eq!(
        r.unwrap_err(),
        UserError::InvalidName("Name cannot exceed 100 characters".to_string())
    );
}

#[test]
fn blank_name_is_refused() {
    assert_eq!(
        UserName::new("   ".to_string()).unwrap_err(),
        UserError::InvalidName("Name cannot be empty".to_string())
    );
    assert!(matches!(UserName::new(String::new()), Err(UserError::InvalidName(_))));
}

#[test]
fn email_without_at_or_dot_is_refused() {
    assert_eq!(
        Email::new("BAD".to_string()).unwrap_err(),
        UserError::InvalidEmail("Invalid email format".to_string())
    );
    assert!(Email::new("a@bcom".to_string()).is_err());
    assert!(Email::new("ab.com".to_string()).is_err());
}

#[test]
fn empty_email_is_refused() {
    assert_eq!(
        Email::new("  ".to_string()).unwrap_err(),
        UserError::InvalidEmail("Email cannot be empty".to_string())
    );
}

#[test]
fn email_is_trimmed_and_lowercased() {
    let e = Email::new(" A@B.com ".to_string()).unwrap();
    assert_eq!(e.as_str(), "a@b.com");
}

#[test]
fn email_normalization_is_idempotent() {
    for raw in [" Ann@Example.COM ", "x.y@z.org", "\tMIXED.Case@Host.Net\n"] {
        let once = Email::new(raw.to_string()).unwrap();
        let twice = Email::new(once.as_str().to_string()).unwrap();
        assert_eq!(once.as_str(), twice.as_str());
    }
}

#[test]
fn emails_compare_by_normal_form() {
    let a = Email::new("ANN@EXAMPLE.com".to_string()).unwrap();
    let b = Email::new(" ann@example.COM".to_string()).unwrap();
    assert!(a == b);
}

#[test]
fn trim_strips_unicode_whitespace() {
    assert_eq!(trim("\u{3000} a b \n"), "a b");
    assert_eq!(trim("   "), "");
    assert_eq!(trim(""), "");
}

#[test]
fn has_char_finds_characters() {
    assert!(has_char("a@b", '@'));
    assert!(!has_char("ab", '@'));
}

#[test]
fn error_messages_and_status_codes() {
    let e = UserError::InvalidName("Name cannot be empty".to_string());
    assert_eq!(e.message(), "Invalid name: Name cannot be empty");
    assert_eq!(e.status_code(), 400);
    let e = UserError::InvalidEmail("Invalid email format".to_string());
    assert_eq!(e.message(), "Invalid email: Invalid email format");
    assert_eq!(e.status_code(), 400);
    assert_eq!(UserError::NotFound.message(), "User not found");
    assert_eq!(UserError::NotFound.status_code(), 404);
    assert_eq!(UserError::EmailAlreadyExists.message(), "Email already exists");
    assert_eq!(UserError::EmailAlreadyExists.status_code(), 409);
    let e = UserError::StorageError("down".to_string());
    assert_eq!(e.message(), "Storage error: down");
    assert_eq!(e.status_code(), 500);
}

#[test]
fn email_shape_check_names_the_fault() {
    assert_eq!(check_email_shape("a@b.c"), Ok(()));
    assert_eq!(
        check_email_shape(""),
        Err(UserError::InvalidEmail("Email cannot be empty".to_string()))
    );
    assert_eq!(
        check_email_shape("ab.c"),
        Err(UserError::InvalidEmail("Invalid email format".to_string()))
    );
}

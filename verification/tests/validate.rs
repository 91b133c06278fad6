use yumush::error::community::Error as CommunityError;
use yumush::error::message::Error as MessageError;
use yumush::error::user::Error as UserError;
use yumush::validate::{validate_community_name, validate_message_body, validate_username};

#[test]
fn username_tahinli_is_valid() {
    assert_eq!(validate_username("Tahinli"), Ok(()));
    assert_eq!(validate_username("Not Tahinli"), Ok(()));
}

#[test]
fn username_empty_is_too_short() {
    assert_eq!(validate_username(""), Err(UserError::MinimumLength(0)));
}

#[test]
fn username_non_ascii_is_refused() {
    assert_eq!(validate_username("Tahinlı"), Err(UserError::ASCII));
}

#[test]
fn username_too_long_reports_length() {
    let name = "a".repeat(33);
    assert_eq!(validate_username(&name), Err(UserError::MaximumLength(33)));
    assert_eq!(validate_username(&"a".repeat(32)), Ok(()));
}

#[test]
fn community_name_rules() {
    assert_eq!(validate_community_name("The Community"), Ok(()));
    assert_eq!(validate_community_name(""), Err(CommunityError::MinimumLength(0)));
    assert_eq!(validate_community_name("Çay"), Err(CommunityError::ASCII));
    assert_eq!(
        validate_community_name(&"c".repeat(40)),
        Err(CommunityError::MaximumLength(40))
    );
}

#[test]
fn message_body_counts_bytes() {
    assert_eq!(validate_message_body("Tahinli"), Ok(()));
    assert_eq!(validate_message_body(""), Err(MessageError::MinimumLength(0)));
    // 513 two-byte characters: 1026 bytes.
    let body = "ş".repeat(513);
    assert_eq!(validate_message_body(&body), Err(MessageError::MaximumLength(1026)));
    assert_eq!(validate_message_body(&"ş".repeat(512)), Ok(()));
}

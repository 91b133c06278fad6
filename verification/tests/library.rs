use yumush::server::identifier::KeyGenerator;

use yumush::error::Error;
use yumush::message::Message;
use yumush::order::{chars_leq, sorted_strings};
use yumush::request::user::{CreateUser, ReadUser};
use yumush::request::user_community::{IsUserIn, UsersIn};
use yumush::request::{Authentication, Deauthentication, Request, RequestKind};
use yumush::response::Response;
use yumush::server::authentication::authenticated_user;
use yumush::server::community::CommunityID;
use yumush::server::error::Error as ServerError;
use yumush::server::message::{MessageBody, MessageID};
use yumush::server::network::{admission_token, broadcast_of, is_member, keeps_subscriber, Roster};
use yumush::server::user::{User, UserID, Username};
use yumush::server::user_community::{JoinCommunity, LeaveCommunity};
use yumush::text::{
    chars_of, lines_of, split_once_chars, string_of, trim_chars, without_chars, write_bound_report,
};

fn strings(texts: &[&str]) -> Vec<String> {
    texts.iter().map(|text| text.to_string()).collect()
}

#[test]
fn sorted_strings_orders_by_characters() {
    let sorted = sorted_strings(&strings(&["b", "a", "ab", "B", "", "a"]));
    assert_eq!(sorted, strings(&["", "B", "a", "a", "ab", "b"]));
}

#[test]
fn sorted_strings_of_sorted_input_is_unchanged() {
    let input = strings(&["01A", "01B", "01C"]);
    assert_eq!(sorted_strings(&input), input);
}

#[test]
fn chars_leq_is_lexicographic() {
    assert!(chars_leq(&vec!['a'], &vec!['a', 'b']));
    assert!(!chars_leq(&vec!['b'], &vec!['a', 'b']));
    assert!(chars_leq(&vec![], &vec![]));
}

#[test]
fn request_kinds() {
    assert_eq!(Request::ReadUser(ReadUser::new("u")).kind(), RequestKind::ReadUser);
    assert_eq!(Request::UsersIn(UsersIn::new("c")).kind(), RequestKind::UsersIn);
    assert_eq!(Request::Authentication(Authentication::new("t")).kind(), RequestKind::Authentication);
}

#[test]
fn request_getters_give_back_the_fields() {
    assert_eq!(Authentication::new("Tahinli").get_authentication_token(), "Tahinli");
    assert_eq!(Deauthentication::new("Tahinli").get_authentication_token(), "Tahinli");
    assert_eq!(CreateUser::new("Tahinli").unwrap().get_username(), "Tahinli");
    let is_user_in = IsUserIn::new("u1", "c1");
    assert_eq!(is_user_in.get_user_id(), "u1");
    assert_eq!(is_user_in.get_community_id(), "c1");
}

#[test]
fn first_request_must_be_a_login() {
    let login = Request::Authentication(Authentication::new("Tahinli"));
    assert_eq!(admission_token(&login), Ok("Tahinli".to_owned()));
    let other = Request::ReadUser(ReadUser::new("u"));
    assert_eq!(admission_token(&other), Err(ServerError::Common(Error::Authenticate)));
}

#[test]
fn only_created_messages_are_pushed() {
    let created = Response::CreateMessage(Message::new("m1", "u1", "c1", "hello"));
    let pushed = broadcast_of(&created).unwrap();
    assert_eq!(pushed.get_id(), "m1");
    assert_eq!(pushed.get_message_body(), "hello");
    let updated = Response::UpdateMessage(Message::new("m1", "u1", "c1", "hello"));
    assert!(broadcast_of(&updated).is_none());
    assert!(broadcast_of(&Response::JoinCommunity).is_none());
}

#[test]
fn membership_and_subscribers() {
    assert!(is_member(&Ok(true)));
    assert!(!is_member(&Ok(false)));
    assert!(!is_member(&Err(ServerError::Common(Error::Server))));
    assert!(keeps_subscriber(false, false));
    assert!(keeps_subscriber(true, true));
    assert!(!keeps_subscriber(true, false));
}

#[test]
fn login_takes_the_first_user_found() {
    let first = User::from_parts(UserID::from_key("k1"), Username::try_new("Tahinli").unwrap());
    let second = User::from_parts(UserID::from_key("k2"), Username::try_new("Tahinli").unwrap());
    let found = authenticated_user(vec![first, second]).unwrap();
    assert_eq!(found.get_id().as_str(), "k1");
    assert_eq!(authenticated_user(Vec::new()), Err(ServerError::Common(Error::Authenticate)));
}

#[test]
fn generated_keys_are_ulids_and_increase() {
    let mut generator = KeyGenerator::new();
    let first = UserID::generate(&mut generator).unwrap();
    let second = UserID::generate(&mut generator).unwrap();
    for key in [first.as_str(), second.as_str()] {
        assert_eq!(key.len(), 26);
        assert!(key.chars().all(|c| c.is_ascii_digit() || c.is_ascii_uppercase()));
        assert!(!key.contains('I') && !key.contains('L') && !key.contains('O') && !key.contains('U'));
    }
    assert!(first.as_str() < second.as_str());
    let community = CommunityID::generate(&mut generator).unwrap();
    let message = MessageID::generate(&mut generator).unwrap();
    assert_eq!(community.as_str().len(), 26);
    assert_eq!(message.into_key().len(), 26);
}

#[test]
fn shown_user_carries_key_and_name() {
    let user = User::from_parts(UserID::from_key("k1"), Username::try_new("Tahinli").unwrap());
    let shown: yumush::user::User = user.into();
    assert_eq!(shown.get_user_id(), "k1");
    assert_eq!(shown.get_username(), "Tahinli");
}

#[test]
fn records_are_renamed_only_with_valid_names() {
    let user = User::from_parts(UserID::from_key("k1"), Username::try_new("Tahinli").unwrap());
    let renamed = user.clone().update_username("Not Tahinli").unwrap();
    assert_eq!(renamed.get_id().as_str(), "k1");
    assert_eq!(renamed.get_username().as_str(), "Not Tahinli");
    assert!(user.update_username("").is_err());
    assert!(MessageBody::try_new(&"a".repeat(1024)).is_ok());
    assert!(MessageBody::try_new(&"a".repeat(1025)).is_err());
}

#[test]
fn membership_records_carry_both_keys() {
    let user_id = UserID::from_key("u1");
    let community_id = CommunityID::from_key("c1");
    let join = JoinCommunity::new(&user_id, &community_id);
    assert_eq!(join.get_user_id().as_str(), "u1");
    assert_eq!(join.get_community_id().as_str(), "c1");
    let leave = LeaveCommunity::new(&user_id, &community_id);
    assert_eq!(leave.get_user_id().as_str(), "u1");
    assert_eq!(leave.get_community_id().as_str(), "c1");
}

#[test]
fn text_helpers() {
    let chars = chars_of("  a=b=c \r");
    assert_eq!(string_of(&trim_chars(&chars)), "a=b=c");
    let (key, value) = split_once_chars(&chars, '=').unwrap();
    assert_eq!(string_of(&key), "  a");
    assert_eq!(string_of(&value), "b=c \r");
    assert_eq!(string_of(&without_chars(&chars_of("[x]"), '[')), "x]");
    assert!(split_once_chars(&chars_of("abc"), '=').is_none());
    let lines = lines_of(&chars_of("one\r\ntwo\n\nthree"));
    let lines: Vec<String> = lines.iter().map(string_of).collect();
    assert_eq!(lines, strings(&["one", "two", "", "three"]));
    assert!(lines_of(&chars_of("")).is_empty());
    assert_eq!(lines_of(&chars_of("a\n")).len(), 1);
    assert_eq!(write_bound_report("More than maximum length(", 32, 40), "More than maximum length(32) is provided(40)");
}

#[test]
fn roster_keeps_one_stream_per_user() {
    let mut roster: Roster<u32> = Roster::new();
    roster.subscribe("u1".to_owned(), "Tahinli".to_owned(), 1);
    roster.subscribe("u2".to_owned(), "Someone".to_owned(), 2);
    roster.subscribe("u1".to_owned(), "Tahinli".to_owned(), 3);
    roster.subscribe("u1".to_owned(), "Not Tahinli".to_owned(), 4);
    let mut taken = roster.take_all();
    taken.sort();
    assert_eq!(
        taken,
        vec![
            ("u1".to_owned(), "Not Tahinli".to_owned(), 4),
            ("u1".to_owned(), "Tahinli".to_owned(), 3),
            ("u2".to_owned(), "Someone".to_owned(), 2),
        ]
    );
    assert!(roster.take_all().is_empty());
}

#[test]
fn every_key_sorts_after_the_one_before() {
    let mut generator = KeyGenerator::new();
    let mut previous = "0".repeat(26);
    for _ in 0..100 {
        let key = UserID::generate(&mut generator).unwrap().into_key();
        assert!(previous < key);
        previous = key;
    }
}

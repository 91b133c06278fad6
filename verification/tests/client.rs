use yumush::client::gui::{Chat, Route, Yumush};
use yumush::client::network::{NetworkEvent, Session};
use yumush::client::request::{
    community_reply, keys_reply, membership_reply, message_reply, unit_reply, user_reply,
};
use yumush::client::NAME;
use yumush::community::Community;
use yumush::error::message::Error as MessageError;
use yumush::error::network::Error as NetworkError;
use yumush::error::Error;
use yumush::message::Message;
use yumush::request::RequestKind;
use yumush::response::Response;
use yumush::user::User;

fn tahinli() -> User {
    User::new("01ARZ3NDEKTSV4RRFFQ69G5FAV", "Tahinli")
}

#[test]
fn application_name() {
    assert_eq!(NAME, "Yumush");
}

#[test]
fn user_reply_takes_the_matching_user() {
    let user = user_reply(RequestKind::ReadUser, Response::ReadUser(tahinli())).unwrap();
    assert_eq!(user.get_username(), "Tahinli");
    assert_eq!(user.get_user_id(), "01ARZ3NDEKTSV4RRFFQ69G5FAV");
}

#[test]
fn user_reply_passes_on_the_servers_error() {
    let result = user_reply(RequestKind::CreateUser, Response::Error(Error::Authenticate));
    assert_eq!(result.unwrap_err(), Error::Authenticate);
}

#[test]
fn reply_of_another_kind_is_a_server_error() {
    let result = user_reply(RequestKind::ReadUser, Response::DeleteUser(tahinli()));
    assert_eq!(result.unwrap_err(), Error::Server);
    let result = unit_reply(RequestKind::JoinCommunity, Response::LeaveCommunity);
    assert_eq!(result.unwrap_err(), Error::Server);
    let result = keys_reply(RequestKind::UsersIn, Response::IsUserIn(true));
    assert_eq!(result.unwrap_err(), Error::Server);
}

#[test]
fn community_and_message_replies() {
    let community = community_reply(
        RequestKind::UpdateCommunity,
        Response::UpdateCommunity(Community::new("c1", "Not Tahinli")),
    )
    .unwrap();
    assert_eq!(community.get_community_id(), "c1");
    assert_eq!(community.get_community_name(), "Not Tahinli");
    let message = message_reply(
        RequestKind::CreateMessage,
        Response::CreateMessage(Message::new("m1", "u1", "c1", "Tahinli")),
    )
    .unwrap();
    assert_eq!(message.get_id(), "m1");
    assert_eq!(message.get_user_id(), "u1");
    assert_eq!(message.get_community_id(), "c1");
    assert_eq!(message.get_message_body(), "Tahinli");
}

#[test]
fn unit_membership_and_keys_replies() {
    assert_eq!(unit_reply(RequestKind::LeaveCommunity, Response::LeaveCommunity), Ok(()));
    assert_eq!(membership_reply(RequestKind::IsUserIn, Response::IsUserIn(false)), Ok(false));
    let keys = vec!["a".to_owned(), "b".to_owned()];
    assert_eq!(keys_reply(RequestKind::CommunityOf, Response::CommunityOf(keys.clone())), Ok(keys));
}

#[test]
fn session_remembers_and_forgets_the_token() {
    let mut session = Session::new();
    assert_eq!(session.renewal(), None);
    session.note_authentication("Tahinli");
    assert_eq!(session.renewal(), Some("Tahinli".to_owned()));
    session.note_deauthentication();
    assert_eq!(session.renewal(), None);
}

#[test]
fn successful_renewal_keeps_the_token() {
    let mut session = Session::new();
    session.note_authentication("Tahinli");
    match session.note_renewal(Ok(tahinli())) {
        NetworkEvent::Connected(Some(user)) => assert_eq!(user.get_username(), "Tahinli"),
        other => panic!("unexpected event {:?}", other),
    }
    assert_eq!(session.renewal(), Some("Tahinli".to_owned()));
}

#[test]
fn failed_renewal_forgets_the_token() {
    let mut session = Session::new();
    session.note_authentication("Tahinli");
    assert!(matches!(session.note_renewal(Err(Error::Authenticate)), NetworkEvent::Connected(None)));
    assert_eq!(session.renewal(), None);
}

#[test]
fn chat_starts_in_the_default_community() {
    let chat = Chat::new();
    assert_eq!(chat.get_community().get_community_id(), "oko1k3hk3r21dhqa20az");
    assert_eq!(chat.get_community().get_community_name(), "The Community");
    assert!(chat.get_users().is_empty());
    assert!(chat.get_chat_messages().is_empty());
}

#[test]
fn chat_keeps_messages_in_arrival_order() {
    let mut chat = Chat::new();
    chat.push_message(Message::new("m1", "u1", "c1", "first"));
    chat.push_message(Message::new("m2", "u1", "c1", "second"));
    chat.push_user(&tahinli());
    let bodies: Vec<&str> = chat.get_chat_messages().iter().map(|m| m.get_message_body()).collect();
    assert_eq!(bodies, vec!["first", "second"]);
    assert_eq!(chat.get_users().len(), 1);
}

#[test]
fn window_starts_logged_out_on_the_login_page() {
    let yumush = Yumush::new();
    assert!(!yumush.is_logged_in());
    assert!(!yumush.is_connected());
    assert_eq!(yumush.get_current_route(), Route::Login);
    assert_eq!(yumush.get_username(), None);
}

#[test]
fn logging_in_and_out() {
    let mut yumush = Yumush::new();
    yumush.set_user(tahinli());
    assert!(yumush.is_logged_in());
    assert_eq!(yumush.get_username(), Some("Tahinli"));
    assert_eq!(yumush.get_chat().get_users().len(), 1);
    yumush.reset_user();
    assert!(!yumush.is_logged_in());
    assert!(yumush.get_user().is_none());
}

#[test]
fn changing_page_keeps_the_user() {
    let mut yumush = Yumush::new();
    yumush.set_user(tahinli());
    yumush.change_page(Route::Chat);
    assert_eq!(yumush.get_current_route(), Route::Chat);
    assert!(yumush.is_logged_in());
    yumush.change_page(Route::Register);
    assert_eq!(yumush.get_current_route(), Route::Register);
}

#[test]
fn losing_the_connection_logs_out() {
    let mut yumush = Yumush::new();
    yumush.handle_network_event(NetworkEvent::Connected(None));
    assert!(yumush.is_connected());
    yumush.set_user(tahinli());
    yumush.handle_network_event(NetworkEvent::Disconnected(Error::Network(NetworkError::ChannelClosed)));
    assert!(!yumush.is_connected());
    assert!(!yumush.is_logged_in());
    yumush.handle_network_event(NetworkEvent::ConnectionFailed(Error::Server));
    assert!(!yumush.is_connected());
}

#[test]
fn received_message_is_shown_last() {
    let mut yumush = Yumush::new();
    yumush.handle_network_event(NetworkEvent::MessageReceived(Message::new("m1", "u1", "c1", "hello")));
    let messages = yumush.get_chat().get_chat_messages();
    assert_eq!(messages.len(), 1);
    assert_eq!(messages[0].get_message_body(), "hello");
}

#[test]
fn composing_needs_a_valid_body_and_a_user() {
    let mut yumush = Yumush::new();
    assert!(matches!(yumush.compose_message("hello"), Ok(None)));
    assert_eq!(yumush.compose_message("").unwrap_err(), MessageError::MinimumLength(0));
    yumush.set_user(tahinli());
    let request = yumush.compose_message("hello").unwrap().unwrap();
    assert_eq!(request.get_user_id(), "01ARZ3NDEKTSV4RRFFQ69G5FAV");
    assert_eq!(request.get_community_id(), "oko1k3hk3r21dhqa20az");
    assert_eq!(request.get_message_body(), "hello");
}

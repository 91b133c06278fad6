use std::collections::HashMap;

use yumush::server::identifier::KeyGenerator;

use yumush::error::community::Error as CommunityError;
use yumush::error::message::Error as MessageError;
use yumush::error::user::Error as UserError;
use yumush::error::Error;
use yumush::request::community::{CreateCommunity, DeleteCommunity, ReadCommunity, UpdateCommunity};
use yumush::request::message::{CreateMessage, DeleteMessage, ReadMessage, UpdateMessage};
use yumush::request::user::{CreateUser, DeleteUser, ReadUser, UpdateUser};
use yumush::request::user_community::{CommunityOf, IsUserIn, JoinCommunity, LeaveCommunity, UsersIn};
use yumush::request::{Authentication, Deauthentication, Request};
use yumush::response::Response;
use yumush::server::community::{Community, CommunityID};
use yumush::server::error::database::Error as DatabaseError;
use yumush::server::error::Error as ServerError;
use yumush::server::message::{Message, MessageID};
use yumush::server::request::{Handling, Outcome, Step};
use yumush::server::user::{User, UserID};

/// An in-memory database that performs the steps the server names.
struct Store {
    generator: KeyGenerator,
    users: HashMap<String, User>,
    communities: HashMap<String, Community>,
    messages: HashMap<String, Message>,
    members: Vec<(String, String)>,
    steps: Vec<String>,
}

impl Store {
    fn new() -> Store {
        Store {
            generator: KeyGenerator::new(),
            users: HashMap::new(),
            communities: HashMap::new(),
            messages: HashMap::new(),
            members: Vec::new(),
            steps: Vec::new(),
        }
    }

    fn perform(&mut self, step: Step) -> Outcome {
        match step {
            Step::FindUsersByUsername(name) => {
                self.steps.push("find".to_owned());
                let mut found: Vec<User> = self
                    .users
                    .values()
                    .filter(|user| user.get_username().as_str() == name)
                    .cloned()
                    .collect();
                found.sort_by(|a, b| a.get_id().as_str().cmp(b.get_id().as_str()));
                Outcome::Users(found)
            }
            Step::GenerateUserId => {
                self.steps.push("generate".to_owned());
                Outcome::NewUserId(UserID::generate(&mut self.generator))
            }
            Step::StoreUser(user) => {
                self.steps.push("store".to_owned());
                self.users.insert(user.get_id().as_str().to_owned(), user.clone());
                Outcome::UserRecord(Some(user))
            }
            Step::LoadUser(id) => {
                self.steps.push("load".to_owned());
                Outcome::UserRecord(self.users.get(id.as_str()).cloned())
            }
            Step::SaveUser(user) => {
                self.steps.push("save".to_owned());
                let key = user.get_id().as_str().to_owned();
                if self.users.contains_key(&key) {
                    self.users.insert(key, user.clone());
                    Outcome::UserRecord(Some(user))
                } else {
                    Outcome::UserRecord(None)
                }
            }
            Step::RemoveUser(id) => {
                self.steps.push("remove".to_owned());
                Outcome::UserRecord(self.users.remove(id.as_str()))
            }
            Step::GenerateCommunityId => {
                self.steps.push("generate".to_owned());
                Outcome::NewCommunityId(CommunityID::generate(&mut self.generator))
            }
            Step::StoreCommunity(community) => {
                self.steps.push("store".to_owned());
                self.communities
                    .insert(community.get_id().as_str().to_owned(), community.clone());
                Outcome::CommunityRecord(Some(community))
            }
            Step::LoadCommunity(id) => {
                self.steps.push("load".to_owned());
                Outcome::CommunityRecord(self.communities.get(id.as_str()).cloned())
            }
            Step::SaveCommunity(community) => {
                self.steps.push("save".to_owned());
                let key = community.get_id().as_str().to_owned();
                if self.communities.contains_key(&key) {
                    self.communities.insert(key, community.clone());
                    Outcome::CommunityRecord(Some(community))
                } else {
                    Outcome::CommunityRecord(None)
                }
            }
            Step::RemoveCommunity(id) => {
                self.steps.push("remove".to_owned());
                Outcome::CommunityRecord(self.communities.remove(id.as_str()))
            }
            Step::GenerateMessageId => {
                self.steps.push("generate".to_owned());
                Outcome::NewMessageId(MessageID::generate(&mut self.generator))
            }
            Step::StoreMessage(message) => {
                self.steps.push("store".to_owned());
                self.messages.insert(message.get_id().as_str().to_owned(), message.clone());
                Outcome::MessageRecord(Some(message))
            }
            Step::LoadMessage(id) => {
                self.steps.push("load".to_owned());
                Outcome::MessageRecord(self.messages.get(id.as_str()).cloned())
            }
            Step::SaveMessage(message) => {
                self.steps.push("save".to_owned());
                let key = message.get_id().as_str().to_owned();
                if self.messages.contains_key(&key) {
                    self.messages.insert(key, message.clone());
                    Outcome::MessageRecord(Some(message))
                } else {
                    Outcome::MessageRecord(None)
                }
            }
            Step::RemoveMessage(id) => {
                self.steps.push("remove".to_owned());
                Outcome::MessageRecord(self.messages.remove(id.as_str()))
            }
            Step::Join(user_id, community_id) => {
                self.steps.push("join".to_owned());
                let pair = (user_id.as_str().to_owned(), community_id.as_str().to_owned());
                if self.members.contains(&pair) {
                    Outcome::Failed(ServerError::Database(DatabaseError::Inner(
                        "index already contains the pair".to_owned(),
                    )))
                } else {
                    self.members.push(pair);
                    Outcome::Joined
                }
            }
            Step::Leave(user_id, community_id) => {
                self.steps.push("leave".to_owned());
                let before = self.members.len();
                self.members.retain(|(user, community)| {
                    !(user == user_id.as_str() && community == community_id.as_str())
                });
                Outcome::Left(before - self.members.len())
            }
            Step::CheckMembership(user_id, community_id) => {
                self.steps.push("check".to_owned());
                let pair = (user_id.as_str().to_owned(), community_id.as_str().to_owned());
                Outcome::Membership(Some(self.members.contains(&pair)))
            }
            Step::ListMembers(community_id) => {
                self.steps.push("list".to_owned());
                Outcome::Members(
                    self.members
                        .iter()
                        .filter(|(_, community)| community == community_id.as_str())
                        .map(|(user, _)| UserID::from_key(user))
                        .collect(),
                )
            }
            Step::ListCommunities(user_id) => {
                self.steps.push("list".to_owned());
                Outcome::Communities(
                    self.members
                        .iter()
                        .filter(|(user, _)| user == user_id.as_str())
                        .map(|(_, community)| CommunityID::from_key(community))
                        .collect(),
                )
            }
            Step::Respond(_) => unreachable!("a response is not a database step"),
        }
    }

    fn answer(&mut self, request: Request) -> Response {
        let (mut handling, mut step) = Handling::start(request);
        for _ in 0..100 {
            match step {
                Step::Respond(response) => return response,
                other => {
                    let outcome = self.perform(other);
                    let next = handling.advance(outcome);
                    handling = next.0;
                    step = next.1;
                }
            }
        }
        panic!("the request was not answered");
    }

    fn create_user(&mut self, username: &str) -> yumush::user::User {
        match self.answer(Request::CreateUser(CreateUser::new(username).unwrap())) {
            Response::CreateUser(user) => user,
            other => panic!("unexpected response {:?}", other),
        }
    }

    fn create_community(&mut self, community_name: &str) -> yumush::community::Community {
        match self.answer(Request::CreateCommunity(CreateCommunity::new(community_name).unwrap())) {
            Response::CreateCommunity(community) => community,
            other => panic!("unexpected response {:?}", other),
        }
    }
}

fn is_ulid(text: &str) -> bool {
    text.len() == 26 && text.chars().all(|c| c.is_ascii_digit() || c.is_ascii_uppercase())
}

#[test]
fn created_user_keeps_its_name_and_gets_a_ulid() {
    let mut store = Store::new();
    let user = store.create_user("Tahinli");
    assert_eq!(user.get_username(), "Tahinli");
    assert!(is_ulid(user.get_user_id()));
    assert_eq!(store.steps, vec!["generate", "store"]);
}

#[test]
fn read_user_gives_back_the_created_one() {
    let mut store = Store::new();
    let user = store.create_user("Tahinli");
    match store.answer(Request::ReadUser(ReadUser::new(user.get_user_id()))) {
        Response::ReadUser(read) => {
            assert_eq!(read.get_user_id(), user.get_user_id());
            assert_eq!(read.get_username(), "Tahinli");
        }
        other => panic!("unexpected response {:?}", other),
    }
}

#[test]
fn update_user_renames_it() {
    let mut store = Store::new();
    let user = store.create_user("Tahinli");
    let request = UpdateUser::new(user.get_user_id(), "Not Tahinli").unwrap();
    match store.answer(Request::UpdateUser(request)) {
        Response::UpdateUser(updated) => {
            assert_eq!(updated.get_user_id(), user.get_user_id());
            assert_eq!(updated.get_username(), "Not Tahinli");
        }
        other => panic!("unexpected response {:?}", other),
    }
    match store.answer(Request::ReadUser(ReadUser::new(user.get_user_id()))) {
        Response::ReadUser(read) => assert_eq!(read.get_username(), "Not Tahinli"),
        other => panic!("unexpected response {:?}", other),
    }
}

#[test]
fn update_of_missing_user_is_a_server_error() {
    let mut store = Store::new();
    let request = UpdateUser::new("01ARZ3NDEKTSV4RRFFQ69G5FAV", "Not Tahinli").unwrap();
    match store.answer(Request::UpdateUser(request)) {
        Response::Error(error_value) => assert_eq!(error_value, Error::Server),
        other => panic!("unexpected response {:?}", other),
    }
}

#[test]
fn delete_user_removes_it() {
    let mut store = Store::new();
    let user = store.create_user("Tahinli");
    match store.answer(Request::DeleteUser(DeleteUser::new(user.get_user_id()))) {
        Response::DeleteUser(deleted) => assert_eq!(deleted.get_username(), "Tahinli"),
        other => panic!("unexpected response {:?}", other),
    }
    match store.answer(Request::ReadUser(ReadUser::new(user.get_user_id()))) {
        Response::Error(error_value) => assert_eq!(error_value, Error::Server),
        other => panic!("unexpected response {:?}", other),
    }
}

#[test]
fn invalid_username_is_refused_before_any_step() {
    let mut store = Store::new();
    match store.answer(Request::CreateUser(CreateUser::received(String::new()))) {
        Response::Error(error_value) => assert_eq!(error_value, Error::User(UserError::MinimumLength(0))),
        other => panic!("unexpected response {:?}", other),
    }
    assert!(store.steps.is_empty());
    assert!(store.users.is_empty());
}

#[test]
fn rename_to_invalid_name_is_refused_after_loading() {
    let mut store = Store::new();
    let user = store.create_user("Tahinli");
    let name = "a".repeat(33);
    let request = Request::UpdateUser(UpdateUser::received(user.get_user_id().to_owned(), name));
    match store.answer(request) {
        Response::Error(error_value) => {
            assert_eq!(error_value, Error::User(UserError::MaximumLength(33)))
        }
        other => panic!("unexpected response {:?}", other),
    }
    assert_eq!(store.steps, vec!["generate", "store", "load"]);
}

#[test]
fn authentication_finds_the_user_by_token() {
    let mut store = Store::new();
    let user = store.create_user("Tahinli");
    match store.answer(Request::Authentication(Authentication::new("Tahinli"))) {
        Response::Authentication(found) => assert_eq!(found.get_user_id(), user.get_user_id()),
        other => panic!("unexpected response {:?}", other),
    }
    match store.answer(Request::Deauthentication(Deauthentication::new("Tahinli"))) {
        Response::Deauthentication(found) => assert_eq!(found.get_user_id(), user.get_user_id()),
        other => panic!("unexpected response {:?}", other),
    }
}

#[test]
fn authentication_with_unknown_token_is_refused() {
    let mut store = Store::new();
    store.create_user("Tahinli");
    match store.answer(Request::Authentication(Authentication::new("Not Tahinli"))) {
        Response::Error(error_value) => assert_eq!(error_value, Error::Authenticate),
        other => panic!("unexpected response {:?}", other),
    }
}

#[test]
fn community_create_read_update_delete() {
    let mut store = Store::new();
    let community = store.create_community("Tahinli");
    assert_eq!(community.get_community_name(), "Tahinli");
    assert!(is_ulid(community.get_community_id()));
    let id = community.get_community_id().to_owned();
    match store.answer(Request::ReadCommunity(ReadCommunity::new(&id))) {
        Response::ReadCommunity(read) => assert_eq!(read.get_community_name(), "Tahinli"),
        other => panic!("unexpected response {:?}", other),
    }
    let request = UpdateCommunity::new(&id, "Not Tahinli").unwrap();
    match store.answer(Request::UpdateCommunity(request)) {
        Response::UpdateCommunity(updated) => {
            assert_eq!(updated.get_community_id(), id);
            assert_eq!(updated.get_community_name(), "Not Tahinli");
        }
        other => panic!("unexpected response {:?}", other),
    }
    match store.answer(Request::DeleteCommunity(DeleteCommunity::new(&id))) {
        Response::DeleteCommunity(deleted) => assert_eq!(deleted.get_community_name(), "Not Tahinli"),
        other => panic!("unexpected response {:?}", other),
    }
    match store.answer(Request::DeleteCommunity(DeleteCommunity::new(&id))) {
        Response::Error(error_value) => assert_eq!(error_value, Error::Server),
        other => panic!("unexpected response {:?}", other),
    }
}

#[test]
fn invalid_community_name_is_refused_at_once() {
    let mut store = Store::new();
    match store.answer(Request::CreateCommunity(CreateCommunity::received("Tahinlı".to_owned()))) {
        Response::Error(error_value) => assert_eq!(error_value, Error::Community(CommunityError::ASCII)),
        other => panic!("unexpected response {:?}", other),
    }
    assert!(store.steps.is_empty());
    assert_eq!(
        CreateCommunity::new("").unwrap_err(),
        Error::Community(CommunityError::MinimumLength(0))
    );
}

#[test]
fn too_long_body_of_a_received_message_is_refused_after_loading() {
    let mut store = Store::new();
    let user = store.create_user("Tahinli");
    let community = store.create_community("The Community");
    let request = CreateMessage::received(
        user.get_user_id().to_owned(),
        community.get_community_id().to_owned(),
        "a".repeat(1025),
    );
    match store.answer(Request::CreateMessage(request)) {
        Response::Error(error_value) => {
            assert_eq!(error_value, Error::Message(MessageError::MaximumLength(1025)))
        }
        other => panic!("unexpected response {:?}", other),
    }
    assert!(store.messages.is_empty());
}

#[test]
fn message_create_read_update_delete() {
    let mut store = Store::new();
    let user = store.create_user("Tahinli");
    let community = store.create_community("The Community");
    let request = CreateMessage::new(user.get_user_id(), community.get_community_id(), "Tahinli").unwrap();
    let message = match store.answer(Request::CreateMessage(request)) {
        Response::CreateMessage(message) => message,
        other => panic!("unexpected response {:?}", other),
    };
    assert_eq!(message.get_user_id(), user.get_user_id());
    assert_eq!(message.get_community_id(), community.get_community_id());
    assert_eq!(message.get_message_body(), "Tahinli");
    assert!(is_ulid(message.get_id()));
    let id = message.get_id().to_owned();
    match store.answer(Request::ReadMessage(ReadMessage::new(&id))) {
        Response::ReadMessage(read) => assert_eq!(read.get_message_body(), "Tahinli"),
        other => panic!("unexpected response {:?}", other),
    }
    match store.answer(Request::UpdateMessage(UpdateMessage::new(&id, "Not Tahinli").unwrap())) {
        Response::UpdateMessage(updated) => {
            assert_eq!(updated.get_id(), id);
            assert_eq!(updated.get_user_id(), user.get_user_id());
            assert_eq!(updated.get_community_id(), community.get_community_id());
            assert_eq!(updated.get_message_body(), "Not Tahinli");
        }
        other => panic!("unexpected response {:?}", other),
    }
    match store.answer(Request::DeleteMessage(DeleteMessage::new(&id))) {
        Response::DeleteMessage(deleted) => assert_eq!(deleted.get_message_body(), "Not Tahinli"),
        other => panic!("unexpected response {:?}", other),
    }
    match store.answer(Request::ReadMessage(ReadMessage::new(&id))) {
        Response::Error(error_value) => assert_eq!(error_value, Error::Server),
        other => panic!("unexpected response {:?}", other),
    }
}

#[test]
fn message_by_unknown_author_is_a_server_error() {
    let mut store = Store::new();
    let community = store.create_community("The Community");
    let request = CreateMessage::new("01ARZ3NDEKTSV4RRFFQ69G5FAV", community.get_community_id(), "hi").unwrap();
    match store.answer(Request::CreateMessage(request)) {
        Response::Error(error_value) => assert_eq!(error_value, Error::Server),
        other => panic!("unexpected response {:?}", other),
    }
    assert!(store.messages.is_empty());
}

#[test]
fn message_in_unknown_community_is_a_server_error() {
    let mut store = Store::new();
    let user = store.create_user("Tahinli");
    let request = CreateMessage::new(user.get_user_id(), "01ARZ3NDEKTSV4RRFFQ69G5FAV", "hi").unwrap();
    match store.answer(Request::CreateMessage(request)) {
        Response::Error(error_value) => assert_eq!(error_value, Error::Server),
        other => panic!("unexpected response {:?}", other),
    }
    assert!(store.messages.is_empty());
}

#[test]
fn too_long_message_body_is_refused_by_its_constructor() {
    assert_eq!(
        CreateMessage::new("u", "c", &"a".repeat(1025)).unwrap_err(),
        Error::Message(MessageError::MaximumLength(1025))
    );
    assert_eq!(
        UpdateMessage::new("m", "").unwrap_err(),
        Error::Message(MessageError::MinimumLength(0))
    );
}

#[test]
fn join_then_join_again() {
    let mut store = Store::new();
    let user = store.create_user("Tahinli");
    let community = store.create_community("The Community");
    let request = JoinCommunity::new(user.get_user_id(), community.get_community_id());
    assert!(matches!(store.answer(Request::JoinCommunity(request.clone())), Response::JoinCommunity));
    match store.answer(Request::IsUserIn(IsUserIn::new(user.get_user_id(), community.get_community_id()))) {
        Response::IsUserIn(member) => assert!(member),
        other => panic!("unexpected response {:?}", other),
    }
    match store.answer(Request::JoinCommunity(request)) {
        Response::Error(error_value) => assert_eq!(error_value, Error::Server),
        other => panic!("unexpected response {:?}", other),
    }
}

#[test]
fn leave_then_leave_again() {
    let mut store = Store::new();
    let user = store.create_user("Tahinli");
    let community = store.create_community("The Community");
    let join = JoinCommunity::new(user.get_user_id(), community.get_community_id());
    store.answer(Request::JoinCommunity(join));
    let leave = LeaveCommunity::new(user.get_user_id(), community.get_community_id());
    assert!(matches!(store.answer(Request::LeaveCommunity(leave.clone())), Response::LeaveCommunity));
    match store.answer(Request::IsUserIn(IsUserIn::new(user.get_user_id(), community.get_community_id()))) {
        Response::IsUserIn(member) => assert!(!member),
        other => panic!("unexpected response {:?}", other),
    }
    match store.answer(Request::LeaveCommunity(leave)) {
        Response::Error(error_value) => assert_eq!(error_value, Error::Server),
        other => panic!("unexpected response {:?}", other),
    }
}

#[test]
fn users_in_lists_member_keys_sorted() {
    let mut store = Store::new();
    let community = store.create_community("The Community");
    let mut keys = Vec::new();
    for name in ["Tahinli", "Not Tahinli", "Someone"] {
        let user = store.create_user(name);
        keys.push(user.get_user_id().to_owned());
    }
    for key in keys.iter().rev() {
        store.answer(Request::JoinCommunity(JoinCommunity::new(key, community.get_community_id())));
    }
    keys.sort();
    match store.answer(Request::UsersIn(UsersIn::new(community.get_community_id()))) {
        Response::UsersIn(listed) => assert_eq!(listed, keys),
        other => panic!("unexpected response {:?}", other),
    }
}

#[test]
fn communities_of_lists_keys_sorted() {
    let mut store = Store::new();
    let user = store.create_user("Tahinli");
    let first = store.create_community("The Community").get_community_id().to_owned();
    let second = store.create_community("Other").get_community_id().to_owned();
    store.answer(Request::JoinCommunity(JoinCommunity::new(user.get_user_id(), &second)));
    store.answer(Request::JoinCommunity(JoinCommunity::new(user.get_user_id(), &first)));
    let mut expected = vec![first, second];
    expected.sort();
    match store.answer(Request::CommunityOf(CommunityOf::new(user.get_user_id()))) {
        Response::CommunityOf(listed) => assert_eq!(listed, expected),
        other => panic!("unexpected response {:?}", other),
    }
}

#[test]
fn missing_key_is_drawn_again() {
    let request = Request::CreateUser(CreateUser::new("Tahinli").unwrap());
    let (handling, step) = Handling::start(request);
    assert!(matches!(step, Step::GenerateUserId));
    let (handling, step) = handling.advance(Outcome::NewUserId(None));
    assert!(matches!(step, Step::GenerateUserId));
    let (handling, step) = handling.advance(Outcome::NewUserId(Some(UserID::from_key("01ARZ3NDEKTSV4RRFFQ69G5FAV"))));
    match &step {
        Step::StoreUser(user) => {
            assert_eq!(user.get_id().as_str(), "01ARZ3NDEKTSV4RRFFQ69G5FAV");
            assert_eq!(user.get_username().as_str(), "Tahinli");
        }
        _ => panic!("expected a store step"),
    }
    let (_, step) = handling.advance(Outcome::UserRecord(None));
    match step {
        Step::Respond(Response::Error(error_value)) => assert_eq!(error_value, Error::Server),
        _ => panic!("expected an error response"),
    }
}

#[test]
fn failed_step_is_told_to_the_client() {
    let request = Request::ReadUser(ReadUser::new("key"));
    let (handling, _) = Handling::start(request);
    let failure = ServerError::Common(Error::Authenticate);
    let (_, step) = handling.advance(Outcome::Failed(failure));
    match step {
        Step::Respond(Response::Error(error_value)) => assert_eq!(error_value, Error::Authenticate),
        _ => panic!("expected an error response"),
    }
}

#[test]
fn mismatched_outcome_is_a_server_error() {
    let request = Request::ReadUser(ReadUser::new("key"));
    let (handling, _) = Handling::start(request);
    let (handling, step) = handling.advance(Outcome::Joined);
    assert!(matches!(step, Step::Respond(Response::Error(Error::Server))));
    let (_, step) = handling.advance(Outcome::Joined);
    assert!(matches!(step, Step::Respond(Response::Error(Error::Server))));
}

#[test]
fn membership_without_an_answer_is_no() {
    let request = Request::IsUserIn(IsUserIn::new("u", "c"));
    let (handling, step) = Handling::start(request);
    assert!(matches!(step, Step::CheckMembership(_, _)));
    let (_, step) = handling.advance(Outcome::Membership(None));
    assert!(matches!(step, Step::Respond(Response::IsUserIn(false))));
}

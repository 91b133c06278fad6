//! How the server answers a request: a state machine that names each database step to
//! perform and, given what came of it, the next one, until it names the response.

use vstd::prelude::*;

use crate::error::Error as CommonError;
use crate::request::{answers, kind_of, Request, RequestKind};
use crate::order::{sorted_strings, string_views, text_order};
use crate::response::Response;
use crate::server::authentication::authenticated_user;
use crate::server::community::{Community, CommunityID, CommunityName};
use crate::server::error::database::Error as DatabaseError;
use crate::server::error::{told_to_client, Error};
use crate::server::message::{Message, MessageBody, MessageID};
use crate::server::user::{User, UserID, Username};
use crate::validate::{community_name_verdict, message_body_verdict, username_verdict};

verus! {

/// A step the server must perform next.
pub enum Step {
    /// Look up every user with this name.
    FindUsersByUsername(String),
    /// Draw a fresh user key.
    GenerateUserId,
    /// Create this user record.
    StoreUser(User),
    /// Read the user record with this key.
    LoadUser(UserID),
    /// Overwrite the user record with the same key.
    SaveUser(User),
    /// Delete the user record with this key.
    RemoveUser(UserID),
    /// Draw a fresh community key.
    GenerateCommunityId,
    /// Create this community record.
    StoreCommunity(Community),
    /// Read the community record with this key.
    LoadCommunity(CommunityID),
    /// Overwrite the community record with the same key.
    SaveCommunity(Community),
    /// Delete the community record with this key.
    RemoveCommunity(CommunityID),
    /// Draw a fresh message key.
    GenerateMessageId,
    /// Create this message record.
    StoreMessage(Message),
    /// Read the message record with this key.
    LoadMessage(MessageID),
    /// Overwrite the message record with the same key.
    SaveMessage(Message),
    /// Delete the message record with this key.
    RemoveMessage(MessageID),
    /// Relate the user to the community.
    Join(UserID, CommunityID),
    /// Remove the relation of the user to the community.
    Leave(UserID, CommunityID),
    /// Ask whether the user is related to the community.
    CheckMembership(UserID, CommunityID),
    /// List the users related to the community.
    ListMembers(CommunityID),
    /// List the communities the user is related to.
    ListCommunities(UserID),
    /// Send this response; the request is answered.
    Respond(Response),
}

/// What came of a step.
pub enum Outcome {
    /// The users found by name, in the database's order.
    Users(Vec<User>),
    /// A fresh user key, or `None` when none could be drawn in this millisecond.
    NewUserId(Option<UserID>),
    /// The user record the database gave back, if any.
    UserRecord(Option<User>),
    /// A fresh community key, or `None` when none could be drawn in this millisecond.
    NewCommunityId(Option<CommunityID>),
    /// The community record the database gave back, if any.
    CommunityRecord(Option<Community>),
    /// A fresh message key, or `None` when none could be drawn in this millisecond.
    NewMessageId(Option<MessageID>),
    /// The message record the database gave back, if any.
    MessageRecord(Option<Message>),
    /// The relation was made.
    Joined,
    /// How many relations were removed.
    Left(usize),
    /// The membership answer, if the database gave one.
    Membership(Option<bool>),
    /// The members found.
    Members(Vec<UserID>),
    /// The communities found.
    Communities(Vec<CommunityID>),
    /// The step failed.
    Failed(Error),
}

/// What a loaded user record is for.
pub enum UserPurpose {
    Read,
    Rename(String),
    Delete,
    /// The author of a new message: the community's key and the body follow.
    Author(String, String),
}

/// What a loaded community record is for.
pub enum CommunityPurpose {
    Read,
    Rename(String),
    Delete,
    /// The community of a new message by this author, with this body.
    Host(UserID, String),
}

/// What a loaded message record is for.
pub enum MessagePurpose {
    Read,
    Rewrite(String),
    Delete,
}

/// Where the answer to a request stands.
pub enum Stage {
    FindingUser,
    NamingUser(Username),
    StoringUser,
    LoadingUser(UserPurpose),
    SavingUser,
    RemovingUser,
    NamingCommunity(CommunityName),
    StoringCommunity,
    LoadingCommunity(CommunityPurpose),
    SavingCommunity,
    RemovingCommunity,
    NamingMessage(UserID, CommunityID, MessageBody),
    StoringMessage,
    LoadingMessage(MessagePurpose),
    SavingMessage,
    RemovingMessage,
    Joining,
    Leaving,
    CheckingMembership,
    ListingMembers,
    ListingCommunities,
    Answered,
}

/// The answer to one request, in progress.
pub struct Handling {
    kind: RequestKind,
    stage: Stage,
}

/// How many steps at most remain after a stage, not counting fresh keys that could not
/// be drawn.
pub open spec fn stage_rank(stage: Stage) -> nat {
    match stage {
        Stage::Answered => 0,
        Stage::LoadingUser(_) => 4,
        Stage::LoadingCommunity(_) => 3,
        Stage::NamingUser(_) | Stage::NamingCommunity(_) | Stage::NamingMessage(_, _, _)
        | Stage::LoadingMessage(_) => 2,
        _ => 1,
    }
}

/// An outcome that brings no fresh key.
pub open spec fn is_missing_key(outcome: Outcome) -> bool {
    ||| outcome matches Outcome::NewUserId(None)
    ||| outcome matches Outcome::NewCommunityId(None)
    ||| outcome matches Outcome::NewMessageId(None)
}

/// The request is answered with this response.
pub open spec fn finished(after: Handling, step: Step, response: Response) -> bool {
    after.stage() is Answered && step == Step::Respond(response)
}

/// The request is answered with the error that a missing record causes.
pub open spec fn missing(after: Handling, step: Step, error_value: DatabaseError) -> bool {
    finished(after, step, Response::Error(told_to_client(Error::Database(error_value))))
}

/// The keys of the identifiers, sorted as the identifiers sort.
pub open spec fn user_keys(keys: Seq<String>, ids: Seq<UserID>) -> bool {
    string_views(keys) == Seq::new(ids.len(), |i: int| ids[i].key()).sort_by(text_order())
}

/// The keys of the identifiers, sorted as the identifiers sort.
pub open spec fn community_keys(keys: Seq<String>, ids: Seq<CommunityID>) -> bool {
    string_views(keys) == Seq::new(ids.len(), |i: int| ids[i].key()).sort_by(text_order())
}

/// The keys of user identifiers, sorted.
fn user_key_strings(ids: &Vec<UserID>) -> (sorted: Vec<String>)
    ensures
        user_keys(sorted@, ids@),
{
    let mut keys: Vec<String> = Vec::new();
    let mut i: usize = 0;
    while i < ids.len()
        invariant
            i <= ids.len(),
            keys@.len() == i,
            forall|j: int| 0 <= j < i ==> keys@[j]@ == ids@[j].key(),
        decreases ids.len() - i,
    {
        keys.push(ids[i].as_str().to_owned());
        i = i + 1;
    }
    assert(string_views(keys@) =~= Seq::new(ids@.len(), |j: int| ids@[j].key()));
    sorted_strings(&keys)
}

/// The keys of community identifiers, sorted.
fn community_key_strings(ids: &Vec<CommunityID>) -> (sorted: Vec<String>)
    ensures
        community_keys(sorted@, ids@),
{
    let mut keys: Vec<String> = Vec::new();
    let mut i: usize = 0;
    while i < ids.len()
        invariant
            i <= ids.len(),
            keys@.len() == i,
            forall|j: int| 0 <= j < i ==> keys@[j]@ == ids@[j].key(),
        decreases ids.len() - i,
    {
        keys.push(ids[i].as_str().to_owned());
        i = i + 1;
    }
    assert(string_views(keys@) =~= Seq::new(ids@.len(), |j: int| ids@[j].key()));
    sorted_strings(&keys)
}

/// The stage is one that answering a request of this kind goes through.
spec fn fits(kind: RequestKind, stage: Stage) -> bool {
    match stage {
        Stage::FindingUser => kind == RequestKind::Authentication || kind
            == RequestKind::Deauthentication,
        Stage::NamingUser(_) | Stage::StoringUser => kind == RequestKind::CreateUser,
        Stage::LoadingUser(purpose) => match purpose {
            UserPurpose::Read => kind == RequestKind::ReadUser,
            UserPurpose::Rename(_) => kind == RequestKind::UpdateUser,
            UserPurpose::Delete => kind == RequestKind::DeleteUser,
            UserPurpose::Author(_, _) => kind == RequestKind::CreateMessage,
        },
        Stage::SavingUser => kind == RequestKind::UpdateUser,
        Stage::RemovingUser => kind == RequestKind::DeleteUser,
        Stage::NamingCommunity(_) | Stage::StoringCommunity => kind
            == RequestKind::CreateCommunity,
        Stage::LoadingCommunity(purpose) => match purpose {
            CommunityPurpose::Read => kind == RequestKind::ReadCommunity,
            CommunityPurpose::Rename(_) => kind == RequestKind::UpdateCommunity,
            CommunityPurpose::Delete => kind == RequestKind::DeleteCommunity,
            CommunityPurpose::Host(_, _) => kind == RequestKind::CreateMessage,
        },
        Stage::SavingCommunity => kind == RequestKind::UpdateCommunity,
        Stage::RemovingCommunity => kind == RequestKind::DeleteCommunity,
        Stage::NamingMessage(_, _, _) | Stage::StoringMessage => kind
            == RequestKind::CreateMessage,
        Stage::LoadingMessage(purpose) => match purpose {
            MessagePurpose::Read => kind == RequestKind::ReadMessage,
            MessagePurpose::Rewrite(_) => kind == RequestKind::UpdateMessage,
            MessagePurpose::Delete => kind == RequestKind::DeleteMessage,
        },
        Stage::SavingMessage => kind == RequestKind::UpdateMessage,
        Stage::RemovingMessage => kind == RequestKind::DeleteMessage,
        Stage::Joining => kind == RequestKind::JoinCommunity,
        Stage::Leaving => kind == RequestKind::LeaveCommunity,
        Stage::CheckingMembership => kind == RequestKind::IsUserIn,
        Stage::ListingMembers => kind == RequestKind::UsersIn,
        Stage::ListingCommunities => kind == RequestKind::CommunityOf,
        Stage::Answered => true,
    }
}

/// One move of the machine: from a stage of the answer to a request of the given kind.
pub open spec fn transition(kind: RequestKind, stage: Stage, outcome: Outcome, after: Handling, step: Step) -> bool {

    &&& after.kind() == kind
    &&& if stage is Answered {
        finished(after, step, Response::Error(CommonError::Server))
    } else if outcome is Failed {
        finished(after, step, Response::Error(told_to_client(outcome->Failed_0)))
    } else {
        match (stage, outcome) {
            (Stage::FindingUser, Outcome::Users(users)) => if users.len() == 0 {
                finished(after, step, Response::Error(CommonError::Authenticate))
            } else if kind == RequestKind::Deauthentication {
                finished(after, step, Response::Deauthentication(users[0].shown()))
            } else {
                finished(after, step, Response::Authentication(users[0].shown()))
            },
            (Stage::NamingUser(name), Outcome::NewUserId(None)) => after.stage()
                == Stage::NamingUser(name) && step is GenerateUserId,
            (Stage::NamingUser(name), Outcome::NewUserId(Some(id))) => {
                &&& after.stage() is StoringUser
                &&& step == Step::StoreUser(User::made_of(id, name))
                &&& step matches Step::StoreUser(user)
                &&& user.id() == id
                &&& user.username() == name
            },
            (Stage::StoringUser, Outcome::UserRecord(None)) => missing(
                after,
                step,
                DatabaseError::Create,
            ),
            (Stage::StoringUser, Outcome::UserRecord(Some(user))) => finished(
                after,
                step,
                Response::CreateUser(user.shown()),
            ),
            (Stage::LoadingUser(_), Outcome::UserRecord(None)) => missing(
                after,
                step,
                DatabaseError::Read,
            ),
            (Stage::LoadingUser(purpose), Outcome::UserRecord(Some(user))) => match purpose {
                UserPurpose::Read => finished(after, step, Response::ReadUser(user.shown())),
                UserPurpose::Rename(name) => match username_verdict(name@) {
                    Err(error_value) => finished(
                        after,
                        step,
                        Response::Error(CommonError::User(error_value)),
                    ),
                    Ok(_) => {
                        &&& after.stage() is SavingUser
                        &&& step matches Step::SaveUser(renamed)
                        &&& renamed.id() == user.id()
                        &&& renamed.username().text() == name@
                    },
                },
                UserPurpose::Delete => after.stage() is RemovingUser && step == Step::RemoveUser(
                    user.id(),
                ),
                UserPurpose::Author(community_id, body) => {
                    &&& after.stage() == Stage::LoadingCommunity(
                        CommunityPurpose::Host(user.id(), body),
                    )
                    &&& step matches Step::LoadCommunity(id)
                    &&& id.key() == community_id@
                },
            },
            (Stage::SavingUser, Outcome::UserRecord(None)) => missing(
                after,
                step,
                DatabaseError::Update,
            ),
            (Stage::SavingUser, Outcome::UserRecord(Some(user))) => finished(
                after,
                step,
                Response::UpdateUser(user.shown()),
            ),
            (Stage::RemovingUser, Outcome::UserRecord(None)) => missing(
                after,
                step,
                DatabaseError::Delete,
            ),
            (Stage::RemovingUser, Outcome::UserRecord(Some(user))) => finished(
                after,
                step,
                Response::DeleteUser(user.shown()),
            ),
            (Stage::NamingCommunity(name), Outcome::NewCommunityId(None)) => after.stage()
                == Stage::NamingCommunity(name) && step is GenerateCommunityId,
            (Stage::NamingCommunity(name), Outcome::NewCommunityId(Some(id))) => {
                &&& after.stage() is StoringCommunity
                &&& step == Step::StoreCommunity(Community::made_of(id, name))
                &&& step matches Step::StoreCommunity(community)
                &&& community.id() == id
                &&& community.community_name() == name
            },
            (Stage::StoringCommunity, Outcome::CommunityRecord(None)) => missing(
                after,
                step,
                DatabaseError::Create,
            ),
            (Stage::StoringCommunity, Outcome::CommunityRecord(Some(community))) => finished(
                after,
                step,
                Response::CreateCommunity(community.shown()),
            ),
            (Stage::LoadingCommunity(_), Outcome::CommunityRecord(None)) => missing(
                after,
                step,
                DatabaseError::Read,
            ),
            (
                Stage::LoadingCommunity(purpose),
                Outcome::CommunityRecord(Some(community)),
            ) => match purpose {
                CommunityPurpose::Read => finished(
                    after,
                    step,
                    Response::ReadCommunity(community.shown()),
                ),
                CommunityPurpose::Rename(name) => match community_name_verdict(name@) {
                    Err(error_value) => finished(
                        after,
                        step,
                        Response::Error(CommonError::Community(error_value)),
                    ),
                    Ok(_) => {
                        &&& after.stage() is SavingCommunity
                        &&& step matches Step::SaveCommunity(renamed)
                        &&& renamed.id() == community.id()
                        &&& renamed.community_name().text() == name@
                    },
                },
                CommunityPurpose::Delete => after.stage() is RemovingCommunity && step
                    == Step::RemoveCommunity(community.id()),
                CommunityPurpose::Host(author, body) => match message_body_verdict(body@) {
                    Err(error_value) => finished(
                        after,
                        step,
                        Response::Error(CommonError::Message(error_value)),
                    ),
                    Ok(_) => {
                        &&& after.stage() matches Stage::NamingMessage(
                            user_id,
                            community_id,
                            message_body,
                        )
                        &&& user_id == author
                        &&& community_id == community.id()
                        &&& message_body.text() == body@
                        &&& step is GenerateMessageId
                    },
                },
            },
            (Stage::SavingCommunity, Outcome::CommunityRecord(None)) => missing(
                after,
                step,
                DatabaseError::Update,
            ),
            (Stage::SavingCommunity, Outcome::CommunityRecord(Some(community))) => finished(
                after,
                step,
                Response::UpdateCommunity(community.shown()),
            ),
            (Stage::RemovingCommunity, Outcome::CommunityRecord(None)) => missing(
                after,
                step,
                DatabaseError::Delete,
            ),
            (Stage::RemovingCommunity, Outcome::CommunityRecord(Some(community))) => finished(
                after,
                step,
                Response::DeleteCommunity(community.shown()),
            ),
            (
                Stage::NamingMessage(user_id, community_id, body),
                Outcome::NewMessageId(None),
            ) => after.stage() == Stage::NamingMessage(user_id, community_id, body) && step
                is GenerateMessageId,
            (
                Stage::NamingMessage(user_id, community_id, body),
                Outcome::NewMessageId(Some(id)),
            ) => {
                &&& after.stage() is StoringMessage
                &&& step == Step::StoreMessage(Message::made_of(id, user_id, community_id, body))
                &&& step matches Step::StoreMessage(message)
                &&& message.id() == id
                &&& message.user_id() == user_id
                &&& message.community_id() == community_id
                &&& message.message_body() == body
            },
            (Stage::StoringMessage, Outcome::MessageRecord(None)) => missing(
                after,
                step,
                DatabaseError::Create,
            ),
            (Stage::StoringMessage, Outcome::MessageRecord(Some(message))) => finished(
                after,
                step,
                Response::CreateMessage(message.shown()),
            ),
            (Stage::LoadingMessage(_), Outcome::MessageRecord(None)) => missing(
                after,
                step,
                DatabaseError::Read,
            ),
            (Stage::LoadingMessage(purpose), Outcome::MessageRecord(Some(message))) => match purpose {
                MessagePurpose::Read => finished(
                    after,
                    step,
                    Response::ReadMessage(message.shown()),
                ),
                MessagePurpose::Rewrite(body) => match message_body_verdict(body@) {
                    Err(error_value) => finished(
                        after,
                        step,
                        Response::Error(CommonError::Message(error_value)),
                    ),
                    Ok(_) => {
                        &&& after.stage() is SavingMessage
                        &&& step matches Step::SaveMessage(rewritten)
                        &&& rewritten.id() == message.id()
                        &&& rewritten.user_id() == message.user_id()
                        &&& rewritten.community_id() == message.community_id()
                        &&& rewritten.message_body().text() == body@
                    },
                },
                MessagePurpose::Delete => after.stage() is RemovingMessage && step
                    == Step::RemoveMessage(message.id()),
            },
            (Stage::SavingMessage, Outcome::MessageRecord(None)) => missing(
                after,
                step,
                DatabaseError::Update,
            ),
            (Stage::SavingMessage, Outcome::MessageRecord(Some(message))) => finished(
                after,
                step,
                Response::UpdateMessage(message.shown()),
            ),
            (Stage::RemovingMessage, Outcome::MessageRecord(None)) => missing(
                after,
                step,
                DatabaseError::Delete,
            ),
            (Stage::RemovingMessage, Outcome::MessageRecord(Some(message))) => finished(
                after,
                step,
                Response::DeleteMessage(message.shown()),
            ),
            (Stage::Joining, Outcome::Joined) => finished(after, step, Response::JoinCommunity),
            (Stage::Leaving, Outcome::Left(removed)) => if removed == 0 {
                missing(after, step, DatabaseError::Delete)
            } else {
                finished(after, step, Response::LeaveCommunity)
            },
            (Stage::CheckingMembership, Outcome::Membership(answer)) => finished(
                after,
                step,
                Response::IsUserIn(answer == Some(true)),
            ),
            (Stage::ListingMembers, Outcome::Members(ids)) => {
                &&& after.stage() is Answered
                &&& step matches Step::Respond(Response::UsersIn(keys))
                &&& user_keys(keys@, ids@)
            },
            (Stage::ListingCommunities, Outcome::Communities(ids)) => {
                &&& after.stage() is Answered
                &&& step matches Step::Respond(Response::CommunityOf(keys))
                &&& community_keys(keys@, ids@)
            },
            _ => finished(after, step, Response::Error(CommonError::Server)),
        }
    }
}

impl Handling {
    /// Each stage is one the kind of request goes through.
    #[verifier::type_invariant]
    pub closed spec fn well_formed(self) -> bool {
        fits(self.kind, self.stage)
    }

    /// The first stage and step for a request: requests that name a new user or
    /// community are refused at once when the name fails validation; the others start
    /// with the database step they need.
    pub open spec fn begins(request: Request, handling: Handling, step: Step) -> bool {
        &&& handling.kind() == kind_of(request)
        &&& match request {
            Request::Authentication(authentication) => {
                &&& handling.stage() is FindingUser
                &&& step matches Step::FindUsersByUsername(name)
                &&& name@ == authentication.authentication_token()
            },
            Request::Deauthentication(deauthentication) => {
                &&& handling.stage() is FindingUser
                &&& step matches Step::FindUsersByUsername(name)
                &&& name@ == deauthentication.authentication_token()
            },
            Request::CreateUser(create_user) => match username_verdict(create_user.username()) {
                Err(error_value) => finished(
                    handling,
                    step,
                    Response::Error(CommonError::User(error_value)),
                ),
                Ok(_) => {
                    &&& handling.stage() matches Stage::NamingUser(name)
                    &&& name.text() == create_user.username()
                    &&& step is GenerateUserId
                },
            },
            Request::ReadUser(read_user) => {
                &&& handling.stage() matches Stage::LoadingUser(UserPurpose::Read)
                &&& step matches Step::LoadUser(id)
                &&& id.key() == read_user.user_id()
            },
            Request::UpdateUser(update_user) => {
                &&& handling.stage() matches Stage::LoadingUser(UserPurpose::Rename(name))
                &&& name@ == update_user.username()
                &&& step matches Step::LoadUser(id)
                &&& id.key() == update_user.user_id()
            },
            Request::DeleteUser(delete_user) => {
                &&& handling.stage() matches Stage::LoadingUser(UserPurpose::Delete)
                &&& step matches Step::LoadUser(id)
                &&& id.key() == delete_user.user_id()
            },
            Request::CreateCommunity(create_community) => match community_name_verdict(
                create_community.community_name(),
            ) {
                Err(error_value) => finished(
                    handling,
                    step,
                    Response::Error(CommonError::Community(error_value)),
                ),
                Ok(_) => {
                    &&& handling.stage() matches Stage::NamingCommunity(name)
                    &&& name.text() == create_community.community_name()
                    &&& step is GenerateCommunityId
                },
            },
            Request::ReadCommunity(read_community) => {
                &&& handling.stage() matches Stage::LoadingCommunity(CommunityPurpose::Read)
                &&& step matches Step::LoadCommunity(id)
                &&& id.key() == read_community.community_id()
            },
            Request::UpdateCommunity(update_community) => {
                &&& handling.stage() matches Stage::LoadingCommunity(CommunityPurpose::Rename(name))
                &&& name@ == update_community.community_name()
                &&& step matches Step::LoadCommunity(id)
                &&& id.key() == update_community.community_id()
            },
            Request::DeleteCommunity(delete_community) => {
                &&& handling.stage() matches Stage::LoadingCommunity(CommunityPurpose::Delete)
                &&& step matches Step::LoadCommunity(id)
                &&& id.key() == delete_community.community_id()
            },
            Request::CreateMessage(create_message) => {
                &&& handling.stage() matches Stage::LoadingUser(
                    UserPurpose::Author(community_id, body),
                )
                &&& community_id@ == create_message.community_id()
                &&& body@ == create_message.message_body()
                &&& step matches Step::LoadUser(id)
                &&& id.key() == create_message.user_id()
            },
            Request::ReadMessage(read_message) => {
                &&& handling.stage() matches Stage::LoadingMessage(MessagePurpose::Read)
                &&& step matches Step::LoadMessage(id)
                &&& id.key() == read_message.message_id()
            },
            Request::UpdateMessage(update_message) => {
                &&& handling.stage() matches Stage::LoadingMessage(MessagePurpose::Rewrite(body))
                &&& body@ == update_message.message_body()
                &&& step matches Step::LoadMessage(id)
                &&& id.key() == update_message.message_id()
            },
            Request::DeleteMessage(delete_message) => {
                &&& handling.stage() matches Stage::LoadingMessage(MessagePurpose::Delete)
                &&& step matches Step::LoadMessage(id)
                &&& id.key() == delete_message.message_id()
            },
            Request::JoinCommunity(join_community) => {
                &&& handling.stage() is Joining
                &&& step matches Step::Join(user_id, community_id)
                &&& user_id.key() == join_community.user_id()
                &&& community_id.key() == join_community.community_id()
            },
            Request::LeaveCommunity(leave_community) => {
                &&& handling.stage() is Leaving
                &&& step matches Step::Leave(user_id, community_id)
                &&& user_id.key() == leave_community.user_id()
                &&& community_id.key() == leave_community.community_id()
            },
            Request::IsUserIn(is_user_in) => {
                &&& handling.stage() is CheckingMembership
                &&& step matches Step::CheckMembership(user_id, community_id)
                &&& user_id.key() == is_user_in.user_id()
                &&& community_id.key() == is_user_in.community_id()
            },
            Request::UsersIn(users_in) => {
                &&& handling.stage() is ListingMembers
                &&& step matches Step::ListMembers(community_id)
                &&& community_id.key() == users_in.community_id()
            },
            Request::CommunityOf(community_of) => {
                &&& handling.stage() is ListingCommunities
                &&& step matches Step::ListCommunities(user_id)
                &&& user_id.key() == community_of.user_id()
            },
        }
    }

    /// The next stage and step, given what came of the last step. A failure is told to
    /// the client (a database failure as `Server`); a record that the database does not
    /// give back is a database failure; a new name or body is validated once the record
    /// it goes into is loaded; a key that could not be drawn is drawn again; any other
    /// pairing of stage and outcome is answered with `Server`.
    pub open spec fn moves(self, outcome: Outcome, after: Handling, step: Step) -> bool {
        transition(self.kind(), self.stage(), outcome, after, step)
    }

    /// The request is answered with this response.
    fn finish(kind: RequestKind, response: Response) -> (next: (Handling, Step))
        ensures
            next.0.kind == kind,
            finished(next.0, next.1, response),
    {
        (Handling { kind, stage: Stage::Answered }, Step::Respond(response))
    }

    /// Goes on at the given stage with the given step.
    fn proceed(kind: RequestKind, stage: Stage, step: Step) -> (next: (Handling, Step))
        requires
            fits(kind, stage),
        ensures
            next.0.kind == kind,
            next.0.stage == stage,
            next.1 == step,
    {
        (Handling { kind, stage }, step)
    }

    /// Starts answering a request.
    pub fn start(request: Request) -> (started: (Handling, Step))
        ensures
            started.0.kind() == kind_of(request),
            Handling::begins(request, started.0, started.1),
            started.0.is_answered() <==> started.1 is Respond,
            started.1 matches Step::Respond(response) ==> answers(kind_of(request), response),
    {
        let kind = request.kind();
        match request {
            Request::Authentication(authentication) => Self::proceed(
                kind,
                Stage::FindingUser,
                Step::FindUsersByUsername(authentication.get_authentication_token().to_owned()),
            ),
            Request::Deauthentication(deauthentication) => Self::proceed(
                kind,
                Stage::FindingUser,
                Step::FindUsersByUsername(deauthentication.get_authentication_token().to_owned()),
            ),
            Request::CreateUser(create_user) => match Username::try_new(
                create_user.get_username(),
            ) {
                Ok(name) => Self::proceed(kind, Stage::NamingUser(name), Step::GenerateUserId),
                Err(error_value) => Self::finish(kind, Response::Error(error_value.into())),
            },
            Request::ReadUser(read_user) => Self::proceed(
                kind,
                Stage::LoadingUser(UserPurpose::Read),
                Step::LoadUser(UserID::from_key(read_user.get_user_id())),
            ),
            Request::UpdateUser(update_user) => Self::proceed(
                kind,
                Stage::LoadingUser(UserPurpose::Rename(update_user.get_username().to_owned())),
                Step::LoadUser(UserID::from_key(update_user.get_user_id())),
            ),
            Request::DeleteUser(delete_user) => Self::proceed(
                kind,
                Stage::LoadingUser(UserPurpose::Delete),
                Step::LoadUser(UserID::from_key(delete_user.get_user_id())),
            ),
            Request::CreateCommunity(create_community) => match CommunityName::try_new(
                create_community.get_community_name(),
            ) {
                Ok(name) => Self::proceed(
                    kind,
                    Stage::NamingCommunity(name),
                    Step::GenerateCommunityId,
                ),
                Err(error_value) => Self::finish(kind, Response::Error(error_value.into())),
            },
            Request::ReadCommunity(read_community) => Self::proceed(
                kind,
                Stage::LoadingCommunity(CommunityPurpose::Read),
                Step::LoadCommunity(CommunityID::from_key(read_community.get_community_id())),
            ),
            Request::UpdateCommunity(update_community) => Self::proceed(
                kind,
                Stage::LoadingCommunity(
                    CommunityPurpose::Rename(update_community.get_community_name().to_owned()),
                ),
                Step::LoadCommunity(CommunityID::from_key(update_community.get_community_id())),
            ),
            Request::DeleteCommunity(delete_community) => Self::proceed(
                kind,
                Stage::LoadingCommunity(CommunityPurpose::Delete),
                Step::LoadCommunity(CommunityID::from_key(delete_community.get_community_id())),
            ),
            Request::CreateMessage(create_message) => Self::proceed(
                kind,
                Stage::LoadingUser(
                    UserPurpose::Author(
                        create_message.get_community_id().to_owned(),
                        create_message.get_message_body().to_owned(),
                    ),
                ),
                Step::LoadUser(UserID::from_key(create_message.get_user_id())),
            ),
            Request::ReadMessage(read_message) => Self::proceed(
                kind,
                Stage::LoadingMessage(MessagePurpose::Read),
                Step::LoadMessage(MessageID::from_key(read_message.get_message_id())),
            ),
            Request::UpdateMessage(update_message) => Self::proceed(
                kind,
                Stage::LoadingMessage(
                    MessagePurpose::Rewrite(update_message.get_message_body().to_owned()),
                ),
                Step::LoadMessage(MessageID::from_key(update_message.get_message_id())),
            ),
            Request::DeleteMessage(delete_message) => Self::proceed(
                kind,
                Stage::LoadingMessage(MessagePurpose::Delete),
                Step::LoadMessage(MessageID::from_key(delete_message.get_message_id())),
            ),
            Request::JoinCommunity(join_community) => Self::proceed(
                kind,
                Stage::Joining,
                Step::Join(
                    UserID::from_key(join_community.get_user_id()),
                    CommunityID::from_key(join_community.get_community_id()),
                ),
            ),
            Request::LeaveCommunity(leave_community) => Self::proceed(
                kind,
                Stage::Leaving,
                Step::Leave(
                    UserID::from_key(leave_community.get_user_id()),
                    CommunityID::from_key(leave_community.get_community_id()),
                ),
            ),
            Request::IsUserIn(is_user_in) => Self::proceed(
                kind,
                Stage::CheckingMembership,
                Step::CheckMembership(
                    UserID::from_key(is_user_in.get_user_id()),
                    CommunityID::from_key(is_user_in.get_community_id()),
                ),
            ),
            Request::UsersIn(users_in) => Self::proceed(
                kind,
                Stage::ListingMembers,
                Step::ListMembers(CommunityID::from_key(users_in.get_community_id())),
            ),
            Request::CommunityOf(community_of) => Self::proceed(
                kind,
                Stage::ListingCommunities,
                Step::ListCommunities(UserID::from_key(community_of.get_user_id())),
            ),
        }
    }

    /// One move from a stage that works on user records.
    #[verifier::rlimit(50)]
    fn advance_user(kind: RequestKind, stage: Stage, outcome: Outcome) -> (next: (Handling, Step))
        requires
            fits(kind, stage),
            stage is NamingUser || stage is StoringUser || stage is LoadingUser || stage is SavingUser || stage is RemovingUser,
            !(outcome is Failed),
        ensures
            transition(kind, stage, outcome, next.0, next.1),
            next.0.kind == kind,
            next.0.is_answered() <==> next.1 is Respond,
            next.1 matches Step::Respond(response) ==> answers(kind, response),
            stage_rank(next.0.stage) < stage_rank(stage) || (is_missing_key(outcome)
                && next.0.stage == stage),
    {
        match (stage, outcome) {
            (Stage::NamingUser(name), Outcome::NewUserId(found)) => match found {
                Some(id) => Self::proceed(
                    kind,
                    Stage::StoringUser,
                    Step::StoreUser(User::from_parts(id, name)),
                ),
                None => Self::proceed(kind, Stage::NamingUser(name), Step::GenerateUserId),
            },
            (Stage::StoringUser, Outcome::UserRecord(record)) => match record {
                Some(user) => Self::finish(kind, Response::CreateUser(user.into())),
                None => Self::finish(
                    kind,
                    Response::Error(Error::Database(DatabaseError::Create).into()),
                ),
            },
            (Stage::LoadingUser(purpose), Outcome::UserRecord(record)) => match record {
                None => Self::finish(
                    kind,
                    Response::Error(Error::Database(DatabaseError::Read).into()),
                ),
                Some(user) => match purpose {
                    UserPurpose::Read => Self::finish(kind, Response::ReadUser(user.into())),
                    UserPurpose::Rename(name) => match user.update_username(name.as_str()) {
                        Ok(renamed) => Self::proceed(
                            kind,
                            Stage::SavingUser,
                            Step::SaveUser(renamed),
                        ),
                        Err(error_value) => Self::finish(
                            kind,
                            Response::Error(error_value.into()),
                        ),
                    },
                    UserPurpose::Delete => {
                        let id = user.get_id().clone();
                        Self::proceed(kind, Stage::RemovingUser, Step::RemoveUser(id))
                    },
                    UserPurpose::Author(community_id, body) => {
                        let author = user.get_id().clone();
                        Self::proceed(
                            kind,
                            Stage::LoadingCommunity(CommunityPurpose::Host(author, body)),
                            Step::LoadCommunity(CommunityID::from_key(community_id.as_str())),
                        )
                    },
                },
            },
            (Stage::SavingUser, Outcome::UserRecord(record)) => match record {
                Some(user) => Self::finish(kind, Response::UpdateUser(user.into())),
                None => Self::finish(
                    kind,
                    Response::Error(Error::Database(DatabaseError::Update).into()),
                ),
            },
            (Stage::RemovingUser, Outcome::UserRecord(record)) => match record {
                Some(user) => Self::finish(kind, Response::DeleteUser(user.into())),
                None => Self::finish(
                    kind,
                    Response::Error(Error::Database(DatabaseError::Delete).into()),
                ),
            },
            _ => Self::finish(kind, Response::Error(CommonError::Server)),
        }
    }

    /// One move from a stage that works on community records.
    #[verifier::rlimit(50)]
    fn advance_community(kind: RequestKind, stage: Stage, outcome: Outcome) -> (next: (Handling, Step))
        requires
            fits(kind, stage),
            stage is NamingCommunity || stage is StoringCommunity || stage is LoadingCommunity || stage is SavingCommunity || stage is RemovingCommunity,
            !(outcome is Failed),
        ensures
            transition(kind, stage, outcome, next.0, next.1),
            next.0.kind == kind,
            next.0.is_answered() <==> next.1 is Respond,
            next.1 matches Step::Respond(response) ==> answers(kind, response),
            stage_rank(next.0.stage) < stage_rank(stage) || (is_missing_key(outcome)
                && next.0.stage == stage),
    {
        match (stage, outcome) {
            (Stage::NamingCommunity(name), Outcome::NewCommunityId(found)) => match found {
                Some(id) => Self::proceed(
                    kind,
                    Stage::StoringCommunity,
                    Step::StoreCommunity(Community::from_parts(id, name)),
                ),
                None => Self::proceed(
                    kind,
                    Stage::NamingCommunity(name),
                    Step::GenerateCommunityId,
                ),
            },
            (Stage::StoringCommunity, Outcome::CommunityRecord(record)) => match record {
                Some(community) => Self::finish(
                    kind,
                    Response::CreateCommunity(community.into()),
                ),
                None => Self::finish(
                    kind,
                    Response::Error(Error::Database(DatabaseError::Create).into()),
                ),
            },
            (Stage::LoadingCommunity(purpose), Outcome::CommunityRecord(record)) => match record {
                None => Self::finish(
                    kind,
                    Response::Error(Error::Database(DatabaseError::Read).into()),
                ),
                Some(community) => match purpose {
                    CommunityPurpose::Read => Self::finish(
                        kind,
                        Response::ReadCommunity(community.into()),
                    ),
                    CommunityPurpose::Rename(name) => match community.update_name(name.as_str()) {
                        Ok(renamed) => Self::proceed(
                            kind,
                            Stage::SavingCommunity,
                            Step::SaveCommunity(renamed),
                        ),
                        Err(error_value) => Self::finish(
                            kind,
                            Response::Error(error_value.into()),
                        ),
                    },
                    CommunityPurpose::Delete => {
                        let id = community.get_id().clone();
                        Self::proceed(kind, Stage::RemovingCommunity, Step::RemoveCommunity(id))
                    },
                    CommunityPurpose::Host(author, body) => match MessageBody::try_new(
                        body.as_str(),
                    ) {
                        Ok(message_body) => {
                            let community_id = community.get_id().clone();
                            Self::proceed(
                                kind,
                                Stage::NamingMessage(author, community_id, message_body),
                                Step::GenerateMessageId,
                            )
                        },
                        Err(error_value) => Self::finish(
                            kind,
                            Response::Error(error_value.into()),
                        ),
                    },
                },
            },
            (Stage::SavingCommunity, Outcome::CommunityRecord(record)) => match record {
                Some(community) => Self::finish(
                    kind,
                    Response::UpdateCommunity(community.into()),
                ),
                None => Self::finish(
                    kind,
                    Response::Error(Error::Database(DatabaseError::Update).into()),
                ),
            },
            (Stage::RemovingCommunity, Outcome::CommunityRecord(record)) => match record {
                Some(community) => Self::finish(
                    kind,
                    Response::DeleteCommunity(community.into()),
                ),
                None => Self::finish(
                    kind,
                    Response::Error(Error::Database(DatabaseError::Delete).into()),
                ),
            },
            _ => Self::finish(kind, Response::Error(CommonError::Server)),
        }
    }

    /// One move from a stage that works on message records.
    #[verifier::rlimit(50)]
    fn advance_message(kind: RequestKind, stage: Stage, outcome: Outcome) -> (next: (Handling, Step))
        requires
            fits(kind, stage),
            stage is NamingMessage || stage is StoringMessage || stage is LoadingMessage || stage is SavingMessage || stage is RemovingMessage,
            !(outcome is Failed),
        ensures
            transition(kind, stage, outcome, next.0, next.1),
            next.0.kind == kind,
            next.0.is_answered() <==> next.1 is Respond,
            next.1 matches Step::Respond(response) ==> answers(kind, response),
            stage_rank(next.0.stage) < stage_rank(stage) || (is_missing_key(outcome)
                && next.0.stage == stage),
    {
        match (stage, outcome) {
            (
                Stage::NamingMessage(user_id, community_id, body),
                Outcome::NewMessageId(found),
            ) => match found {
                Some(id) => Self::proceed(
                    kind,
                    Stage::StoringMessage,
                    Step::StoreMessage(Message::from_parts(id, user_id, community_id, body)),
                ),
                None => Self::proceed(
                    kind,
                    Stage::NamingMessage(user_id, community_id, body),
                    Step::GenerateMessageId,
                ),
            },
            (Stage::StoringMessage, Outcome::MessageRecord(record)) => match record {
                Some(message) => Self::finish(kind, Response::CreateMessage(message.into())),
                None => Self::finish(
                    kind,
                    Response::Error(Error::Database(DatabaseError::Create).into()),
                ),
            },
            (Stage::LoadingMessage(purpose), Outcome::MessageRecord(record)) => match record {
                None => Self::finish(
                    kind,
                    Response::Error(Error::Database(DatabaseError::Read).into()),
                ),
                Some(message) => match purpose {
                    MessagePurpose::Read => Self::finish(
                        kind,
                        Response::ReadMessage(message.into()),
                    ),
                    MessagePurpose::Rewrite(body) => match message.set_message_body(
                        body.as_str(),
                    ) {
                        Ok(rewritten) => Self::proceed(
                            kind,
                            Stage::SavingMessage,
                            Step::SaveMessage(rewritten),
                        ),
                        Err(error_value) => Self::finish(
                            kind,
                            Response::Error(error_value.into()),
                        ),
                    },
                    MessagePurpose::Delete => {
                        let id = message.get_id().clone();
                        Self::proceed(kind, Stage::RemovingMessage, Step::RemoveMessage(id))
                    },
                },
            },
            (Stage::SavingMessage, Outcome::MessageRecord(record)) => match record {
                Some(message) => Self::finish(kind, Response::UpdateMessage(message.into())),
                None => Self::finish(
                    kind,
                    Response::Error(Error::Database(DatabaseError::Update).into()),
                ),
            },
            (Stage::RemovingMessage, Outcome::MessageRecord(record)) => match record {
                Some(message) => Self::finish(kind, Response::DeleteMessage(message.into())),
                None => Self::finish(
                    kind,
                    Response::Error(Error::Database(DatabaseError::Delete).into()),
                ),
            },
            _ => Self::finish(kind, Response::Error(CommonError::Server)),
        }
    }

    /// One move from a stage that works on logins and memberships.
    #[verifier::rlimit(50)]
    fn advance_other(kind: RequestKind, stage: Stage, outcome: Outcome) -> (next: (Handling, Step))
        requires
            fits(kind, stage),
            stage is FindingUser || stage is Joining || stage is Leaving || stage is CheckingMembership || stage is ListingMembers || stage is ListingCommunities,
            !(outcome is Failed),
        ensures
            transition(kind, stage, outcome, next.0, next.1),
            next.0.kind == kind,
            next.0.is_answered() <==> next.1 is Respond,
            next.1 matches Step::Respond(response) ==> answers(kind, response),
            stage_rank(next.0.stage) < stage_rank(stage) || (is_missing_key(outcome)
                && next.0.stage == stage),
    {
        match (stage, outcome) {
            (Stage::FindingUser, Outcome::Users(users)) => {
                match authenticated_user(users) {
                    Err(error_value) => Self::finish(kind, Response::Error(error_value.into())),
                    Ok(user) => if kind == RequestKind::Deauthentication {
                        Self::finish(kind, Response::Deauthentication(user.into()))
                    } else {
                        Self::finish(kind, Response::Authentication(user.into()))
                    },
                }
            },
            (Stage::Joining, Outcome::Joined) => Self::finish(kind, Response::JoinCommunity),
            (Stage::Leaving, Outcome::Left(removed)) => {
                if removed == 0 {
                    Self::finish(
                        kind,
                        Response::Error(Error::Database(DatabaseError::Delete).into()),
                    )
                } else {
                    Self::finish(kind, Response::LeaveCommunity)
                }
            },
            (Stage::CheckingMembership, Outcome::Membership(answer)) => {
                let member = match answer {
                    Some(member) => member,
                    None => false,
                };
                Self::finish(kind, Response::IsUserIn(member))
            },
            (Stage::ListingMembers, Outcome::Members(ids)) => Self::finish(
                kind,
                Response::UsersIn(user_key_strings(&ids)),
            ),
            (Stage::ListingCommunities, Outcome::Communities(ids)) => Self::finish(
                kind,
                Response::CommunityOf(community_key_strings(&ids)),
            ),
            _ => Self::finish(kind, Response::Error(CommonError::Server)),
        }
    }

    /// Goes on, given what came of the last step.
    pub fn advance(self, outcome: Outcome) -> (next: (Handling, Step))
        ensures
            self.moves(outcome, next.0, next.1),
            next.0.kind() == self.kind(),
            next.0.is_answered() <==> next.1 is Respond,
            next.1 matches Step::Respond(response) ==> answers(self.kind(), response),
            !self.is_answered() ==> next.0.rank() < self.rank() || (is_missing_key(outcome)
                && next.0 == self),
    {
        proof {
            use_type_invariant(&self);
        }
        let Handling { kind, stage } = self;
        if let Stage::Answered = stage {
            return Self::finish(kind, Response::Error(CommonError::Server));
        }
        if let Outcome::Failed(error_value) = outcome {
            return Self::finish(kind, Response::Error(error_value.into()));
        }
        match stage {
            Stage::NamingUser(_) | Stage::StoringUser | Stage::LoadingUser(_) | Stage::SavingUser
            | Stage::RemovingUser => Self::advance_user(kind, stage, outcome),
            Stage::NamingCommunity(_) | Stage::StoringCommunity | Stage::LoadingCommunity(_)
            | Stage::SavingCommunity | Stage::RemovingCommunity => Self::advance_community(
                kind,
                stage,
                outcome,
            ),
            Stage::NamingMessage(_, _, _) | Stage::StoringMessage | Stage::LoadingMessage(_)
            | Stage::SavingMessage | Stage::RemovingMessage => Self::advance_message(
                kind,
                stage,
                outcome,
            ),
            _ => Self::advance_other(kind, stage, outcome),
        }
    }

    /// The kind of request being answered.
    pub closed spec fn kind(self) -> RequestKind {
        self.kind
    }

    /// At most how many steps remain, not counting fresh keys that could not be drawn.
    pub open spec fn rank(self) -> nat {
        stage_rank(self.stage())
    }

    /// The request is answered.
    pub open spec fn is_answered(self) -> bool {
        self.stage() is Answered
    }

    /// Where the answer stands.
    pub closed spec fn stage(self) -> Stage {
        self.stage
    }
}

/// The first move of the answer to a request: a stage of that request's kind, and a
/// response, if the request is answered at once, that answers it.
pub proof fn law_start(request: Request, handling: Handling, step: Step)
    requires
        Handling::begins(request, handling, step),
    ensures
        handling.kind() == kind_of(request),
        handling.well_formed(),
        handling.is_answered() <==> step is Respond,
        step matches Step::Respond(response) ==> answers(kind_of(request), response),
{
}

/// Every move keeps the kind of request and a stage of that kind, answers the request with
/// a response of its kind or an error exactly when it names a response, and, until the
/// request is answered, brings the answer nearer: the number of remaining steps falls,
/// except when a fresh key could not be drawn and the stage stays as it was. So every
/// request is answered after at most `rank` moves that bring what they asked for.
#[verifier::rlimit(100)]
pub proof fn law_moves_progress(handling: Handling, outcome: Outcome, after: Handling, step: Step)
    requires
        handling.well_formed(),
        handling.moves(outcome, after, step),
    ensures
        after.kind() == handling.kind(),
        after.well_formed(),
        after.is_answered() <==> step is Respond,
        step matches Step::Respond(response) ==> answers(handling.kind(), response),
        !handling.is_answered() ==> after.rank() < handling.rank() || (is_missing_key(outcome)
            && after.stage() == handling.stage()),
{
}

} // verus!

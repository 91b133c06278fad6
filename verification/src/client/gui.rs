//! What the client's window shows and how it changes: the page, the logged-in user, the
//! connection status and the chat.

use vstd::prelude::*;

use crate::client::network::NetworkEvent;
use crate::community::Community;
use crate::error::message::Error as MessageError;
use crate::message::Message;
use crate::request::message::CreateMessage;
use crate::user::User;
use crate::validate::{message_body_verdict, validate_message_body};

verus! {

/// The pages of the window.
#[derive(Debug, Clone, Copy, PartialEq, Eq, Structural)]
pub enum Route {
    Register,
    Login,
    Chat,
}

/// The chat page: its community, the users listed and the messages shown.
pub struct Chat {
    community: Community,
    users: Vec<User>,
    chat_messages: Vec<Message>,
}

impl Chat {
    pub closed spec fn community(&self) -> Community {
        self.community
    }

    pub closed spec fn users(&self) -> Seq<User> {
        self.users@
    }

    pub closed spec fn chat_messages(&self) -> Seq<Message> {
        self.chat_messages@
    }

    /// The chat of the default community, with no users and no messages yet.
    pub fn new() -> (chat: Chat)
        ensures
            chat.community().community_id() == "oko1k3hk3r21dhqa20az"@,
            chat.community().community_name() == "The Community"@,
            chat.users().len() == 0,
            chat.chat_messages().len() == 0,
    {
        Chat {
            community: Community::new("oko1k3hk3r21dhqa20az", "The Community"),
            users: Vec::new(),
            chat_messages: Vec::new(),
        }
    }

    /// Shows one more message, after the others.
    pub fn push_message(&mut self, message: Message)
        ensures
            final(self).chat_messages() == old(self).chat_messages().push(message),
            final(self).users() == old(self).users(),
            final(self).community() == old(self).community(),
    {
        self.chat_messages.push(message);
    }

    /// Lists one more user, after the others.
    pub fn push_user(&mut self, user: &User)
        ensures
            final(self).users() == old(self).users().push(*user),
            final(self).chat_messages() == old(self).chat_messages(),
            final(self).community() == old(self).community(),
    {
        self.users.push(user.clone());
    }

    pub fn get_community(&self) -> (community: &Community)
        ensures
            *community == self.community(),
    {
        &self.community
    }

    pub fn get_users(&self) -> (users: &Vec<User>)
        ensures
            users@ == self.users(),
    {
        &self.users
    }

    pub fn get_chat_messages(&self) -> (chat_messages: &Vec<Message>)
        ensures
            chat_messages@ == self.chat_messages(),
    {
        &self.chat_messages
    }
}

/// The state of the window.
pub struct Yumush {
    user: Option<User>,
    current_route: Route,
    chat: Chat,
    connected: bool,
}

impl Yumush {
    pub closed spec fn user(&self) -> Option<User> {
        self.user
    }

    pub closed spec fn current_route(&self) -> Route {
        self.current_route
    }

    pub closed spec fn chat(&self) -> Chat {
        self.chat
    }

    pub closed spec fn connected(&self) -> bool {
        self.connected
    }

    /// The window as it opens: on the login page, nobody logged in, not connected.
    pub fn new() -> (yumush: Yumush)
        ensures
            yumush.user() is None,
            yumush.current_route() == Route::Login,
            yumush.connected() == false,
            yumush.chat().community().community_id() == "oko1k3hk3r21dhqa20az"@,
            yumush.chat().community().community_name() == "The Community"@,
            yumush.chat().users().len() == 0,
            yumush.chat().chat_messages().len() == 0,
    {
        Yumush { user: None, current_route: Route::Login, chat: Chat::new(), connected: false }
    }

    /// Logs a user in: the user is listed in the chat and becomes the current user.
    pub fn set_user(&mut self, user: User)
        ensures
            final(self).user() == Some(user),
            final(self).chat().users() == old(self).chat().users().push(user),
            final(self).chat().chat_messages() == old(self).chat().chat_messages(),
            final(self).chat().community() == old(self).chat().community(),
            final(self).current_route() == old(self).current_route(),
            final(self).connected() == old(self).connected(),
    {
        self.chat.push_user(&user);
        self.user = Some(user);
    }

    pub fn get_user(&self) -> (user: Option<User>)
        ensures
            user == self.user(),
    {
        match &self.user {
            Some(user) => Some(user.clone()),
            None => None,
        }
    }

    /// Logs the current user out.
    pub fn reset_user(&mut self)
        ensures
            final(self).user() is None,
            final(self).chat() == old(self).chat(),
            final(self).current_route() == old(self).current_route(),
            final(self).connected() == old(self).connected(),
    {
        self.user = None;
    }

    /// The name of the current user, if any.
    pub fn get_username(&self) -> (username: Option<&str>)
        ensures
            match self.user() {
                Some(user) => username matches Some(name) && name@ == user.username(),
                None => username is None,
            },
    {
        match &self.user {
            Some(user) => Some(user.get_username()),
            None => None,
        }
    }

    pub fn is_logged_in(&self) -> (logged_in: bool)
        ensures
            logged_in == self.user() is Some,
    {
        self.user.is_some()
    }

    pub fn is_connected(&self) -> (connected: bool)
        ensures
            connected == self.connected(),
    {
        self.connected
    }

    pub fn get_current_route(&self) -> (route: Route)
        ensures
            route == self.current_route(),
    {
        self.current_route
    }

    pub fn get_chat(&self) -> (chat: &Chat)
        ensures
            *chat == self.chat(),
    {
        &self.chat
    }

    /// Shows another page.
    pub fn change_page(&mut self, new_route: Route)
        ensures
            final(self).current_route() == new_route,
            final(self).user() == old(self).user(),
            final(self).chat() == old(self).chat(),
            final(self).connected() == old(self).connected(),
    {
        self.current_route = new_route;
    }

    /// Follows the connection: connected on `Connected`; disconnected and logged out on a
    /// failed or lost connection; a received message is shown after the others.
    pub fn handle_network_event(&mut self, event: NetworkEvent)
        ensures
            final(self).current_route() == old(self).current_route(),
            match event {
                NetworkEvent::Connected(_) => {
                    &&& final(self).connected()
                    &&& final(self).user() == old(self).user()
                    &&& final(self).chat() == old(self).chat()
                },
                NetworkEvent::ConnectionFailed(_) | NetworkEvent::Disconnected(_) => {
                    &&& !final(self).connected()
                    &&& final(self).user() is None
                    &&& final(self).chat() == old(self).chat()
                },
                NetworkEvent::MessageReceived(message) => {
                    &&& final(self).connected() == old(self).connected()
                    &&& final(self).user() == old(self).user()
                    &&& final(self).chat().chat_messages() == old(self).chat().chat_messages().push(
                        message,
                    )
                    &&& final(self).chat().users() == old(self).chat().users()
                    &&& final(self).chat().community() == old(self).chat().community()
                },
            },
    {
        match event {
            NetworkEvent::Connected(_) => {
                self.connected = true;
            },
            NetworkEvent::ConnectionFailed(_) | NetworkEvent::Disconnected(_) => {
                self.connected = false;
                self.reset_user();
            },
            NetworkEvent::MessageReceived(message) => {
                self.chat.push_message(message);
            },
        }
    }

    /// The message to send for what was typed: refused when the body fails
    /// `validate_message_body`; nothing when nobody is logged in; otherwise a message by
    /// the current user to the chat's community.
    pub fn compose_message(&self, message_body: &str) -> (result: Result<
        Option<CreateMessage>,
        MessageError,
    >)
        ensures
            match message_body_verdict(message_body@) {
                Err(error_value) => result == Err::<Option<CreateMessage>, MessageError>(
                    error_value,
                ),
                Ok(_) => match self.user() {
                    None => result == Ok::<Option<CreateMessage>, MessageError>(None),
                    Some(user) => {
                        &&& result matches Ok(Some(create_message))
                        &&& create_message.user_id() == user.user_id()
                        &&& create_message.community_id() == self.chat().community().community_id()
                        &&& create_message.message_body() == message_body@
                    },
                },
            },
    {
        match validate_message_body(message_body) {
            Err(error_value) => Err(error_value),
            Ok(()) => match &self.user {
                None => Ok(None),
                Some(user) => match CreateMessage::new(
                    user.get_user_id(),
                    self.chat.community.get_community_id(),
                    message_body,
                ) {
                    Ok(create_message) => Ok(Some(create_message)),
                    Err(_) => Ok(None),
                },
            },
        }
    }
}

} // verus!

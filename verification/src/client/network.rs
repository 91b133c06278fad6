//! The client's session with the server: what it tells the window, and which login it
//! renews after a reconnection.

use vstd::prelude::*;

use crate::error::Error;
use crate::message::Message;
use crate::user::User;

verus! {

/// What the connection tells the window.
#[derive(Debug)]
pub enum NetworkEvent {
    /// Connected; with the user when a remembered login was renewed.
    Connected(Option<User>),
    /// A connection attempt failed.
    ConnectionFailed(Error),
    /// The connection was lost.
    Disconnected(Error),
    /// A message was pushed by the server.
    MessageReceived(Message),
}

/// The login the session remembers across reconnections.
pub struct Session {
    authentication_token: Option<String>,
}

impl Session {
    /// The remembered login token, if any.
    pub closed spec fn token(&self) -> Option<Seq<char>> {
        match self.authentication_token {
            Some(token) => Some(token@),
            None => None,
        }
    }

    /// A session that remembers no login.
    pub fn new() -> (session: Session)
        ensures
            session.token() is None,
    {
        Session { authentication_token: None }
    }

    /// A login was asked for: its token is remembered, replacing any other.
    pub fn note_authentication(&mut self, authentication_token: &str)
        ensures
            final(self).token() == Some(authentication_token@),
    {
        self.authentication_token = Some(authentication_token.to_owned());
    }

    /// A logout was asked for: no login is remembered.
    pub fn note_deauthentication(&mut self)
        ensures
            final(self).token() is None,
    {
        self.authentication_token = None;
    }

    /// After connecting, the login to renew: the remembered token, if any.
    pub fn renewal(&self) -> (token: Option<String>)
        ensures
            match token {
                Some(token) => self.token() == Some(token@),
                None => self.token() is None,
            },
    {
        match &self.authentication_token {
            Some(token) => Some(token.clone()),
            None => None,
        }
    }

    /// The outcome of renewing the login: on failure the login is forgotten; the user
    /// logged in, if any, goes into the `Connected` event.
    pub fn note_renewal(&mut self, outcome: Result<User, Error>) -> (event: NetworkEvent)
        ensures
            match outcome {
                Ok(user) => final(self).token() == old(self).token() && event
                    == NetworkEvent::Connected(Some(user)),
                Err(_) => final(self).token() is None && event == NetworkEvent::Connected(None),
            },
    {
        match outcome {
            Ok(user) => NetworkEvent::Connected(Some(user)),
            Err(_) => {
                self.authentication_token = None;
                NetworkEvent::Connected(None)
            },
        }
    }
}

} // verus!

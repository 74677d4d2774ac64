//! Identifiers, users and conversations.
use vstd::prelude::*;

verus! {

/// Integer type used for every numeric wire field.
pub type Integer = i64;

/// Unit value that only ever stands for a `true` flag on the wire.
#[derive(Debug, Clone, Copy, PartialEq, Eq, Structural)]
pub struct True;

/// Identifier of a message inside its conversation.
#[derive(Debug, Clone, Copy, PartialEq, Eq, PartialOrd, Ord, Hash, Structural)]
pub struct MessageId(pub Integer);

/// Identifier of a user.
#[derive(Debug, Clone, Copy, PartialEq, Eq, PartialOrd, Ord, Hash, Structural)]
pub struct UserId(pub Integer);

/// A user or bot.
#[derive(Debug, PartialEq)]
pub struct User {
    pub id: UserId,
    pub first_name: String,
    pub last_name: Option<String>,
    pub username: Option<String>,
}

/// Copies an optional string.
pub fn copy_opt_string(s: &Option<String>) -> (r: Option<String>)
    ensures
        r == *s,
{
    match s {
        Some(v) => Some(v.clone()),
        None => None,
    }
}

impl Clone for User {
    fn clone(&self) -> (r: Self)
        ensures
            r == *self,
    {
        User {
            id: self.id,
            first_name: self.first_name.clone(),
            last_name: copy_opt_string(&self.last_name),
            username: copy_opt_string(&self.username),
        }
    }
}

/// A basic group.
#[derive(Debug, PartialEq)]
pub struct Group {
    pub id: Integer,
    pub title: String,
}

impl Clone for Group {
    fn clone(&self) -> (r: Self)
        ensures
            r == *self,
    {
        Group { id: self.id, title: self.title.clone() }
    }
}

/// A supergroup.
#[derive(Debug, PartialEq)]
pub struct Supergroup {
    pub id: Integer,
    pub title: String,
    pub username: Option<String>,
}

impl Clone for Supergroup {
    fn clone(&self) -> (r: Self)
        ensures
            r == *self,
    {
        Supergroup { id: self.id, title: self.title.clone(), username: copy_opt_string(&self.username) }
    }
}

/// A channel.
#[derive(Debug, PartialEq)]
pub struct Channel {
    pub id: Integer,
    pub title: String,
    pub username: Option<String>,
}

impl Clone for Channel {
    fn clone(&self) -> (r: Self)
        ensures
            r == *self,
    {
        Channel { id: self.id, title: self.title.clone(), username: copy_opt_string(&self.username) }
    }
}

/// A conversation: one of the four kinds of chat.
#[derive(Debug, PartialEq)]
pub enum Chat {
    Private(User),
    Group(Group),
    Supergroup(Supergroup),
    Channel(Channel),
}

impl Clone for Chat {
    fn clone(&self) -> (r: Self)
        ensures
            r == *self,
    {
        match self {
            Chat::Private(u) => Chat::Private(u.clone()),
            Chat::Group(g) => Chat::Group(g.clone()),
            Chat::Supergroup(g) => Chat::Supergroup(g.clone()),
            Chat::Channel(c) => Chat::Channel(c.clone()),
        }
    }
}

/// Copies an optional user.
pub fn copy_opt_user(u: &Option<User>) -> (r: Option<User>)
    ensures
        r == *u,
{
    match u {
        Some(v) => Some(v.clone()),
        None => None,
    }
}

/// Standing of a member in a chat.
#[derive(Debug, Clone, Copy, PartialEq, Eq, Structural)]
pub enum ChatMemberStatus {
    Creator,
    Administrator,
    Member,
    Restricted,
    Left,
    Kicked,
}

/// A member of a chat and their standing.
#[derive(Debug, Clone, PartialEq)]
pub struct ChatMember {
    pub user: User,
    pub status: ChatMemberStatus,
}

/// A change of the bot's own membership in a chat.
#[derive(Debug, Clone, PartialEq)]
pub struct MyChatMember {
    pub chat: Chat,
    pub from: User,
    pub date: Integer,
    pub old_chat_member: ChatMember,
    pub new_chat_member: ChatMember,
}

} // verus!

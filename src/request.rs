//! The request for a user's profile pictures, and the conversions to the
//! identifiers that requests take.
use vstd::prelude::*;

use crate::chat::{Integer, MessageId, User, UserId};
use crate::message::Message;

verus! {

/// Values that name a user.
pub trait ToUserId {
    /// The user the value names.
    spec fn user_id_of(&self) -> UserId;

    fn to_user_id(&self) -> (r: UserId)
        ensures
            r == self.user_id_of(),
    ;
}

impl ToUserId for UserId {
    open spec fn user_id_of(&self) -> UserId {
        *self
    }

    fn to_user_id(&self) -> (r: UserId) {
        *self
    }
}

impl ToUserId for User {
    open spec fn user_id_of(&self) -> UserId {
        self.id
    }

    fn to_user_id(&self) -> (r: UserId) {
        self.id
    }
}

/// Values that name a message.
pub trait ToMessageId {
    /// The message the value names.
    spec fn message_id_of(&self) -> MessageId;

    fn to_message_id(&self) -> (r: MessageId)
        ensures
            r == self.message_id_of(),
    ;
}

impl ToMessageId for MessageId {
    open spec fn message_id_of(&self) -> MessageId {
        *self
    }

    fn to_message_id(&self) -> (r: MessageId) {
        *self
    }
}

impl ToMessageId for Message {
    open spec fn message_id_of(&self) -> MessageId {
        self.id
    }

    fn to_message_id(&self) -> (r: MessageId) {
        self.id
    }
}

/// Request for a list of a user's profile pictures.
#[derive(Debug, Clone, Copy, PartialEq, Eq, Structural)]
pub struct GetUserProfilePhotos {
    pub user_id: UserId,
    /// Number of the first photo to return.
    pub offset: Option<Integer>,
    /// How many photos to return at most.
    pub limit: Option<Integer>,
}

impl GetUserProfilePhotos {
    /// The wire name of the method.
    pub fn name() -> (r: &'static str)
        ensures
            r@ == "getUserProfilePhotos"@,
    {
        "getUserProfilePhotos"
    }

    /// A request for the photos of `user`, with no offset and no limit.
    pub fn new<U: ToUserId>(user: &U) -> (r: Self)
        ensures
            r == (GetUserProfilePhotos { user_id: user.user_id_of(), offset: None, limit: None }),
    {
        GetUserProfilePhotos { user_id: user.to_user_id(), offset: None, limit: None }
    }

    /// The same request, starting at photo `offset`.
    pub fn offset(self, offset: Integer) -> (r: Self)
        ensures
            r == (GetUserProfilePhotos { offset: Some(offset), ..self }),
    {
        GetUserProfilePhotos { offset: Some(offset), ..self }
    }

    /// The same request, returning at most `limit` photos.
    pub fn limit(self, limit: Integer) -> (r: Self)
        ensures
            r == (GetUserProfilePhotos { limit: Some(limit), ..self }),
    {
        GetUserProfilePhotos { limit: Some(limit), ..self }
    }
}

/// Values for which a profile-photo request can be made.
pub trait CanGetUserProfilePhotos {
    /// The user the request is for.
    spec fn photos_user_of(&self) -> UserId;

    fn get_user_profile_photos(&self) -> (r: GetUserProfilePhotos)
        ensures
            r == (GetUserProfilePhotos { user_id: self.photos_user_of(), offset: None, limit: None }),
    ;
}

impl<U: ToUserId> CanGetUserProfilePhotos for U {
    open spec fn photos_user_of(&self) -> UserId {
        self.user_id_of()
    }

    fn get_user_profile_photos(&self) -> (r: GetUserProfilePhotos) {
        GetUserProfilePhotos::new(self)
    }
}

} // verus!

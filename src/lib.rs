//! Normalisation of flat message records into a tagged domain model.
pub mod chat;
pub mod entity;
pub mod error;
pub mod media;
pub mod message;
pub mod request;

pub use chat::{
    Channel, Chat, ChatMember, ChatMemberStatus, Group, Integer, MessageId, MyChatMember, Supergroup,
    True, User, UserId,
};
pub use entity::{decode_entity, MessageEntity, MessageEntityKind, RawMessageEntity};
pub use error::DecodeError;
pub use media::{
    Audio, Contact, Document, File, Location, PhotoSize, Sticker, UserProfilePhotos, Venue, Video, Voice,
};
pub use message::{
    classify, decode_forward, decode_message, ContentSlot, Forward, ForwardFrom, Message, MessageKind, RawMessage,
};
pub use request::{CanGetUserProfilePhotos, GetUserProfilePhotos, ToMessageId, ToUserId};

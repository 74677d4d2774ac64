//! Messages: the flat wire record, the tagged domain model, and the
//! normalisation from one to the other.
use vstd::prelude::*;

use crate::chat::{copy_opt_string, copy_opt_user, Channel, Chat, Integer, MessageId, True, User};
use crate::entity::{copy_entities, MessageEntity};
use crate::error::DecodeError;
use crate::media::{
    copy_opt_photo_size, copy_photo_sizes, Audio, Contact, Document, Location, PhotoSize, Sticker,
    Venue, Video, Voice,
};

verus! {

/// A message in its domain shape.
#[derive(Debug, PartialEq)]
pub struct Message {
    /// Unique message identifier inside this chat.
    pub id: MessageId,
    /// Sender; empty for messages sent to channels.
    pub from: Option<User>,
    /// Date the message was sent, in Unix time.
    pub date: Integer,
    /// Conversation the message belongs to.
    pub chat: Chat,
    /// Where the message was forwarded from, if it was.
    pub forward: Option<Forward>,
    /// For replies, the original message, which itself carries no reply.
    pub reply_to_message: Option<Box<Message>>,
    /// Date the message was last edited, in Unix time.
    pub edit_date: Option<Integer>,
    /// The one content kind of the message.
    pub kind: MessageKind,
}

/// Provenance of a forwarded message.
#[derive(Debug, Clone, PartialEq)]
pub struct Forward {
    /// Date the original message was sent, in Unix time.
    pub date: Integer,
    /// Who or where it was forwarded from.
    pub from: ForwardFrom,
}

/// Origin of a forwarded message.
#[derive(Debug, Clone, PartialEq)]
pub enum ForwardFrom {
    /// Sent by a user.
    User { user: User },
    /// Posted in a channel, with the post's identifier there.
    Channel { channel: Channel, message_id: Integer },
}

/// Content kind of a message: exactly one per message.
#[derive(Debug, PartialEq)]
pub enum MessageKind {
    Text { data: String, entities: Vec<MessageEntity> },
    Audio { data: Audio },
    Document { data: Document, caption: Option<String> },
    Photo { data: Vec<PhotoSize>, caption: Option<String> },
    Sticker { data: Sticker },
    Video { data: Video, caption: Option<String> },
    Voice { data: Voice },
    Contact { data: Contact },
    Location { data: Location },
    Venue { data: Venue },
    NewChatMember { data: User },
    LeftChatMember { data: User },
    NewChatTitle { data: String },
    NewChatPhoto { data: PhotoSize },
    DeleteChatPhoto,
    GroupChatCreated,
    SupergroupChatCreated,
    ChannelChatCreated,
    MigrateToChatId { data: Integer },
    MigrateFromChatId { data: Integer },
    PinnedMessage { data: Box<Message> },
    /// No slot was populated: the whole flat record, kept as it came.
    Unknown { raw: RawMessage },
}

/// A message as it comes off the wire: one field per possible content.
#[derive(Debug, PartialEq)]
pub struct RawMessage {
    pub message_id: Integer,
    pub from: Option<User>,
    pub date: Integer,
    pub chat: Chat,
    pub forward_from: Option<User>,
    pub forward_from_chat: Option<Chat>,
    pub forward_from_message_id: Option<Integer>,
    pub forward_date: Option<Integer>,
    pub reply_to_message: Option<Box<Message>>,
    pub edit_date: Option<Integer>,
    pub text: Option<String>,
    pub entities: Option<Vec<MessageEntity>>,
    pub audio: Option<Audio>,
    pub document: Option<Document>,
    pub photo: Option<Vec<PhotoSize>>,
    pub sticker: Option<Sticker>,
    pub video: Option<Video>,
    pub voice: Option<Voice>,
    /// Caption shared by document, photo and video.
    pub caption: Option<String>,
    pub contact: Option<Contact>,
    pub location: Option<Location>,
    pub venue: Option<Venue>,
    pub new_chat_member: Option<User>,
    pub left_chat_member: Option<User>,
    pub new_chat_title: Option<String>,
    pub new_chat_photo: Option<PhotoSize>,
    pub delete_chat_photo: Option<True>,
    pub group_chat_created: Option<True>,
    pub supergroup_chat_created: Option<True>,
    pub channel_chat_created: Option<True>,
    pub migrate_to_chat_id: Option<Integer>,
    pub migrate_from_chat_id: Option<Integer>,
    pub pinned_message: Option<Box<Message>>,
}

/// The nested reply, if any, carries no reply of its own.
pub open spec fn reply_depth_ok(reply: Option<Box<Message>>) -> bool {
    match reply {
        Some(m) => m.reply_to_message is None,
        None => true,
    }
}

impl Message {
    /// Whether the message's reply target, if any, carries no reply.
    pub open spec fn wf(self) -> bool {
        reply_depth_ok(self.reply_to_message)
    }
}

impl RawMessage {
    /// Whether the record's reply target, if any, carries no reply.
    pub open spec fn wf(self) -> bool {
        reply_depth_ok(self.reply_to_message)
    }
}

/// Two optional entity lists with the same entities.
pub open spec fn same_entities(a: Option<Vec<MessageEntity>>, b: Option<Vec<MessageEntity>>) -> bool {
    match (a, b) {
        (Some(x), Some(y)) => x@ == y@,
        (None, None) => true,
        _ => false,
    }
}

/// Two optional photo lists with the same sizes.
pub open spec fn same_photos(a: Option<Vec<PhotoSize>>, b: Option<Vec<PhotoSize>>) -> bool {
    match (a, b) {
        (Some(x), Some(y)) => x@ == y@,
        (None, None) => true,
        _ => false,
    }
}

/// Field-by-field equality of two messages, lists compared by contents.
pub open spec fn same_message(a: Message, b: Message) -> bool
    decreases a,
{
    &&& a.id == b.id
    &&& a.from == b.from
    &&& a.date == b.date
    &&& a.chat == b.chat
    &&& a.forward == b.forward
    &&& a.edit_date == b.edit_date
    &&& match (a.reply_to_message, b.reply_to_message) {
        (Some(x), Some(y)) => same_message(*x, *y),
        (None, None) => true,
        _ => false,
    }
    &&& same_kind(a.kind, b.kind)
}

/// Equality of two kinds, lists compared by contents.
pub open spec fn same_kind(a: MessageKind, b: MessageKind) -> bool
    decreases a,
{
    match (a, b) {
        (MessageKind::Text { data: d1, entities: e1 }, MessageKind::Text { data: d2, entities: e2 }) => d1
            == d2 && e1@ == e2@,
        (MessageKind::Photo { data: d1, caption: c1 }, MessageKind::Photo { data: d2, caption: c2 }) => d1@
            == d2@ && c1 == c2,
        (MessageKind::PinnedMessage { data: m1 }, MessageKind::PinnedMessage { data: m2 }) => same_message(
            *m1,
            *m2,
        ),
        (MessageKind::Unknown { raw: r1 }, MessageKind::Unknown { raw: r2 }) => same_raw(r1, r2),
        (MessageKind::Text { .. }, _) => false,
        (MessageKind::Photo { .. }, _) => false,
        (MessageKind::PinnedMessage { .. }, _) => false,
        (MessageKind::Unknown { .. }, _) => false,
        _ => a == b,
    }
}

/// Equality of two flat records, lists compared by contents.
pub open spec fn same_raw(a: RawMessage, b: RawMessage) -> bool
    decreases a,
{
    &&& a.message_id == b.message_id
    &&& a.from == b.from
    &&& a.date == b.date
    &&& a.chat == b.chat
    &&& a.forward_from == b.forward_from
    &&& a.forward_from_chat == b.forward_from_chat
    &&& a.forward_from_message_id == b.forward_from_message_id
    &&& a.forward_date == b.forward_date
    &&& match (a.reply_to_message, b.reply_to_message) {
        (Some(x), Some(y)) => same_message(*x, *y),
        (None, None) => true,
        _ => false,
    }
    &&& a.edit_date == b.edit_date
    &&& a.text == b.text
    &&& same_entities(a.entities, b.entities)
    &&& a.audio == b.audio
    &&& a.document == b.document
    &&& same_photos(a.photo, b.photo)
    &&& a.sticker == b.sticker
    &&& a.video == b.video
    &&& a.voice == b.voice
    &&& a.caption == b.caption
    &&& a.contact == b.contact
    &&& a.location == b.location
    &&& a.venue == b.venue
    &&& a.new_chat_member == b.new_chat_member
    &&& a.left_chat_member == b.left_chat_member
    &&& a.new_chat_title == b.new_chat_title
    &&& a.new_chat_photo == b.new_chat_photo
    &&& a.delete_chat_photo == b.delete_chat_photo
    &&& a.group_chat_created == b.group_chat_created
    &&& a.supergroup_chat_created == b.supergroup_chat_created
    &&& a.channel_chat_created == b.channel_chat_created
    &&& a.migrate_to_chat_id == b.migrate_to_chat_id
    &&& a.migrate_from_chat_id == b.migrate_from_chat_id
    &&& match (a.pinned_message, b.pinned_message) {
        (Some(x), Some(y)) => same_message(*x, *y),
        (None, None) => true,
        _ => false,
    }
}

/// Copies an optional chat.
fn copy_opt_chat(c: &Option<Chat>) -> (r: Option<Chat>)
    ensures
        r == *c,
{
    match c {
        Some(v) => Some(v.clone()),
        None => None,
    }
}

/// Two optional boxed messages that are both absent, or both present and
/// the same message.
pub open spec fn same_opt_message(a: Option<Box<Message>>, b: Option<Box<Message>>) -> bool {
    match (a, b) {
        (Some(x), Some(y)) => same_message(*x, *y),
        (None, None) => true,
        _ => false,
    }
}

/// Copies an optional boxed message, deeply.
fn copy_opt_message(m: &Option<Box<Message>>) -> (r: Option<Box<Message>>)
    ensures
        same_opt_message(*m, r),
    decreases m,
{
    match m {
        Some(x) => Some(Box::new(copy_message(x))),
        None => None,
    }
}

/// Copies a message, deeply.
pub fn copy_message(m: &Message) -> (r: Message)
    ensures
        same_message(*m, r),
    decreases m,
{
    Message {
        id: m.id,
        from: copy_opt_user(&m.from),
        date: m.date,
        chat: m.chat.clone(),
        forward: copy_opt_forward(&m.forward),
        reply_to_message: copy_opt_message(&m.reply_to_message),
        edit_date: m.edit_date,
        kind: copy_kind(&m.kind),
    }
}

/// Copies an optional forward descriptor.
fn copy_opt_forward(f: &Option<Forward>) -> (r: Option<Forward>)
    ensures
        r == *f,
{
    match f {
        Some(Forward { date, from: ForwardFrom::User { user } }) => Some(
            Forward { date: *date, from: ForwardFrom::User { user: user.clone() } },
        ),
        Some(Forward { date, from: ForwardFrom::Channel { channel, message_id } }) => Some(
            Forward {
                date: *date,
                from: ForwardFrom::Channel { channel: channel.clone(), message_id: *message_id },
            },
        ),
        None => None,
    }
}

/// Copies a kind, deeply.
pub fn copy_kind(k: &MessageKind) -> (r: MessageKind)
    ensures
        same_kind(*k, r),
    decreases k,
{
    match k {
        MessageKind::Text { data, entities } => MessageKind::Text {
            data: data.clone(),
            entities: copy_entities(entities),
        },
        MessageKind::Audio { data } => MessageKind::Audio { data: data.clone() },
        MessageKind::Document { data, caption } => MessageKind::Document {
            data: data.clone(),
            caption: copy_opt_string(caption),
        },
        MessageKind::Photo { data, caption } => MessageKind::Photo {
            data: copy_photo_sizes(data),
            caption: copy_opt_string(caption),
        },
        MessageKind::Sticker { data } => MessageKind::Sticker { data: data.clone() },
        MessageKind::Video { data, caption } => MessageKind::Video {
            data: data.clone(),
            caption: copy_opt_string(caption),
        },
        MessageKind::Voice { data } => MessageKind::Voice { data: data.clone() },
        MessageKind::Contact { data } => MessageKind::Contact { data: data.clone() },
        MessageKind::Location { data } => MessageKind::Location { data: *data },
        MessageKind::Venue { data } => MessageKind::Venue { data: data.clone() },
        MessageKind::NewChatMember { data } => MessageKind::NewChatMember { data: data.clone() },
        MessageKind::LeftChatMember { data } => MessageKind::LeftChatMember { data: data.clone() },
        MessageKind::NewChatTitle { data } => MessageKind::NewChatTitle { data: data.clone() },
        MessageKind::NewChatPhoto { data } => MessageKind::NewChatPhoto { data: data.clone() },
        MessageKind::DeleteChatPhoto => MessageKind::DeleteChatPhoto,
        MessageKind::GroupChatCreated => MessageKind::GroupChatCreated,
        MessageKind::SupergroupChatCreated => MessageKind::SupergroupChatCreated,
        MessageKind::ChannelChatCreated => MessageKind::ChannelChatCreated,
        MessageKind::MigrateToChatId { data } => MessageKind::MigrateToChatId { data: *data },
        MessageKind::MigrateFromChatId { data } => MessageKind::MigrateFromChatId { data: *data },
        MessageKind::PinnedMessage { data } => MessageKind::PinnedMessage {
            data: Box::new(copy_message(data)),
        },
        MessageKind::Unknown { raw } => MessageKind::Unknown { raw: copy_raw(raw) },
    }
}

/// Copies a flat record, deeply.
pub fn copy_raw(raw: &RawMessage) -> (r: RawMessage)
    ensures
        same_raw(*raw, r),
    decreases raw,
{
    RawMessage {
        message_id: raw.message_id,
        from: copy_opt_user(&raw.from),
        date: raw.date,
        chat: raw.chat.clone(),
        forward_from: copy_opt_user(&raw.forward_from),
        forward_from_chat: copy_opt_chat(&raw.forward_from_chat),
        forward_from_message_id: raw.forward_from_message_id,
        forward_date: raw.forward_date,
        reply_to_message: copy_opt_message(&raw.reply_to_message),
        edit_date: raw.edit_date,
        text: copy_opt_string(&raw.text),
        entities: match &raw.entities {
            Some(e) => Some(copy_entities(e)),
            None => None,
        },
        audio: match &raw.audio {
            Some(v) => Some(v.clone()),
            None => None,
        },
        document: match &raw.document {
            Some(v) => Some(v.clone()),
            None => None,
        },
        photo: match &raw.photo {
            Some(v) => Some(copy_photo_sizes(v)),
            None => None,
        },
        sticker: match &raw.sticker {
            Some(v) => Some(v.clone()),
            None => None,
        },
        video: match &raw.video {
            Some(v) => Some(v.clone()),
            None => None,
        },
        voice: match &raw.voice {
            Some(v) => Some(v.clone()),
            None => None,
        },
        caption: copy_opt_string(&raw.caption),
        contact: match &raw.contact {
            Some(v) => Some(v.clone()),
            None => None,
        },
        location: raw.location,
        venue: match &raw.venue {
            Some(v) => Some(v.clone()),
            None => None,
        },
        new_chat_member: copy_opt_user(&raw.new_chat_member),
        left_chat_member: copy_opt_user(&raw.left_chat_member),
        new_chat_title: copy_opt_string(&raw.new_chat_title),
        new_chat_photo: copy_opt_photo_size(&raw.new_chat_photo),
        delete_chat_photo: raw.delete_chat_photo,
        group_chat_created: raw.group_chat_created,
        supergroup_chat_created: raw.supergroup_chat_created,
        channel_chat_created: raw.channel_chat_created,
        migrate_to_chat_id: raw.migrate_to_chat_id,
        migrate_from_chat_id: raw.migrate_from_chat_id,
        pinned_message: copy_opt_message(&raw.pinned_message),
    }
}

/// One of the content or service-event slots of a flat record, in the
/// order in which classification tries them.
#[derive(Debug, Clone, Copy, PartialEq, Eq, Structural)]
pub enum ContentSlot {
    Text,
    Audio,
    Document,
    Photo,
    Sticker,
    Video,
    Voice,
    Contact,
    Location,
    Venue,
    NewChatMember,
    LeftChatMember,
    NewChatTitle,
    NewChatPhoto,
    DeleteChatPhoto,
    GroupChatCreated,
    SupergroupChatCreated,
    ChannelChatCreated,
    MigrateToChatId,
    MigrateFromChatId,
    PinnedMessage,
}

/// Whether the slot `s` of `raw` is populated.
pub open spec fn populated(raw: RawMessage, s: ContentSlot) -> bool {
    match s {
        ContentSlot::Text => raw.text is Some,
        ContentSlot::Audio => raw.audio is Some,
        ContentSlot::Document => raw.document is Some,
        ContentSlot::Photo => raw.photo is Some,
        ContentSlot::Sticker => raw.sticker is Some,
        ContentSlot::Video => raw.video is Some,
        ContentSlot::Voice => raw.voice is Some,
        ContentSlot::Contact => raw.contact is Some,
        ContentSlot::Location => raw.location is Some,
        ContentSlot::Venue => raw.venue is Some,
        ContentSlot::NewChatMember => raw.new_chat_member is Some,
        ContentSlot::LeftChatMember => raw.left_chat_member is Some,
        ContentSlot::NewChatTitle => raw.new_chat_title is Some,
        ContentSlot::NewChatPhoto => raw.new_chat_photo is Some,
        ContentSlot::DeleteChatPhoto => raw.delete_chat_photo is Some,
        ContentSlot::GroupChatCreated => raw.group_chat_created is Some,
        ContentSlot::SupergroupChatCreated => raw.supergroup_chat_created is Some,
        ContentSlot::ChannelChatCreated => raw.channel_chat_created is Some,
        ContentSlot::MigrateToChatId => raw.migrate_to_chat_id is Some,
        ContentSlot::MigrateFromChatId => raw.migrate_from_chat_id is Some,
        ContentSlot::PinnedMessage => raw.pinned_message is Some,
    }
}

/// 1 for a populated slot, 0 for an empty one.
pub open spec fn count_of(b: bool) -> nat {
    if b { 1 } else { 0 }
}

/// How many content slots of `raw` are populated.
pub open spec fn slot_count(raw: RawMessage) -> nat {
    count_of(raw.text is Some)
    + count_of(raw.audio is Some)
    + count_of(raw.document is Some)
    + count_of(raw.photo is Some)
    + count_of(raw.sticker is Some)
    + count_of(raw.video is Some)
    + count_of(raw.voice is Some)
    + count_of(raw.contact is Some)
    + count_of(raw.location is Some)
    + count_of(raw.venue is Some)
    + count_of(raw.new_chat_member is Some)
    + count_of(raw.left_chat_member is Some)
    + count_of(raw.new_chat_title is Some)
    + count_of(raw.new_chat_photo is Some)
    + count_of(raw.delete_chat_photo is Some)
    + count_of(raw.group_chat_created is Some)
    + count_of(raw.supergroup_chat_created is Some)
    + count_of(raw.channel_chat_created is Some)
    + count_of(raw.migrate_to_chat_id is Some)
    + count_of(raw.migrate_from_chat_id is Some)
    + count_of(raw.pinned_message is Some)
}

/// The first populated slot in classification order, if any.
pub open spec fn first_slot(raw: RawMessage) -> Option<ContentSlot> {
    if raw.text is Some {
        Some(ContentSlot::Text)
    } else if raw.audio is Some {
        Some(ContentSlot::Audio)
    } else if raw.document is Some {
        Some(ContentSlot::Document)
    } else if raw.photo is Some {
        Some(ContentSlot::Photo)
    } else if raw.sticker is Some {
        Some(ContentSlot::Sticker)
    } else if raw.video is Some {
        Some(ContentSlot::Video)
    } else if raw.voice is Some {
        Some(ContentSlot::Voice)
    } else if raw.contact is Some {
        Some(ContentSlot::Contact)
    } else if raw.location is Some {
        Some(ContentSlot::Location)
    } else if raw.venue is Some {
        Some(ContentSlot::Venue)
    } else if raw.new_chat_member is Some {
        Some(ContentSlot::NewChatMember)
    } else if raw.left_chat_member is Some {
        Some(ContentSlot::LeftChatMember)
    } else if raw.new_chat_title is Some {
        Some(ContentSlot::NewChatTitle)
    } else if raw.new_chat_photo is Some {
        Some(ContentSlot::NewChatPhoto)
    } else if raw.delete_chat_photo is Some {
        Some(ContentSlot::DeleteChatPhoto)
    } else if raw.group_chat_created is Some {
        Some(ContentSlot::GroupChatCreated)
    } else if raw.supergroup_chat_created is Some {
        Some(ContentSlot::SupergroupChatCreated)
    } else if raw.channel_chat_created is Some {
        Some(ContentSlot::ChannelChatCreated)
    } else if raw.migrate_to_chat_id is Some {
        Some(ContentSlot::MigrateToChatId)
    } else if raw.migrate_from_chat_id is Some {
        Some(ContentSlot::MigrateFromChatId)
    } else if raw.pinned_message is Some {
        Some(ContentSlot::PinnedMessage)
    } else {
        None
    }
}

/// The slot a kind stands for; `None` for `Unknown`.
pub open spec fn kind_slot(k: MessageKind) -> Option<ContentSlot> {
    match k {
        MessageKind::Text { .. } => Some(ContentSlot::Text),
        MessageKind::Audio { .. } => Some(ContentSlot::Audio),
        MessageKind::Document { .. } => Some(ContentSlot::Document),
        MessageKind::Photo { .. } => Some(ContentSlot::Photo),
        MessageKind::Sticker { .. } => Some(ContentSlot::Sticker),
        MessageKind::Video { .. } => Some(ContentSlot::Video),
        MessageKind::Voice { .. } => Some(ContentSlot::Voice),
        MessageKind::Contact { .. } => Some(ContentSlot::Contact),
        MessageKind::Location { .. } => Some(ContentSlot::Location),
        MessageKind::Venue { .. } => Some(ContentSlot::Venue),
        MessageKind::NewChatMember { .. } => Some(ContentSlot::NewChatMember),
        MessageKind::LeftChatMember { .. } => Some(ContentSlot::LeftChatMember),
        MessageKind::NewChatTitle { .. } => Some(ContentSlot::NewChatTitle),
        MessageKind::NewChatPhoto { .. } => Some(ContentSlot::NewChatPhoto),
        MessageKind::DeleteChatPhoto  => Some(ContentSlot::DeleteChatPhoto),
        MessageKind::GroupChatCreated  => Some(ContentSlot::GroupChatCreated),
        MessageKind::SupergroupChatCreated  => Some(ContentSlot::SupergroupChatCreated),
        MessageKind::ChannelChatCreated  => Some(ContentSlot::ChannelChatCreated),
        MessageKind::MigrateToChatId { .. } => Some(ContentSlot::MigrateToChatId),
        MessageKind::MigrateFromChatId { .. } => Some(ContentSlot::MigrateFromChatId),
        MessageKind::PinnedMessage { .. } => Some(ContentSlot::PinnedMessage),
        MessageKind::Unknown { .. } => None,
    }
}

/// The entity list of a text message: the wire list, or an empty one.
pub open spec fn entities_or_empty(e: Option<Vec<MessageEntity>>) -> Seq<MessageEntity> {
    match e {
        Some(v) => v@,
        None => Seq::empty(),
    }
}

/// Whether `k` is the variant of slot `s` holding that slot's payload from
/// `raw` unchanged (with the shared caption where the variant has one).
pub open spec fn carries(raw: RawMessage, s: ContentSlot, k: MessageKind) -> bool {
    match s {
        ContentSlot::Text => match k {
            MessageKind::Text { data, entities } => raw.text == Some(data) && entities@ == entities_or_empty(
                raw.entities,
            ),
            _ => false,
        },
        ContentSlot::Audio => raw.audio is Some && k == (MessageKind::Audio { data: raw.audio->Some_0 }),
        ContentSlot::Document => raw.document is Some && k == (MessageKind::Document {
            data: raw.document->Some_0,
            caption: raw.caption,
        }),
        ContentSlot::Photo => raw.photo is Some && k == (MessageKind::Photo {
            data: raw.photo->Some_0,
            caption: raw.caption,
        }),
        ContentSlot::Sticker => raw.sticker is Some && k == (MessageKind::Sticker { data: raw.sticker->Some_0 }),
        ContentSlot::Video => raw.video is Some && k == (MessageKind::Video {
            data: raw.video->Some_0,
            caption: raw.caption,
        }),
        ContentSlot::Voice => raw.voice is Some && k == (MessageKind::Voice { data: raw.voice->Some_0 }),
        ContentSlot::Contact => raw.contact is Some && k == (MessageKind::Contact { data: raw.contact->Some_0 }),
        ContentSlot::Location => raw.location is Some && k == (MessageKind::Location { data: raw.location->Some_0 }),
        ContentSlot::Venue => raw.venue is Some && k == (MessageKind::Venue { data: raw.venue->Some_0 }),
        ContentSlot::NewChatMember => raw.new_chat_member is Some && k == (MessageKind::NewChatMember { data: raw.new_chat_member->Some_0 }),
        ContentSlot::LeftChatMember => raw.left_chat_member is Some && k == (MessageKind::LeftChatMember { data: raw.left_chat_member->Some_0 }),
        ContentSlot::NewChatTitle => raw.new_chat_title is Some && k == (MessageKind::NewChatTitle { data: raw.new_chat_title->Some_0 }),
        ContentSlot::NewChatPhoto => raw.new_chat_photo is Some && k == (MessageKind::NewChatPhoto { data: raw.new_chat_photo->Some_0 }),
        ContentSlot::DeleteChatPhoto => raw.delete_chat_photo is Some && k == MessageKind::DeleteChatPhoto,
        ContentSlot::GroupChatCreated => raw.group_chat_created is Some && k == MessageKind::GroupChatCreated,
        ContentSlot::SupergroupChatCreated => raw.supergroup_chat_created is Some && k == MessageKind::SupergroupChatCreated,
        ContentSlot::ChannelChatCreated => raw.channel_chat_created is Some && k == MessageKind::ChannelChatCreated,
        ContentSlot::MigrateToChatId => raw.migrate_to_chat_id is Some && k == (MessageKind::MigrateToChatId { data: raw.migrate_to_chat_id->Some_0 }),
        ContentSlot::MigrateFromChatId => raw.migrate_from_chat_id is Some && k == (MessageKind::MigrateFromChatId { data: raw.migrate_from_chat_id->Some_0 }),
        ContentSlot::PinnedMessage => raw.pinned_message is Some && k == (MessageKind::PinnedMessage { data: raw.pinned_message->Some_0 }),
    }
}

/// The kind a flat record classifies to: the first populated slot's
/// variant, or `Unknown` with the whole record when no slot is populated.
pub open spec fn classifies_to(raw: RawMessage, k: MessageKind) -> bool {
    match first_slot(raw) {
        Some(s) => carries(raw, s, k),
        None => k == (MessageKind::Unknown { raw }),
    }
}

/// Classifies a flat record into exactly one kind, trying the slots in
/// the order of `ContentSlot`; a text without entities gets an empty list.
pub fn classify(raw: RawMessage) -> (k: MessageKind)
    ensures
        classifies_to(raw, k),
{
    match raw.text {
        Some(data) => {
            let entities = match raw.entities {
                Some(e) => e,
                None => Vec::new(),
            };
            return MessageKind::Text { data, entities };
        },
        None => {},
    }
    match raw.audio {
        Some(data) => {
            return MessageKind::Audio { data };
        },
        None => {},
    }
    match raw.document {
        Some(data) => {
            return MessageKind::Document { data, caption: raw.caption };
        },
        None => {},
    }
    match raw.photo {
        Some(data) => {
            return MessageKind::Photo { data, caption: raw.caption };
        },
        None => {},
    }
    match raw.sticker {
        Some(data) => {
            return MessageKind::Sticker { data };
        },
        None => {},
    }
    match raw.video {
        Some(data) => {
            return MessageKind::Video { data, caption: raw.caption };
        },
        None => {},
    }
    match raw.voice {
        Some(data) => {
            return MessageKind::Voice { data };
        },
        None => {},
    }
    match raw.contact {
        Some(data) => {
            return MessageKind::Contact { data };
        },
        None => {},
    }
    match raw.location {
        Some(data) => {
            return MessageKind::Location { data };
        },
        None => {},
    }
    match raw.venue {
        Some(data) => {
            return MessageKind::Venue { data };
        },
        None => {},
    }
    match raw.new_chat_member {
        Some(data) => {
            return MessageKind::NewChatMember { data };
        },
        None => {},
    }
    match raw.left_chat_member {
        Some(data) => {
            return MessageKind::LeftChatMember { data };
        },
        None => {},
    }
    match raw.new_chat_title {
        Some(data) => {
            return MessageKind::NewChatTitle { data };
        },
        None => {},
    }
    match raw.new_chat_photo {
        Some(data) => {
            return MessageKind::NewChatPhoto { data };
        },
        None => {},
    }
    if raw.delete_chat_photo.is_some() {
        return MessageKind::DeleteChatPhoto;
    }
    if raw.group_chat_created.is_some() {
        return MessageKind::GroupChatCreated;
    }
    if raw.supergroup_chat_created.is_some() {
        return MessageKind::SupergroupChatCreated;
    }
    if raw.channel_chat_created.is_some() {
        return MessageKind::ChannelChatCreated;
    }
    match raw.migrate_to_chat_id {
        Some(data) => {
            return MessageKind::MigrateToChatId { data };
        },
        None => {},
    }
    match raw.migrate_from_chat_id {
        Some(data) => {
            return MessageKind::MigrateFromChatId { data };
        },
        None => {},
    }
    match raw.pinned_message {
        Some(data) => {
            return MessageKind::PinnedMessage { data };
        },
        None => {},
    }
    MessageKind::Unknown { raw }
}

/// The forward descriptor that the four forward fields stand for:
/// `Some(None)` when all four are absent, `Some(Some(f))` for a forward from
/// a user or from a channel post, `None` for every other combination.
pub open spec fn forward_of(
    date: Option<Integer>,
    from: Option<User>,
    chat: Option<Chat>,
    message_id: Option<Integer>,
) -> Option<Option<Forward>> {
    match (date, from, chat, message_id) {
        (None, None, None, None) => Some(None),
        (Some(d), Some(u), None, None) => Some(Some(Forward { date: d, from: ForwardFrom::User { user: u } })),
        (Some(d), None, Some(Chat::Channel(c)), Some(id)) => Some(
            Some(Forward { date: d, from: ForwardFrom::Channel { channel: c, message_id: id } }),
        ),
        _ => None,
    }
}

/// The forward descriptor of a flat record's four forward fields.
pub open spec fn raw_forward(raw: RawMessage) -> Option<Option<Forward>> {
    forward_of(raw.forward_date, raw.forward_from, raw.forward_from_chat, raw.forward_from_message_id)
}

/// Rebuilds forward provenance from the four flat forward fields; fails
/// with `InvalidForwardCombination` on any shape but the two legal ones.
pub fn decode_forward(
    date: Option<Integer>,
    from: &Option<User>,
    chat: &Option<Chat>,
    message_id: Option<Integer>,
) -> (r: Result<Option<Forward>, DecodeError>)
    ensures
        match r {
            Ok(f) => forward_of(date, *from, *chat, message_id) == Some(f),
            Err(e) => forward_of(date, *from, *chat, message_id) is None && e is InvalidForwardCombination,
        },
{
    match (date, from, chat, message_id) {
        (None, None, None, None) => Ok(None),
        (Some(d), Some(u), None, None) => Ok(Some(Forward { date: d, from: ForwardFrom::User { user: u.clone() } })),
        (Some(d), None, Some(Chat::Channel(c)), Some(id)) => Ok(
            Some(Forward { date: d, from: ForwardFrom::Channel { channel: c.clone(), message_id: id } }),
        ),
        _ => Err(DecodeError::InvalidForwardCombination),
    }
}

/// A forward descriptor comes out exactly when at least one of the four
/// forward fields is present, and a legal combination always has a date.
pub proof fn lemma_forward_presence(
    date: Option<Integer>,
    from: Option<User>,
    chat: Option<Chat>,
    message_id: Option<Integer>,
    f: Option<Forward>,
)
    requires
        forward_of(date, from, chat, message_id) == Some(f),
    ensures
        f is Some <==> (date is Some || from is Some || chat is Some || message_id is Some),
        f is Some ==> date == Some(f->Some_0.date),
{
}

/// Normalises a flat record into a message: the header fields are kept,
/// the forward fields become a `Forward` (or the record is rejected), and
/// the content slots become exactly one `MessageKind`.
pub fn decode_message(raw: RawMessage) -> (r: Result<Message, DecodeError>)
    requires
        raw.wf(),
    ensures
        match r {
            Ok(m) => {
                &&& raw_forward(raw) == Some(m.forward)
                &&& m.id == MessageId(raw.message_id)
                &&& m.from == raw.from
                &&& m.date == raw.date
                &&& m.chat == raw.chat
                &&& same_opt_message(raw.reply_to_message, m.reply_to_message)
                &&& m.edit_date == raw.edit_date
                &&& classifies_to(raw, m.kind)
                &&& m.wf()
            },
            Err(e) => raw_forward(raw) is None && e is InvalidForwardCombination,
        },
{
    let forward = match decode_forward(
        raw.forward_date,
        &raw.forward_from,
        &raw.forward_from_chat,
        raw.forward_from_message_id,
    ) {
        Ok(f) => f,
        Err(e) => {
            return Err(e);
        },
    };
    let id = MessageId(raw.message_id);
    let from = copy_opt_user(&raw.from);
    let date = raw.date;
    let chat = raw.chat.clone();
    let reply_to_message = copy_opt_message(&raw.reply_to_message);
    let edit_date = raw.edit_date;
    let kind = classify(raw);
    Ok(Message { id, from, date, chat, forward, reply_to_message, edit_date, kind })
}

/// A record with exactly one populated slot classifies to that slot's
/// variant, carrying that slot's payload unchanged.
pub proof fn lemma_single_slot(raw: RawMessage, s: ContentSlot, k: MessageKind)
    requires
        slot_count(raw) == 1,
        populated(raw, s),
        classifies_to(raw, k),
    ensures
        kind_slot(k) == Some(s),
        carries(raw, s, k),
{
}

/// A record with no populated slot classifies to `Unknown`, carrying the
/// whole record.
pub proof fn lemma_no_slot(raw: RawMessage, k: MessageKind)
    requires
        slot_count(raw) == 0,
        classifies_to(raw, k),
    ensures
        k == (MessageKind::Unknown { raw }),
{
}

/// Whenever classification yields `Unknown`, the record inside it is the
/// input record, field for field.
pub proof fn lemma_unknown_keeps_record(raw: RawMessage, k: MessageKind)
    requires
        classifies_to(raw, k),
        k is Unknown,
    ensures
        k == (MessageKind::Unknown { raw }),
{
}

/// A text record without an entity list classifies to a text kind with an
/// empty entity list.
pub proof fn lemma_text_without_entities(raw: RawMessage, k: MessageKind)
    requires
        raw.text is Some,
        raw.entities is None,
        classifies_to(raw, k),
    ensures
        match k {
            MessageKind::Text { data, entities } => raw.text == Some(data) && entities@ == Seq::<
                MessageEntity,
            >::empty(),
            _ => false,
        },
{
}

} // verus!

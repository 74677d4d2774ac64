//! Text entities: resolution of a free-text type tag into a tagged kind.
use vstd::prelude::*;

use crate::chat::{Integer, User};
use crate::error::DecodeError;

verus! {

/// An entity as it comes off the wire, with its type as free text.
#[derive(Debug, PartialEq)]
pub struct RawMessageEntity {
    /// The entity's type tag (`type` on the wire).
    pub type_: String,
    /// Offset in UTF-16 code units to the start of the entity.
    pub offset: Integer,
    /// Length of the entity in UTF-16 code units.
    pub length: Integer,
    /// For `text_link` only: the url opened on tap.
    pub url: Option<String>,
    /// For `text_mention` only: the mentioned user.
    pub user: Option<User>,
}

impl Clone for RawMessageEntity {
    fn clone(&self) -> (r: Self)
        ensures
            r == *self,
    {
        RawMessageEntity {
            type_: self.type_.clone(),
            offset: self.offset,
            length: self.length,
            url: crate::chat::copy_opt_string(&self.url),
            user: crate::chat::copy_opt_user(&self.user),
        }
    }
}

/// Kind of a text entity.
#[derive(Debug, PartialEq)]
pub enum MessageEntityKind {
    Mention,
    Hashtag,
    BotCommand,
    Url,
    Email,
    Bold,
    Italic,
    Code,
    Pre,
    TextLink(String),
    TextMention(User),
    /// A tag this library does not know, with the whole wire entity.
    Unknown(RawMessageEntity),
}

impl Clone for MessageEntityKind {
    fn clone(&self) -> (r: Self)
        ensures
            r == *self,
    {
        match self {
            MessageEntityKind::Mention => MessageEntityKind::Mention,
            MessageEntityKind::Hashtag => MessageEntityKind::Hashtag,
            MessageEntityKind::BotCommand => MessageEntityKind::BotCommand,
            MessageEntityKind::Url => MessageEntityKind::Url,
            MessageEntityKind::Email => MessageEntityKind::Email,
            MessageEntityKind::Bold => MessageEntityKind::Bold,
            MessageEntityKind::Italic => MessageEntityKind::Italic,
            MessageEntityKind::Code => MessageEntityKind::Code,
            MessageEntityKind::Pre => MessageEntityKind::Pre,
            MessageEntityKind::TextLink(u) => MessageEntityKind::TextLink(u.clone()),
            MessageEntityKind::TextMention(u) => MessageEntityKind::TextMention(u.clone()),
            MessageEntityKind::Unknown(raw) => MessageEntityKind::Unknown(raw.clone()),
        }
    }
}

/// One special entity in a text message (a mention, a url, a bold span...).
#[derive(Debug, PartialEq)]
pub struct MessageEntity {
    /// Offset in UTF-16 code units to the start of the entity.
    pub offset: Integer,
    /// Length of the entity in UTF-16 code units.
    pub length: Integer,
    pub kind: MessageEntityKind,
}

impl Clone for MessageEntity {
    fn clone(&self) -> (r: Self)
        ensures
            r == *self,
    {
        MessageEntity { offset: self.offset, length: self.length, kind: self.kind.clone() }
    }
}

/// Copies a list of entities element by element.
pub fn copy_entities(v: &Vec<MessageEntity>) -> (r: Vec<MessageEntity>)
    ensures
        r@ == v@,
{
    let mut r: Vec<MessageEntity> = Vec::new();
    let mut i: usize = 0;
    while i < v.len()
        invariant
            i <= v@.len(),
            r@ == v@.subrange(0, i as int),
        decreases v@.len() - i,
    {
        r.push(v[i].clone());
        i = i + 1;
    }
    assert(v@.subrange(0, v@.len() as int) == v@);
    r
}

/// The tags that map to a kind without payload, and that kind.
pub open spec fn plain_kind(tag: Seq<char>) -> Option<MessageEntityKind> {
    if tag == "mention"@ {
        Some(MessageEntityKind::Mention)
    } else if tag == "hashtag"@ {
        Some(MessageEntityKind::Hashtag)
    } else if tag == "bot_command"@ {
        Some(MessageEntityKind::BotCommand)
    } else if tag == "url"@ {
        Some(MessageEntityKind::Url)
    } else if tag == "email"@ {
        Some(MessageEntityKind::Email)
    } else if tag == "bold"@ {
        Some(MessageEntityKind::Bold)
    } else if tag == "italic"@ {
        Some(MessageEntityKind::Italic)
    } else if tag == "code"@ {
        Some(MessageEntityKind::Code)
    } else if tag == "pre"@ {
        Some(MessageEntityKind::Pre)
    } else {
        None
    }
}

/// The wire name of the field that the entity's tag requires and that is
/// absent, if any: `url` for `text_link`, `user` for `text_mention`.
pub open spec fn missing_field(raw: RawMessageEntity) -> Option<Seq<char>> {
    if plain_kind(raw.type_@) is Some {
        None
    } else if raw.type_@ == "text_link"@ && raw.url is None {
        Some("url"@)
    } else if raw.type_@ == "text_mention"@ && raw.user is None {
        Some("user"@)
    } else {
        None
    }
}

/// The kind an entity resolves to when no required field is missing; any
/// tag outside the table keeps the whole wire entity.
pub open spec fn resolved_kind(raw: RawMessageEntity) -> MessageEntityKind {
    match plain_kind(raw.type_@) {
        Some(k) => k,
        None => if raw.type_@ == "text_link"@ && raw.url is Some {
            MessageEntityKind::TextLink(raw.url->Some_0)
        } else if raw.type_@ == "text_mention"@ && raw.user is Some {
            MessageEntityKind::TextMention(raw.user->Some_0)
        } else {
            MessageEntityKind::Unknown(raw)
        },
    }
}

/// Whether `tag` reads exactly `lit`.
fn tag_is(tag: &String, lit: &str) -> (r: bool)
    ensures
        r == (tag@ == lit@),
{
    *tag == lit.to_owned()
}

/// Looks `tag` up among the tags whose kind carries no payload.
pub fn plain_kind_of_tag(tag: &String) -> (r: Option<MessageEntityKind>)
    ensures
        r == plain_kind(tag@),
{
    if tag_is(tag, "mention") {
        Some(MessageEntityKind::Mention)
    } else if tag_is(tag, "hashtag") {
        Some(MessageEntityKind::Hashtag)
    } else if tag_is(tag, "bot_command") {
        Some(MessageEntityKind::BotCommand)
    } else if tag_is(tag, "url") {
        Some(MessageEntityKind::Url)
    } else if tag_is(tag, "email") {
        Some(MessageEntityKind::Email)
    } else if tag_is(tag, "bold") {
        Some(MessageEntityKind::Bold)
    } else if tag_is(tag, "italic") {
        Some(MessageEntityKind::Italic)
    } else if tag_is(tag, "code") {
        Some(MessageEntityKind::Code)
    } else if tag_is(tag, "pre") {
        Some(MessageEntityKind::Pre)
    } else {
        None
    }
}

/// Resolves a wire entity into a typed one. Fails exactly when a
/// `text_link` lacks its url or a `text_mention` lacks its user; an
/// unrecognised tag is kept as `Unknown` with the whole wire entity.
pub fn decode_entity(raw: RawMessageEntity) -> (r: Result<MessageEntity, DecodeError>)
    ensures
        match r {
            Ok(e) => missing_field(raw) is None && e == (MessageEntity {
                offset: raw.offset,
                length: raw.length,
                kind: resolved_kind(raw),
            }),
            Err(DecodeError::MissingRequiredField(f)) => missing_field(raw) == Some(f@),
            Err(_) => false,
        },
{
    proof {
        reveal_strlit("text_link");
        reveal_strlit("text_mention");
        assert("text_link"@.len() != "text_mention"@.len());
    }
    let offset = raw.offset;
    let length = raw.length;
    let kind = match plain_kind_of_tag(&raw.type_) {
        Some(k) => k,
        None => {
            if tag_is(&raw.type_, "text_link") {
                match raw.url {
                    Some(u) => MessageEntityKind::TextLink(u),
                    None => {
                        return Err(DecodeError::MissingRequiredField("url".to_owned()));
                    },
                }
            } else if tag_is(&raw.type_, "text_mention") {
                match raw.user {
                    Some(u) => MessageEntityKind::TextMention(u),
                    None => {
                        return Err(DecodeError::MissingRequiredField("user".to_owned()));
                    },
                }
            } else {
                MessageEntityKind::Unknown(raw)
            }
        },
    };
    Ok(MessageEntity { offset, length, kind })
}

} // verus!

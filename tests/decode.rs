use telegram_bot_raw::{
    decode_entity, decode_forward, decode_message, Audio, CanGetUserProfilePhotos, Channel, Chat,
    DecodeError, Document, Forward, ForwardFrom, GetUserProfilePhotos, Group, Location, Message,
    MessageEntity, MessageEntityKind, MessageId, MessageKind, PhotoSize, RawMessage,
    RawMessageEntity, ToMessageId, True, User, UserId,
};

fn user(id: i64, name: &str) -> User {
    User { id: UserId(id), first_name: name.to_string(), last_name: None, username: None }
}

fn channel(id: i64) -> Channel {
    Channel { id, title: "news".to_string(), username: Some("newsroom".to_string()) }
}

fn private_chat() -> Chat {
    Chat::Private(user(7, "Ann"))
}

fn bare_record() -> RawMessage {
    RawMessage {
        message_id: 11,
        from: Some(user(7, "Ann")),
        date: 1500,
        chat: private_chat(),
        forward_from: None,
        forward_from_chat: None,
        forward_from_message_id: None,
        forward_date: None,
        reply_to_message: None,
        edit_date: None,
        text: None,
        entities: None,
        audio: None,
        document: None,
        photo: None,
        sticker: None,
        video: None,
        voice: None,
        caption: None,
        contact: None,
        location: None,
        venue: None,
        new_chat_member: None,
        left_chat_member: None,
        new_chat_title: None,
        new_chat_photo: None,
        delete_chat_photo: None,
        group_chat_created: None,
        supergroup_chat_created: None,
        channel_chat_created: None,
        migrate_to_chat_id: None,
        migrate_from_chat_id: None,
        pinned_message: None,
    }
}

fn raw_entity(tag: &str) -> RawMessageEntity {
    RawMessageEntity { type_: tag.to_string(), offset: 3, length: 5, url: None, user: None }
}

fn photo_size(id: &str) -> PhotoSize {
    PhotoSize { file_id: id.to_string(), width: 90, height: 60, file_size: Some(1024) }
}

#[test]
fn forward_all_absent_is_none() {
    assert_eq!(decode_forward(None, &None, &None, None), Ok(None));
}

#[test]
fn forward_from_user() {
    let r = decode_forward(Some(1000), &Some(user(5, "A")), &None, None);
    assert_eq!(r, Ok(Some(Forward { date: 1000, from: ForwardFrom::User { user: user(5, "A") } })));
}

#[test]
fn forward_from_channel() {
    let r = decode_forward(Some(1000), &None, &Some(Chat::Channel(channel(-100))), Some(42));
    assert_eq!(
        r,
        Ok(Some(Forward {
            date: 1000,
            from: ForwardFrom::Channel { channel: channel(-100), message_id: 42 },
        }))
    );
}

#[test]
fn forward_date_alone_is_rejected() {
    assert_eq!(decode_forward(Some(1000), &None, &None, None), Err(DecodeError::InvalidForwardCombination));
}

#[test]
fn forward_from_group_chat_is_rejected() {
    let group = Chat::Group(Group { id: 3, title: "g".to_string() });
    assert_eq!(
        decode_forward(Some(1000), &None, &Some(group), Some(42)),
        Err(DecodeError::InvalidForwardCombination)
    );
}

#[test]
fn forward_with_user_and_channel_is_rejected() {
    let r = decode_forward(Some(1000), &Some(user(5, "A")), &Some(Chat::Channel(channel(-1))), Some(42));
    assert_eq!(r, Err(DecodeError::InvalidForwardCombination));
}

#[test]
fn message_with_bad_forward_fails() {
    let mut raw = bare_record();
    raw.text = Some("hi".to_string());
    raw.forward_date = Some(1000);
    assert_eq!(decode_message(raw).unwrap_err(), DecodeError::InvalidForwardCombination);
}

#[test]
fn message_with_user_forward() {
    let mut raw = bare_record();
    raw.text = Some("hi".to_string());
    raw.forward_date = Some(1000);
    raw.forward_from = Some(user(9, "Bo"));
    let m = decode_message(raw).unwrap();
    assert_eq!(m.forward, Some(Forward { date: 1000, from: ForwardFrom::User { user: user(9, "Bo") } }));
}

#[test]
fn entity_text_link_without_url_fails() {
    assert_eq!(
        decode_entity(raw_entity("text_link")),
        Err(DecodeError::MissingRequiredField("url".to_string()))
    );
}

#[test]
fn entity_text_link_with_url() {
    let mut raw = raw_entity("text_link");
    raw.url = Some("https://x".to_string());
    let e = decode_entity(raw).unwrap();
    assert_eq!(e.kind, MessageEntityKind::TextLink("https://x".to_string()));
    assert_eq!((e.offset, e.length), (3, 5));
}

#[test]
fn entity_unknown_tag_is_kept() {
    let e = decode_entity(raw_entity("sticker_pack_name")).unwrap();
    match e.kind {
        MessageEntityKind::Unknown(raw) => {
            assert_eq!(raw.type_, "sticker_pack_name");
            assert_eq!(raw, raw_entity("sticker_pack_name"));
        }
        other => panic!("unexpected kind {:?}", other),
    }
}

#[test]
fn entity_text_mention_without_user_fails() {
    assert_eq!(
        decode_entity(raw_entity("text_mention")),
        Err(DecodeError::MissingRequiredField("user".to_string()))
    );
}

#[test]
fn entity_text_mention_with_user() {
    let mut raw = raw_entity("text_mention");
    raw.user = Some(user(4, "Cy"));
    assert_eq!(decode_entity(raw).unwrap().kind, MessageEntityKind::TextMention(user(4, "Cy")));
}

#[test]
fn entity_plain_tags() {
    let table = [
        ("mention", MessageEntityKind::Mention),
        ("hashtag", MessageEntityKind::Hashtag),
        ("bot_command", MessageEntityKind::BotCommand),
        ("url", MessageEntityKind::Url),
        ("email", MessageEntityKind::Email),
        ("bold", MessageEntityKind::Bold),
        ("italic", MessageEntityKind::Italic),
        ("code", MessageEntityKind::Code),
        ("pre", MessageEntityKind::Pre),
    ];
    for (tag, kind) in table {
        let e = decode_entity(raw_entity(tag)).unwrap();
        assert_eq!(e, MessageEntity { offset: 3, length: 5, kind });
    }
}

#[test]
fn entity_plain_tag_ignores_url() {
    let mut raw = raw_entity("url");
    raw.url = Some("https://y".to_string());
    assert_eq!(decode_entity(raw).unwrap().kind, MessageEntityKind::Url);
}

#[test]
fn text_without_entities_gets_empty_list() {
    let mut raw = bare_record();
    raw.text = Some("hello".to_string());
    let m = decode_message(raw).unwrap();
    assert_eq!(m.kind, MessageKind::Text { data: "hello".to_string(), entities: vec![] });
}

#[test]
fn text_keeps_its_entities() {
    let mut raw = bare_record();
    raw.text = Some("/start".to_string());
    let ent = MessageEntity { offset: 0, length: 6, kind: MessageEntityKind::BotCommand };
    raw.entities = Some(vec![ent.clone()]);
    let m = decode_message(raw).unwrap();
    assert_eq!(m.kind, MessageKind::Text { data: "/start".to_string(), entities: vec![ent] });
}

#[test]
fn header_fields_are_kept() {
    let mut raw = bare_record();
    raw.edit_date = Some(1600);
    raw.new_chat_title = Some("t".to_string());
    let m = decode_message(raw).unwrap();
    assert_eq!(m.id, MessageId(11));
    assert_eq!(m.from, Some(user(7, "Ann")));
    assert_eq!(m.date, 1500);
    assert_eq!(m.chat, private_chat());
    assert_eq!(m.edit_date, Some(1600));
    assert_eq!(m.forward, None);
    assert_eq!(m.kind, MessageKind::NewChatTitle { data: "t".to_string() });
}

#[test]
fn single_slot_audio() {
    let audio = Audio {
        file_id: "a1".to_string(),
        duration: 30,
        performer: Some("p".to_string()),
        title: None,
        mime_type: Some("audio/mpeg".to_string()),
        file_size: Some(99),
    };
    let mut raw = bare_record();
    raw.audio = Some(audio.clone());
    assert_eq!(decode_message(raw).unwrap().kind, MessageKind::Audio { data: audio });
}

#[test]
fn single_slot_document_takes_caption() {
    let doc = Document {
        file_id: "d1".to_string(),
        thumb: Some(photo_size("t")),
        file_name: Some("a.pdf".to_string()),
        mime_type: None,
        file_size: None,
    };
    let mut raw = bare_record();
    raw.document = Some(doc.clone());
    raw.caption = Some("report".to_string());
    let kind = decode_message(raw).unwrap().kind;
    assert_eq!(kind, MessageKind::Document { data: doc, caption: Some("report".to_string()) });
}

#[test]
fn single_slot_photo() {
    let mut raw = bare_record();
    raw.photo = Some(vec![photo_size("s"), photo_size("m")]);
    let kind = decode_message(raw).unwrap().kind;
    assert_eq!(kind, MessageKind::Photo { data: vec![photo_size("s"), photo_size("m")], caption: None });
}

#[test]
fn single_slot_location_bits_pass_through() {
    let loc = Location { longitude_bits: 13.4f64.to_bits(), latitude_bits: 52.5f64.to_bits() };
    let mut raw = bare_record();
    raw.location = Some(loc);
    let kind = decode_message(raw).unwrap().kind;
    assert_eq!(kind, MessageKind::Location { data: loc });
    if let MessageKind::Location { data } = kind {
        assert_eq!(f64::from_bits(data.latitude_bits), 52.5);
    }
}

#[test]
fn single_slot_flags_and_ids() {
    let mut raw = bare_record();
    raw.delete_chat_photo = Some(True);
    assert_eq!(decode_message(raw).unwrap().kind, MessageKind::DeleteChatPhoto);
    let mut raw = bare_record();
    raw.channel_chat_created = Some(True);
    assert_eq!(decode_message(raw).unwrap().kind, MessageKind::ChannelChatCreated);
    let mut raw = bare_record();
    raw.migrate_from_chat_id = Some(-77);
    assert_eq!(decode_message(raw).unwrap().kind, MessageKind::MigrateFromChatId { data: -77 });
}

#[test]
fn single_slot_pinned_message() {
    let mut inner = bare_record();
    inner.message_id = 5;
    inner.text = Some("pinned".to_string());
    let pinned = decode_message(inner).unwrap();
    let mut raw = bare_record();
    raw.pinned_message = Some(Box::new(pinned));
    match decode_message(raw).unwrap().kind {
        MessageKind::PinnedMessage { data } => {
            assert_eq!(data.id, MessageId(5));
            assert_eq!(data.kind, MessageKind::Text { data: "pinned".to_string(), entities: vec![] });
        }
        other => panic!("unexpected kind {:?}", other),
    }
}

#[test]
fn text_wins_over_later_slots() {
    let mut raw = bare_record();
    raw.text = Some("first".to_string());
    raw.new_chat_member = Some(user(2, "Di"));
    raw.group_chat_created = Some(True);
    let kind = decode_message(raw).unwrap().kind;
    assert_eq!(kind, MessageKind::Text { data: "first".to_string(), entities: vec![] });
}

#[test]
fn earlier_slot_wins_among_service_events() {
    let mut raw = bare_record();
    raw.left_chat_member = Some(user(2, "Di"));
    raw.migrate_to_chat_id = Some(8);
    let kind = decode_message(raw).unwrap().kind;
    assert_eq!(kind, MessageKind::LeftChatMember { data: user(2, "Di") });
}

#[test]
fn no_slot_gives_unknown_with_record() {
    let m = decode_message(bare_record()).unwrap();
    assert_eq!(m.kind, MessageKind::Unknown { raw: bare_record() });
}

#[test]
fn unknown_record_reads_back_every_field() {
    let mut raw = bare_record();
    raw.caption = Some("orphan caption".to_string());
    raw.edit_date = Some(1700);
    raw.entities = Some(vec![]);
    let mut inner = bare_record();
    inner.message_id = 3;
    inner.text = Some("earlier".to_string());
    raw.reply_to_message = Some(Box::new(decode_message(inner).unwrap()));
    let mut expected = bare_record();
    expected.caption = Some("orphan caption".to_string());
    expected.edit_date = Some(1700);
    expected.entities = Some(vec![]);
    let mut inner = bare_record();
    inner.message_id = 3;
    inner.text = Some("earlier".to_string());
    expected.reply_to_message = Some(Box::new(decode_message(inner).unwrap()));
    let m = decode_message(raw).unwrap();
    assert_eq!(m.reply_to_message, expected.reply_to_message);
    match m.kind {
        MessageKind::Unknown { raw } => assert_eq!(raw, expected),
        other => panic!("unexpected kind {:?}", other),
    }
}

#[test]
fn reply_target_is_kept() {
    let mut inner = bare_record();
    inner.message_id = 2;
    inner.text = Some("q".to_string());
    let target = decode_message(inner).unwrap();
    let mut raw = bare_record();
    raw.text = Some("a".to_string());
    raw.reply_to_message = Some(Box::new(target));
    let m = decode_message(raw).unwrap();
    let reply: &Message = m.reply_to_message.as_ref().unwrap();
    assert_eq!(reply.id, MessageId(2));
    assert!(reply.reply_to_message.is_none());
}

#[test]
fn profile_photos_request_builder() {
    let req = GetUserProfilePhotos::new(&UserId(42)).offset(3).limit(10);
    assert_eq!(req, GetUserProfilePhotos { user_id: UserId(42), offset: Some(3), limit: Some(10) });
    assert_eq!(GetUserProfilePhotos::name(), "getUserProfilePhotos");
    let from_user = user(8, "Ed").get_user_profile_photos();
    assert_eq!(from_user, GetUserProfilePhotos { user_id: UserId(8), offset: None, limit: None });
}

#[test]
fn message_ids() {
    assert_eq!(MessageId(4).to_message_id(), MessageId(4));
    let mut raw = bare_record();
    raw.text = Some("x".to_string());
    assert_eq!(decode_message(raw).unwrap().to_message_id(), MessageId(11));
}

use gouda::chat::{
    MessageContent, MessageContentAudio, MessageContentFile, MessageContentImage, MessageContentText,
};
use gouda::media::MediaError;
use gouda::messages::{
    attachment_content, attachment_send_name, message_content_plan, message_from_event,
    text_message_plan, AttachmentKind, ContentPlan, MessageType, Relation,
};

fn text(t: &str) -> Option<MessageContent> {
    Some(MessageContent::Text(MessageContentText { content: t.to_owned() }))
}

#[test]
fn messages_text_plans() {
    match message_content_plan(MessageType::Notice { body: "n".to_owned() }) {
        ContentPlan::Ready(c) => assert_eq!(c, text("n")),
        ContentPlan::Download(..) => panic!("expected text"),
    }
    match message_content_plan(MessageType::Location { location_uri: None, geo_uri: "geo:1,2".to_owned() }) {
        ContentPlan::Ready(c) => assert_eq!(c, text("geo:1,2")),
        ContentPlan::Download(..) => panic!("expected text"),
    }
    match message_content_plan(MessageType::Other) {
        ContentPlan::Ready(c) => assert_eq!(c, None),
        ContentPlan::Download(..) => panic!("expected nothing"),
    }
}

#[test]
fn messages_download_plans() {
    match message_content_plan(MessageType::Image { filename: None, body: "pic.png".to_owned() }) {
        ContentPlan::Download(kind, name) => {
            assert_eq!(kind, AttachmentKind::Image);
            assert_eq!(name, "pic.png");
        }
        ContentPlan::Ready(_) => panic!("expected download"),
    }
    match message_content_plan(MessageType::Audio { filename: Some("a.ogg".to_owned()), body: "voice".to_owned() }) {
        ContentPlan::Download(kind, name) => {
            assert_eq!(kind, AttachmentKind::Audio);
            assert_eq!(name, "a.ogg");
        }
        ContentPlan::Ready(_) => panic!("expected download"),
    }
}

#[test]
fn messages_attachment_contents() {
    assert_eq!(
        attachment_content(AttachmentKind::Image, "pic.png".to_owned(), Ok("att/x.png".to_owned())),
        Some(MessageContent::Image(MessageContentImage { image_path: "att/x.png".to_owned() }))
    );
    assert_eq!(
        attachment_content(AttachmentKind::File, "doc.pdf".to_owned(), Ok("att/y.pdf".to_owned())),
        Some(MessageContent::File(MessageContentFile {
            file_path: "att/y.pdf".to_owned(),
            file_name: Some("doc.pdf".to_owned()),
        }))
    );
    assert_eq!(
        attachment_content(AttachmentKind::Audio, "a.ogg".to_owned(), Ok("att/a.ogg".to_owned())),
        Some(MessageContent::AudioFile(MessageContentAudio {
            file_path: "att/a.ogg".to_owned(),
            file_name: Some("a.ogg".to_owned()),
        }))
    );
    assert_eq!(attachment_content(AttachmentKind::Video, "v".to_owned(), Err(MediaError::NotFound)), None);
}

#[test]
fn messages_from_event() {
    let m = message_from_event(
        "$e".to_owned(),
        "!r".to_owned(),
        "@s".to_owned(),
        1234,
        text("hi"),
        &Some(Relation::Reply("$parent".to_owned())),
        &Some(vec!["@a".to_owned()]),
    );
    assert_eq!(m.message_id, "$e");
    assert_eq!(m.related_message_id, Some("$parent".to_owned()));
    assert_eq!(m.mentioned_user_ids, vec!["@a".to_owned()]);
    assert!(!m.is_pinned);
    let m = message_from_event("$e".to_owned(), "!r".to_owned(), "@s".to_owned(), 1, None, &Some(Relation::Other), &None);
    assert_eq!(m.related_message_id, None);
    assert!(m.mentioned_user_ids.is_empty());
}

#[test]
fn messages_text_plan() {
    let plan = text_message_plan(Some("$p".to_owned()), Vec::new(), MessageContentText { content: "**b**".to_owned() });
    assert_eq!(plan.markdown, "**b**");
    assert_eq!(plan.reply_to, Some("$p".to_owned()));
    assert_eq!(plan.mentions, None);
    let plan = text_message_plan(None, vec!["@a".to_owned()], MessageContentText { content: "x".to_owned() });
    assert_eq!(plan.mentions, Some(vec!["@a".to_owned()]));
    assert_eq!(attachment_send_name(&None, &"f.txt".to_owned()), "f.txt");
    assert_eq!(attachment_send_name(&Some("g".to_owned()), &"f.txt".to_owned()), "g");
}

//! Chat messages built from the server's message events, and the plans of
//! messages sent to the server.
use vstd::prelude::*;

use crate::chat::{
    clone_str_vec, Message, MessageContent, MessageContentAudio, MessageContentFile,
    MessageContentImage, MessageContentText, MessageContentVideo,
};
use crate::media::MediaError;

verus! {

/// The kinds of message that the server sends, with what the protocol uses
/// of each.
pub enum MessageType {
    Audio { filename: Option<String>, body: String },
    Emote { body: String },
    File { filename: Option<String>, body: String },
    Image { filename: Option<String>, body: String },
    /// A location: the URI of its location where it has one, else its geo
    /// URI.
    Location { location_uri: Option<String>, geo_uri: String },
    Notice { body: String },
    ServerNotice { body: String },
    Text { body: String },
    Video { filename: Option<String>, body: String },
    /// A kind that the protocol does not show.
    Other,
}

/// The kinds of attached file.
#[derive(Debug, Clone, Copy, PartialEq, Eq, Structural)]
pub enum AttachmentKind {
    Audio,
    File,
    Image,
    Video,
}

/// What building the content of a message takes.
pub enum ContentPlan {
    /// The content is known: text, or none for a kind that is not shown.
    Ready(Option<MessageContent>),
    /// The attachment is downloaded under the file name first; then
    /// `attachment_content` gives the content.
    Download(AttachmentKind, String),
}

/// The text content with the text.
pub open spec fn text_content(t: String) -> Option<MessageContent> {
    Some(MessageContent::Text(MessageContentText { content: t }))
}

/// The name under which an attachment is stored: its file name, or else
/// its body.
pub open spec fn attachment_name(filename: Option<String>, body: String) -> String {
    match filename {
        Some(f) => f,
        None => body,
    }
}

/// What building the content of a message of the kind takes.
pub open spec fn plan_of(msgtype: MessageType) -> ContentPlan {
    match msgtype {
        MessageType::Audio { filename, body } => ContentPlan::Download(AttachmentKind::Audio, attachment_name(filename, body)),
        MessageType::File { filename, body } => ContentPlan::Download(AttachmentKind::File, attachment_name(filename, body)),
        MessageType::Image { filename, body } => ContentPlan::Download(AttachmentKind::Image, attachment_name(filename, body)),
        MessageType::Video { filename, body } => ContentPlan::Download(AttachmentKind::Video, attachment_name(filename, body)),
        MessageType::Emote { body } => ContentPlan::Ready(text_content(body)),
        MessageType::Notice { body } => ContentPlan::Ready(text_content(body)),
        MessageType::ServerNotice { body } => ContentPlan::Ready(text_content(body)),
        MessageType::Text { body } => ContentPlan::Ready(text_content(body)),
        MessageType::Location { location_uri, geo_uri } => ContentPlan::Ready(
            text_content(
                match location_uri {
                    Some(u) => u,
                    None => geo_uri,
                },
            ),
        ),
        MessageType::Other => ContentPlan::Ready(None),
    }
}

/// What building the content of a message of the kind takes: text kinds
/// give their text, a location its URI, attachments a download, and other
/// kinds no content.
pub fn message_content_plan(msgtype: MessageType) -> (r: ContentPlan)
    ensures
        r == plan_of(msgtype),
{
    match msgtype {
        MessageType::Audio { filename, body } => ContentPlan::Download(
            AttachmentKind::Audio,
            match filename {
                Some(f) => f,
                None => body,
            },
        ),
        MessageType::File { filename, body } => ContentPlan::Download(
            AttachmentKind::File,
            match filename {
                Some(f) => f,
                None => body,
            },
        ),
        MessageType::Image { filename, body } => ContentPlan::Download(
            AttachmentKind::Image,
            match filename {
                Some(f) => f,
                None => body,
            },
        ),
        MessageType::Video { filename, body } => ContentPlan::Download(
            AttachmentKind::Video,
            match filename {
                Some(f) => f,
                None => body,
            },
        ),
        MessageType::Emote { body } => ContentPlan::Ready(Some(MessageContent::Text(MessageContentText { content: body }))),
        MessageType::Notice { body } => ContentPlan::Ready(Some(MessageContent::Text(MessageContentText { content: body }))),
        MessageType::ServerNotice { body } => ContentPlan::Ready(
            Some(MessageContent::Text(MessageContentText { content: body })),
        ),
        MessageType::Text { body } => ContentPlan::Ready(Some(MessageContent::Text(MessageContentText { content: body }))),
        MessageType::Location { location_uri, geo_uri } => {
            let uri = match location_uri {
                Some(u) => u,
                None => geo_uri,
            };
            ContentPlan::Ready(Some(MessageContent::Text(MessageContentText { content: uri })))
        },
        MessageType::Other => ContentPlan::Ready(None),
    }
}

/// The content for a downloaded attachment, given the outcome of the
/// download: the path of the stored file; none where the download failed.
pub open spec fn attachment_content_of(
    kind: AttachmentKind,
    file_name: String,
    downloaded: Result<String, MediaError>,
) -> Option<MessageContent> {
    match downloaded {
        Ok(path) => Some(
            match kind {
                AttachmentKind::Image => MessageContent::Image(MessageContentImage { image_path: path }),
                AttachmentKind::File => MessageContent::File(
                    MessageContentFile { file_path: path, file_name: Some(file_name) },
                ),
                AttachmentKind::Audio => MessageContent::AudioFile(
                    MessageContentAudio { file_path: path, file_name: Some(file_name) },
                ),
                AttachmentKind::Video => MessageContent::VideoFile(
                    MessageContentVideo { file_path: path, file_name: Some(file_name) },
                ),
            },
        ),
        Err(_) => None,
    }
}

/// The content for a downloaded attachment; see `attachment_content_of`.
pub fn attachment_content(kind: AttachmentKind, file_name: String, downloaded: Result<String, MediaError>) -> (r:
    Option<MessageContent>)
    ensures
        r == attachment_content_of(kind, file_name, downloaded),
{
    match downloaded {
        Ok(path) => Some(
            match kind {
                AttachmentKind::Image => MessageContent::Image(MessageContentImage { image_path: path }),
                AttachmentKind::File => MessageContent::File(
                    MessageContentFile { file_path: path, file_name: Some(file_name) },
                ),
                AttachmentKind::Audio => MessageContent::AudioFile(
                    MessageContentAudio { file_path: path, file_name: Some(file_name) },
                ),
                AttachmentKind::Video => MessageContent::VideoFile(
                    MessageContentVideo { file_path: path, file_name: Some(file_name) },
                ),
            },
        ),
        Err(_) => None,
    }
}

/// An attachment keeps its kind from the message to its content: once
/// downloaded to a path, an audio message gives an audio file, a file a
/// file, an image an image and a video a video file, each at that path and
/// named by the message's file name, or else its body. A failed download
/// gives no content. The text kinds give their body as text, and a kind
/// that is not shown gives no content.
pub proof fn lemma_attachment_keeps_its_kind(msgtype: MessageType, path: String, err: MediaError)
    ensures
        msgtype matches MessageType::Audio { filename, body } ==> (plan_of(msgtype) matches ContentPlan::Download(
            k,
            name,
        ) && attachment_content_of(k, name, Ok(path)) == Some(
            MessageContent::AudioFile(
                MessageContentAudio {
                    file_path: path,
                    file_name: Some(
                        match filename {
                            Some(f) => f,
                            None => body,
                        },
                    ),
                },
            ),
        ) && attachment_content_of(k, name, Err(err)) is None),
        msgtype matches MessageType::File { filename, body } ==> (plan_of(msgtype) matches ContentPlan::Download(
            k,
            name,
        ) && attachment_content_of(k, name, Ok(path)) == Some(
            MessageContent::File(
                MessageContentFile {
                    file_path: path,
                    file_name: Some(
                        match filename {
                            Some(f) => f,
                            None => body,
                        },
                    ),
                },
            ),
        ) && attachment_content_of(k, name, Err(err)) is None),
        msgtype matches MessageType::Image { filename, body } ==> (plan_of(msgtype) matches ContentPlan::Download(
            k,
            name,
        ) && attachment_content_of(k, name, Ok(path)) == Some(
            MessageContent::Image(MessageContentImage { image_path: path }),
        ) && attachment_content_of(k, name, Err(err)) is None),
        msgtype matches MessageType::Video { filename, body } ==> (plan_of(msgtype) matches ContentPlan::Download(
            k,
            name,
        ) && attachment_content_of(k, name, Ok(path)) == Some(
            MessageContent::VideoFile(
                MessageContentVideo {
                    file_path: path,
                    file_name: Some(
                        match filename {
                            Some(f) => f,
                            None => body,
                        },
                    ),
                },
            ),
        ) && attachment_content_of(k, name, Err(err)) is None),
        msgtype matches MessageType::Text { body } ==> plan_of(msgtype) == ContentPlan::Ready(
            Some(MessageContent::Text(MessageContentText { content: body })),
        ),
        msgtype matches MessageType::Emote { body } ==> plan_of(msgtype) == ContentPlan::Ready(
            Some(MessageContent::Text(MessageContentText { content: body })),
        ),
        msgtype matches MessageType::Notice { body } ==> plan_of(msgtype) == ContentPlan::Ready(
            Some(MessageContent::Text(MessageContentText { content: body })),
        ),
        msgtype matches MessageType::ServerNotice { body } ==> plan_of(msgtype) == ContentPlan::Ready(
            Some(MessageContent::Text(MessageContentText { content: body })),
        ),
        msgtype is Other ==> plan_of(msgtype) == ContentPlan::Ready(None),
{
}

/// How a message event relates to another one.
pub enum Relation {
    /// A reply to the message with the ID.
    Reply(String),
    /// Another relation.
    Other,
}

/// The message that the event replies to, if it is a reply.
pub fn get_related_message_id(relation: &Option<Relation>) -> (r: Option<String>)
    ensures
        match relation {
            Some(Relation::Reply(id)) => r == Some(*id),
            _ => r is None,
        },
{
    match relation {
        Some(Relation::Reply(id)) => Some(id.clone()),
        _ => None,
    }
}

/// The users that a message mentions: none where it carries no mentions.
pub fn matrix_mentions_to_proto_mentions(mentions: &Option<Vec<String>>) -> (r: Vec<String>)
    ensures
        match mentions {
            Some(ids) => r.deep_view() == ids.deep_view(),
            None => r@.len() == 0,
        },
{
    match mentions {
        Some(ids) => clone_str_vec(ids),
        None => Vec::new(),
    }
}

/// The chat message for a message event, with its content and the users it
/// mentions: not pinned, not encrypted and without reactions.
pub fn message_from_event(
    event_id: String,
    room_id: String,
    sender_id: String,
    timestamp: u64,
    content: Option<MessageContent>,
    relation: &Option<Relation>,
    mentions: &Option<Vec<String>>,
) -> (r: Message)
    ensures
        r.message_id == event_id,
        r.room_id == room_id,
        r.sender_id == sender_id,
        r.timestamp == timestamp,
        r.content == content,
        match relation {
            Some(Relation::Reply(id)) => r.related_message_id == Some(*id),
            _ => r.related_message_id is None,
        },
        !r.is_pinned,
        !r.is_encrypted,
        r.reactions@.len() == 0,
        match mentions {
            Some(ids) => r.mentioned_user_ids.deep_view() == ids.deep_view(),
            None => r.mentioned_user_ids@.len() == 0,
        },
{
    let related_message_id = get_related_message_id(relation);
    let mentioned_user_ids = matrix_mentions_to_proto_mentions(mentions);
    Message {
        message_id: event_id,
        room_id,
        sender_id,
        timestamp,
        content,
        related_message_id,
        is_pinned: false,
        is_encrypted: false,
        reactions: Vec::new(),
        mentioned_user_ids,
    }
}

/// What sending a text message asks of the server.
pub struct TextMessagePlan {
    /// The text, read as markdown.
    pub markdown: String,
    /// The message replied to, if any.
    pub reply_to: Option<String>,
    /// The users mentioned, where there are any.
    pub mentions: Option<Vec<String>>,
}

/// What sending a text message asks of the server: the text as markdown, a
/// reply where a related message is given, and mentions where users are.
pub fn text_message_plan(related_message_id: Option<String>, mentioned_user_ids: Vec<String>, content: MessageContentText) -> (r:
    TextMessagePlan)
    ensures
        r.markdown == content.content,
        r.reply_to == related_message_id,
        mentioned_user_ids@.len() == 0 ==> r.mentions is None,
        mentioned_user_ids@.len() > 0 ==> r.mentions == Some(mentioned_user_ids),
{
    let mentions = if mentioned_user_ids.len() == 0 {
        None
    } else {
        Some(mentioned_user_ids)
    };
    TextMessagePlan { markdown: content.content, reply_to: related_message_id, mentions }
}

/// The file name under which an attachment is sent: the given one, or else
/// the name of the file.
pub fn attachment_send_name(file_name: &Option<String>, path_file_name: &String) -> (r: String)
    ensures
        match file_name {
            Some(f) => r == *f,
            None => r == *path_file_name,
        },
{
    match file_name {
        Some(f) => f.clone(),
        None => path_file_name.clone(),
    }
}

} // verus!

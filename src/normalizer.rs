//! Normalization of an incoming payload (a status envelope, a webhook envelope
//! or a contact) into the chat it belongs to and one canonical message record.
use vstd::prelude::*;
use crate::cache::{insert_message_to_chat, insert_ops, ops_of, CacheCommand};
use crate::jid::{normalize_chat_id, normalized_jid};
use crate::text::same_text;
use crate::json::{
    compacted, is_json, json_compacted, json_object_text, json_present, json_string_at, json_with_member,
    members_view, object_text, parses_as_json, present_at, string_at, with_member, JsonScalar, Scalar,
};

verus! {

/// The fields of a message event as found in a payload; each is empty where
/// the payload has no string there.
pub struct MessageFields {
    pub id: String,
    pub from: String,
    pub to: String,
    pub conversation: String,
    pub message_type: String,
    pub base64: String,
    pub timestamp: String,
}

/// The canonical message record kept in a chat's message list.
pub struct CanonicalMessage {
    pub id: String,
    pub from: String,
    pub to: String,
    pub text: String,
    pub body: String,
    pub msg_type: String,
    pub timestamp: String,
}

/// The fields of a message event, over their contents.
pub struct EventFields {
    pub id: Seq<char>,
    pub from: Seq<char>,
    pub to: Seq<char>,
    pub conversation: Seq<char>,
    pub message_type: Seq<char>,
    pub base64: Seq<char>,
    pub timestamp: Seq<char>,
}

/// A canonical message, over its contents.
pub struct MessageRecord {
    pub id: Seq<char>,
    pub from: Seq<char>,
    pub to: Seq<char>,
    pub text: Seq<char>,
    pub body: Seq<char>,
    pub kind: Seq<char>,
    pub timestamp: Seq<char>,
}

impl View for MessageFields {
    type V = EventFields;

    open spec fn view(&self) -> EventFields {
        EventFields {
            id: self.id@,
            from: self.from@,
            to: self.to@,
            conversation: self.conversation@,
            message_type: self.message_type@,
            base64: self.base64@,
            timestamp: self.timestamp@,
        }
    }
}

impl View for CanonicalMessage {
    type V = MessageRecord;

    open spec fn view(&self) -> MessageRecord {
        MessageRecord {
            id: self.id@,
            from: self.from@,
            to: self.to@,
            text: self.text@,
            body: self.body@,
            kind: self.msg_type@,
            timestamp: self.timestamp@,
        }
    }
}

/// The text shown for an image.
pub open spec fn image_caption() -> Seq<char> {
    "📷 Imagem enviada"@
}

/// The text shown for an audio message.
pub open spec fn audio_caption() -> Seq<char> {
    "Áudio enviado"@
}

/// The canonical message of the fields `f`: id `msg_` and the event's id; an
/// image or audio event gets its kind, a data URI of its base64 content as
/// body, and a fixed caption as text; any other keeps its type, with the
/// conversation text as text and body.
pub open spec fn canonical_of(f: EventFields) -> MessageRecord {
    let (text, body, kind) = if f.message_type == "imageMessage"@ {
        (image_caption(), "data:image/png;base64,"@ + f.base64, "image"@)
    } else if f.message_type == "audioMessage"@ {
        (audio_caption(), "data:audio/ogg;base64,"@ + f.base64, "audio"@)
    } else {
        (f.conversation, f.conversation, f.message_type)
    };
    MessageRecord { id: "msg_"@ + f.id, from: f.from, to: f.to, text, body, kind, timestamp: f.timestamp }
}

/// The members of the JSON object of a canonical message.
pub open spec fn canonical_members(m: MessageRecord) -> Seq<(Seq<char>, Scalar)> {
    seq![
        ("id"@, Scalar::Text(m.id)),
        ("from"@, Scalar::Text(m.from)),
        ("to"@, Scalar::Text(m.to)),
        ("text"@, Scalar::Text(m.text)),
        ("body"@, Scalar::Text(m.body)),
        ("type"@, Scalar::Text(m.kind)),
        ("timestamp"@, Scalar::Text(m.timestamp)),
    ]
}

/// The JSON text of a canonical message.
pub open spec fn canonical_json(m: MessageRecord) -> Seq<char> {
    json_object_text(canonical_members(m))
}

/// The string at a pointer of the payload, or empty.
pub open spec fn text_at(b: Seq<u8>, p: Seq<char>) -> Seq<char> {
    match json_string_at(b, p) {
        Some(v) => v,
        None => Seq::empty(),
    }
}

/// The fields of the message event of a payload: read under `data` (sender and
/// date at the top level) when the payload has a `data` member and is not a
/// contact; else all empty (a contact carries chat metadata, not a message).
pub open spec fn fields_of(b: Seq<u8>) -> EventFields {
    if json_present(b, "/data"@) && !is_contact(b) {
        EventFields {
            id: text_at(b, "/data/key/id"@),
            from: text_at(b, "/sender"@),
            to: text_at(b, "/data/key/remoteJid"@),
            conversation: text_at(b, "/data/message/conversation"@),
            message_type: text_at(b, "/data/messageType"@),
            base64: text_at(b, "/data/message/base64"@),
            timestamp: text_at(b, "/date_time"@),
        }
    } else {
        let e = Seq::empty();
        EventFields { id: e, from: e, to: e, conversation: e, message_type: e, base64: e, timestamp: e }
    }
}

/// The chat a payload names: the first string found at a status envelope's
/// `status_string.key.remote_jid`, a webhook's `data.key.remoteJid` or a
/// contact's `number`; `unknown_chat` when there is none.
pub open spec fn raw_chat_id(b: Seq<u8>) -> Seq<char> {
    match json_string_at(b, "/status_string/key/remote_jid"@) {
        Some(v) => v,
        None => match json_string_at(b, "/data/key/remoteJid"@) {
            Some(v) => v,
            None => match json_string_at(b, "/number"@) {
                Some(v) => v,
                None => "unknown_chat"@,
            },
        },
    }
}

/// The payload is a contact: it has `name`, `number` and `created_at`.
pub open spec fn is_contact(b: Seq<u8>) -> bool {
    json_present(b, "/name"@) && json_present(b, "/number"@) && json_present(b, "/created_at"@)
}

/// The chat metadata of a contact: the contact itself, with `instance_id`
/// taken from `data.instanceId` when it has none of its own.
pub open spec fn contact_metadata(b: Seq<u8>) -> Seq<char> {
    if !json_present(b, "/instance_id"@) && json_present(b, "/data/instanceId"@) {
        json_with_member(b, "instance_id"@, "/data/instanceId"@)
    } else {
        json_compacted(b)
    }
}

/// Builds the canonical message of a message event.
pub fn canonical_message(f: &MessageFields) -> (r: CanonicalMessage)
    ensures
        r@ == canonical_of(f@),
{
    let id = String::from_str("msg_").concat(f.id.as_str());
    let from = f.from.clone();
    let to = f.to.clone();
    let timestamp = f.timestamp.clone();
    if same_text(f.message_type.as_str(), "imageMessage") {
        let body = String::from_str("data:image/png;base64,").concat(f.base64.as_str());
        CanonicalMessage { id, from, to, text: String::from_str("📷 Imagem enviada"), body, msg_type: String::from_str("image"), timestamp }
    } else if same_text(f.message_type.as_str(), "audioMessage") {
        let body = String::from_str("data:audio/ogg;base64,").concat(f.base64.as_str());
        CanonicalMessage { id, from, to, text: String::from_str("Áudio enviado"), body, msg_type: String::from_str("audio"), timestamp }
    } else {
        CanonicalMessage { id, from, to, text: f.conversation.clone(), body: f.conversation.clone(), msg_type: f.message_type.clone(), timestamp }
    }
}

impl CanonicalMessage {
    /// The JSON text of the record.
    pub fn to_json(&self) -> (r: String)
        ensures
            r@ == canonical_json(self@),
    {
        let members = vec![
            (String::from_str("id"), JsonScalar::Text(self.id.clone())),
            (String::from_str("from"), JsonScalar::Text(self.from.clone())),
            (String::from_str("to"), JsonScalar::Text(self.to.clone())),
            (String::from_str("text"), JsonScalar::Text(self.text.clone())),
            (String::from_str("body"), JsonScalar::Text(self.body.clone())),
            (String::from_str("type"), JsonScalar::Text(self.msg_type.clone())),
            (String::from_str("timestamp"), JsonScalar::Text(self.timestamp.clone())),
        ];
        assert(members_view(members@) =~= canonical_members(self@));
        object_text(&members)
    }
}

fn text_or_empty(data: &[u8], pointer: &str) -> (r: String)
    ensures
        r@ == text_at(data@, pointer@),
{
    match string_at(data, pointer) {
        Some(v) => v,
        None => String::new(),
    }
}

/// Reads the fields of the message event of a payload.
pub fn message_fields(data: &[u8]) -> (r: MessageFields)
    ensures
        r@ == fields_of(data@),
{
    let contact = present_at(data, "/name") && present_at(data, "/number") && present_at(data, "/created_at");
    if present_at(data, "/data") && !contact {
        MessageFields {
            id: text_or_empty(data, "/data/key/id"),
            from: text_or_empty(data, "/sender"),
            to: text_or_empty(data, "/data/key/remoteJid"),
            conversation: text_or_empty(data, "/data/message/conversation"),
            message_type: text_or_empty(data, "/data/messageType"),
            base64: text_or_empty(data, "/data/message/base64"),
            timestamp: text_or_empty(data, "/date_time"),
        }
    } else {
        MessageFields {
            id: String::new(),
            from: String::new(),
            to: String::new(),
            conversation: String::new(),
            message_type: String::new(),
            base64: String::new(),
            timestamp: String::new(),
        }
    }
}

/// Why an incoming payload was dropped.
#[derive(Debug, Clone, Copy, PartialEq, Eq, Structural)]
pub enum IncomingError {
    /// The payload is not well-formed JSON.
    MalformedJson,
}

/// What an incoming payload asks of the cache: the chat it belongs to, the
/// metadata that seeds a new chat (for a contact), and the message to append.
pub struct IncomingPlan {
    pub chat_id: String,
    pub remote_jid: String,
    pub chat_metadata: Option<String>,
    pub message_json: String,
}

pub open spec fn opt_string(o: Option<String>) -> Option<Seq<char>> {
    match o {
        Some(s) => Some(s@),
        None => None,
    }
}

/// The metadata a payload brings: its contact form for a contact, else none.
pub open spec fn metadata_of(b: Seq<u8>) -> Option<Seq<char>> {
    if is_contact(b) {
        Some(contact_metadata(b))
    } else {
        None
    }
}

fn first_chat_id(data: &[u8]) -> (r: String)
    ensures
        r@ == raw_chat_id(data@),
{
    if let Some(v) = string_at(data, "/status_string/key/remote_jid") {
        v
    } else if let Some(v) = string_at(data, "/data/key/remoteJid") {
        v
    } else if let Some(v) = string_at(data, "/number") {
        v
    } else {
        String::from_str("unknown_chat")
    }
}

fn chat_metadata(data: &[u8]) -> (r: Option<String>)
    ensures
        opt_string(r) == metadata_of(data@),
{
    if present_at(data, "/name") && present_at(data, "/number") && present_at(data, "/created_at") {
        if !present_at(data, "/instance_id") && present_at(data, "/data/instanceId") {
            Some(with_member(data, "instance_id", "/data/instanceId"))
        } else {
            Some(compacted(data))
        }
    } else {
        None
    }
}

/// Reads an incoming payload: fails on malformed JSON; else names the chat
/// (normalized; also the remote JID), the metadata of a contact, and the
/// canonical message of the event it carries.
pub fn plan_incoming(data: &[u8]) -> (r: Result<IncomingPlan, IncomingError>)
    ensures
        r is Err <==> !is_json(data@),
        r is Err ==> r->Err_0 == IncomingError::MalformedJson,
        r is Ok ==> ({
            let p = r->Ok_0;
            &&& p.chat_id@ == normalized_jid(raw_chat_id(data@))
            &&& p.remote_jid@ == p.chat_id@
            &&& opt_string(p.chat_metadata) == metadata_of(data@)
            &&& p.message_json@ == canonical_json(canonical_of(fields_of(data@)))
        }),
{
    if !parses_as_json(data) {
        return Err(IncomingError::MalformedJson);
    }
    let raw = first_chat_id(data);
    let chat_id = normalize_chat_id(raw.as_str());
    let remote_jid = chat_id.clone();
    let chat_metadata = chat_metadata(data);
    let message = canonical_message(&message_fields(data));
    let message_json = message.to_json();
    Ok(IncomingPlan { chat_id, remote_jid, chat_metadata, message_json })
}

impl IncomingPlan {
    /// The commands that store the planned message, given whether the chat's
    /// header key exists; `data` is the payload the plan was read from.
    pub fn commands(&self, data: &[u8], exists: bool) -> (r: Vec<CacheCommand>)
        ensures
            ops_of(r@) == insert_ops(self.chat_id@, self.message_json@, self.remote_jid@, opt_string(self.chat_metadata), Some(data@), exists),
    {
        let metadata = match &self.chat_metadata {
            Some(m) => Some(m.as_str()),
            None => None,
        };
        insert_message_to_chat(self.chat_id.as_str(), self.message_json.as_str(), self.remote_jid.as_str(), metadata, Some(data), exists)
    }
}

/// An image event (a message envelope, not a contact) with base64 content becomes a message of type `image`
/// whose body is a PNG data URI of that content and whose text is the fixed
/// image caption, whatever its conversation text.
pub proof fn lemma_image_message(b: Seq<u8>, content: Seq<char>)
    requires
        json_present(b, "/data"@),
        !is_contact(b),
        json_string_at(b, "/data/messageType"@) == Some("imageMessage"@),
        json_string_at(b, "/data/message/base64"@) == Some(content),
    ensures
        ({
            let m = canonical_of(fields_of(b));
            &&& m.kind == "image"@
            &&& m.body == "data:image/png;base64,"@ + content
            &&& m.text == image_caption()
        }),
{
}

/// An audio event (a message envelope, not a contact) with base64 content becomes a message of type `audio` whose
/// body is an OGG data URI of that content and whose text is the fixed audio
/// caption, whatever its conversation text.
pub proof fn lemma_audio_message(b: Seq<u8>, content: Seq<char>)
    requires
        json_present(b, "/data"@),
        !is_contact(b),
        json_string_at(b, "/data/messageType"@) == Some("audioMessage"@),
        json_string_at(b, "/data/message/base64"@) == Some(content),
    ensures
        ({
            let m = canonical_of(fields_of(b));
            &&& m.kind == "audio"@
            &&& m.body == "data:audio/ogg;base64,"@ + content
            &&& m.text == audio_caption()
        }),
{
    reveal_strlit("audioMessage");
    reveal_strlit("imageMessage");
    assert("audioMessage"@[0] != "imageMessage"@[0]);
}


} // verus!

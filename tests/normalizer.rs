use wasol_consumer::cache::CacheCommand;
use wasol_consumer::normalizer::{canonical_message, message_fields, plan_incoming, IncomingError, MessageFields};

const WEBHOOK: &[u8] = br#"{
  "event": "messages.upsert",
  "sender": "5511900000000@s.whatsapp.net",
  "date_time": "2024-05-01T10:00:00.000Z",
  "apikey": "API-7",
  "data": {
    "key": {"remoteJid": "551187654321@s.whatsapp.net", "fromMe": false, "id": "ABC123"},
    "message": {"conversation": "Hello \"there\""},
    "messageType": "conversation",
    "instanceId": "inst-1"
  }
}"#;

const IMAGE: &[u8] = br#"{
  "sender": "s",
  "date_time": "t",
  "data": {
    "key": {"remoteJid": "5511987654321@s.whatsapp.net", "id": "IMG1"},
    "message": {"conversation": "ignored caption", "base64": "iVBORw0KGgo="},
    "messageType": "imageMessage"
  }
}"#;

const AUDIO: &[u8] = br#"{
  "data": {
    "key": {"remoteJid": "5511987654321@s.whatsapp.net", "id": "AUD1"},
    "message": {"base64": "T2dnUw=="},
    "messageType": "audioMessage"
  }
}"#;

#[test]
fn webhook_message_is_normalized() {
    let plan = plan_incoming(WEBHOOK).unwrap_or_else(|_| panic!("plan failed"));
    assert_eq!(plan.chat_id, "5511987654321@s.whatsapp.net");
    assert_eq!(plan.remote_jid, plan.chat_id);
    assert_eq!(plan.chat_metadata, None);
    assert_eq!(
        plan.message_json,
        "{\"body\":\"Hello \\\"there\\\"\",\"from\":\"5511900000000@s.whatsapp.net\",\"id\":\"msg_ABC123\",\"text\":\"Hello \\\"there\\\"\",\"timestamp\":\"2024-05-01T10:00:00.000Z\",\"to\":\"551187654321@s.whatsapp.net\",\"type\":\"conversation\"}"
    );
}

#[test]
fn image_message_gets_data_uri_and_caption() {
    let plan = plan_incoming(IMAGE).unwrap_or_else(|_| panic!("plan failed"));
    assert_eq!(
        plan.message_json,
        "{\"body\":\"data:image/png;base64,iVBORw0KGgo=\",\"from\":\"s\",\"id\":\"msg_IMG1\",\"text\":\"📷 Imagem enviada\",\"timestamp\":\"t\",\"to\":\"5511987654321@s.whatsapp.net\",\"type\":\"image\"}"
    );
}

#[test]
fn image_fields_ignore_conversation() {
    let m = canonical_message(&message_fields(IMAGE));
    assert_eq!(m.msg_type, "image");
    assert!(m.body.starts_with("data:image/png;base64,"));
    assert_eq!(m.text, "📷 Imagem enviada");
}

#[test]
fn audio_message_gets_data_uri_and_caption() {
    let m = canonical_message(&message_fields(AUDIO));
    assert_eq!(m.msg_type, "audio");
    assert_eq!(m.body, "data:audio/ogg;base64,T2dnUw==");
    assert_eq!(m.text, "Áudio enviado");
    assert_eq!(m.from, "");
}

#[test]
fn other_types_keep_conversation_and_type() {
    let f = MessageFields {
        id: "X".to_string(),
        from: "a".to_string(),
        to: "b".to_string(),
        conversation: "hi".to_string(),
        message_type: "extendedTextMessage".to_string(),
        base64: "zzz".to_string(),
        timestamp: "t".to_string(),
    };
    let m = canonical_message(&f);
    assert_eq!(m.id, "msg_X");
    assert_eq!(m.text, "hi");
    assert_eq!(m.body, "hi");
    assert_eq!(m.msg_type, "extendedTextMessage");
}

#[test]
fn malformed_payload_is_rejected() {
    assert!(matches!(plan_incoming(b"{\"data\": "), Err(IncomingError::MalformedJson)));
    assert!(matches!(plan_incoming(b""), Err(IncomingError::MalformedJson)));
}

#[test]
fn payload_without_chat_goes_to_unknown_chat() {
    let plan = plan_incoming(br#"{"hello": 1}"#).unwrap_or_else(|_| panic!("plan failed"));
    assert_eq!(plan.chat_id, "unknown_chat");
    assert_eq!(
        plan.message_json,
        "{\"body\":\"\",\"from\":\"\",\"id\":\"msg_\",\"text\":\"\",\"timestamp\":\"\",\"to\":\"\",\"type\":\"\"}"
    );
}

#[test]
fn status_envelope_chat_comes_first() {
    let data = br#"{"status_string":{"key":{"remote_jid":"12345@g.us"}},"data":{"key":{"remoteJid":"551187654321@x"}}}"#;
    let plan = plan_incoming(data).unwrap_or_else(|_| panic!("plan failed"));
    assert_eq!(plan.chat_id, "12345@g.us");
}

#[test]
fn non_string_chat_falls_through() {
    let data = br#"{"status_string":{"key":{"remote_jid":null}},"number":"551187654321@x"}"#;
    let plan = plan_incoming(data).unwrap_or_else(|_| panic!("plan failed"));
    assert_eq!(plan.chat_id, "5511987654321@x");
}

#[test]
fn contact_seeds_chat_metadata_with_instance() {
    let data = br#"{"name":"Ana","number":"551187654321@s.whatsapp.net","created_at":"2024","data":{"instanceId":"inst-9"}}"#;
    let plan = plan_incoming(data).unwrap_or_else(|_| panic!("plan failed"));
    assert_eq!(plan.chat_id, "5511987654321@s.whatsapp.net");
    assert_eq!(
        plan.chat_metadata.as_deref(),
        Some("{\"created_at\":\"2024\",\"data\":{\"instanceId\":\"inst-9\"},\"instance_id\":\"inst-9\",\"name\":\"Ana\",\"number\":\"551187654321@s.whatsapp.net\"}")
    );
}

#[test]
fn contact_skips_message_extraction() {
    let data = br#"{"name":"Ana","number":"1@x","created_at":"2024","sender":"s","data":{"key":{"id":"K"},"message":{"conversation":"hi"}}}"#;
    let plan = plan_incoming(data).unwrap_or_else(|_| panic!("plan failed"));
    assert_eq!(
        plan.message_json,
        "{\"body\":\"\",\"from\":\"\",\"id\":\"msg_\",\"text\":\"\",\"timestamp\":\"\",\"to\":\"\",\"type\":\"\"}"
    );
}

#[test]
fn contact_keeps_its_own_instance() {
    let data = br#"{"number":"1@x", "name":"Ana","created_at":"2024","instance_id":"own","data":{"instanceId":"other"}}"#;
    let plan = plan_incoming(data).unwrap_or_else(|_| panic!("plan failed"));
    assert_eq!(
        plan.chat_metadata.as_deref(),
        Some("{\"created_at\":\"2024\",\"data\":{\"instanceId\":\"other\"},\"instance_id\":\"own\",\"name\":\"Ana\",\"number\":\"1@x\"}")
    );
}

#[test]
fn plan_commands_store_header_and_message() {
    let plan = plan_incoming(WEBHOOK).unwrap_or_else(|_| panic!("plan failed"));
    let cmds = plan.commands(WEBHOOK, false);
    assert_eq!(cmds.len(), 3);
    match &cmds[0] {
        CacheCommand::ListPush { key, value } => {
            assert_eq!(key, "chat:5511987654321@s.whatsapp.net");
            assert!(value.contains("\"instance_id\":\"API-7\""));
            assert!(value.contains("\"number\":\"5511987654321\""));
        }
        other => panic!("unexpected {:?}", other),
    }
    assert_eq!(
        cmds[2],
        CacheCommand::ListPush { key: "chat:5511987654321@s.whatsapp.net:messages".to_string(), value: plan.message_json.clone() }
    );
    assert_eq!(plan.commands(WEBHOOK, true).len(), 1);
}

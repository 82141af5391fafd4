use std::collections::{HashMap, HashSet};
use wasol_consumer::cache::{chat_header_key, ensure_chat_exists, insert_message_to_chat, CacheCommand};

#[derive(Default)]
struct FakeCache {
    lists: HashMap<String, Vec<String>>,
    sets: HashMap<String, HashSet<String>>,
}

impl FakeCache {
    fn has_key(&self, key: &str) -> bool {
        self.lists.contains_key(key) || self.sets.contains_key(key)
    }

    fn run(&mut self, cmds: Vec<CacheCommand>) {
        for c in cmds {
            match c {
                CacheCommand::ListPush { key, value } => self.lists.entry(key).or_default().push(value),
                CacheCommand::SetAdd { key, member } => {
                    self.sets.entry(key).or_default().insert(member);
                }
            }
        }
    }
}

const JID: &str = "551187654321@s.whatsapp.net";
const NORM: &str = "5511987654321@s.whatsapp.net";

#[test]
fn header_key_uses_normalized_id() {
    assert_eq!(chat_header_key(JID), format!("chat:{}", NORM));
}

#[test]
fn new_chat_gets_synthesized_header_and_membership() {
    let payload = br#"{"apikey":"KEY-1","data":{}}"#;
    let cmds = ensure_chat_exists(JID, JID, None, Some(payload), false);
    assert_eq!(
        cmds,
        vec![
            CacheCommand::ListPush {
                key: format!("chat:{}", NORM),
                value: format!(
                    "{{\"agent_id\":null,\"id\":\"{}\",\"instance_id\":\"KEY-1\",\"is_active\":true,\"number\":\"551187654321\",\"situation\":\"enqueued\",\"tabulation\":null}}",
                    NORM
                ),
            },
            CacheCommand::SetAdd { key: "chats".to_string(), member: NORM.to_string() },
        ]
    );
}

#[test]
fn header_without_payload_has_empty_instance() {
    let cmds = ensure_chat_exists("12345@g.us", "12345@g.us", None, None, false);
    match &cmds[0] {
        CacheCommand::ListPush { value, .. } => assert!(value.contains("\"instance_id\":\"\"")),
        other => panic!("unexpected {:?}", other),
    }
}

#[test]
fn header_with_unparsable_payload_has_empty_instance() {
    let cmds = ensure_chat_exists("12345@g.us", "12345@g.us", None, Some(b"not json"), false);
    match &cmds[0] {
        CacheCommand::ListPush { value, .. } => assert!(value.contains("\"instance_id\":\"\"")),
        other => panic!("unexpected {:?}", other),
    }
}

#[test]
fn metadata_is_used_verbatim() {
    let cmds = ensure_chat_exists(JID, JID, Some("{\"name\":\"Ana\"}"), None, false);
    assert_eq!(cmds[0], CacheCommand::ListPush { key: format!("chat:{}", NORM), value: "{\"name\":\"Ana\"}".to_string() });
}

#[test]
fn existing_chat_needs_no_command() {
    assert!(ensure_chat_exists(JID, JID, None, None, true).is_empty());
}

#[test]
fn ensure_chat_twice_leaves_one_header() {
    let mut cache = FakeCache::default();
    for _ in 0..2 {
        let exists = cache.has_key(&chat_header_key(JID));
        cache.run(ensure_chat_exists(JID, JID, None, None, exists));
    }
    assert_eq!(cache.lists[&format!("chat:{}", NORM)].len(), 1);
    assert_eq!(cache.sets["chats"].len(), 1);
    assert!(cache.sets["chats"].contains(NORM));
}

#[test]
fn inserted_messages_are_appended_in_order() {
    let mut cache = FakeCache::default();
    let messages = ["{\"id\":\"msg_1\"}", "{\"id\":\"msg_2\"}", "{\"id\":\"msg_3\"}"];
    for m in messages {
        let exists = cache.has_key(&chat_header_key(JID));
        cache.run(insert_message_to_chat(JID, m, JID, None, None, exists));
    }
    assert_eq!(cache.lists[&format!("chat:{}:messages", NORM)], messages.to_vec());
    assert_eq!(cache.lists[&format!("chat:{}", NORM)].len(), 1);
    assert_eq!(cache.sets["chats"].len(), 1);
}

#[test]
fn repeated_message_is_not_deduplicated() {
    let mut cache = FakeCache::default();
    for _ in 0..2 {
        let exists = cache.has_key(&chat_header_key(JID));
        cache.run(insert_message_to_chat(JID, "{\"id\":\"msg_1\"}", JID, None, None, exists));
    }
    assert_eq!(cache.lists[&format!("chat:{}:messages", NORM)].len(), 2);
}

#[test]
fn insert_into_existing_chat_only_appends() {
    let cmds = insert_message_to_chat(JID, "m", JID, None, None, true);
    assert_eq!(cmds, vec![CacheCommand::ListPush { key: format!("chat:{}:messages", NORM), value: "m".to_string() }]);
}

//! The key-value cache of chats: `chat:<id>` (a list holding the chat header),
//! `chat:<id>:messages` (a list of messages, append-only) and `chats` (the set
//! of known chat ids). The functions here decide which commands to send; the
//! caller sends them, in order, and answers whether a key exists.
use vstd::prelude::*;
use crate::jid::{lemma_normalize_idempotent, local_part, local_part_of, normalize_chat_id, normalized_jid};
use crate::json::{json_object_text, json_string_at, object_text, string_at, JsonScalar, Scalar, members_view};

verus! {

/// One write to the cache.
#[derive(Debug, PartialEq, Eq)]
pub enum CacheCommand {
    /// Append `value` at the tail of the list at `key` (created when absent).
    ListPush { key: String, value: String },
    /// Add `member` to the set at `key` (created when absent).
    SetAdd { key: String, member: String },
}

/// A cache command over its strings' contents.
pub enum CacheOp {
    ListPush { key: Seq<char>, value: Seq<char> },
    SetAdd { key: Seq<char>, member: Seq<char> },
}

impl View for CacheCommand {
    type V = CacheOp;

    open spec fn view(&self) -> CacheOp {
        match self {
            CacheCommand::ListPush { key, value } => CacheOp::ListPush { key: key@, value: value@ },
            CacheCommand::SetAdd { key, member } => CacheOp::SetAdd { key: key@, member: member@ },
        }
    }
}

pub open spec fn ops_of(cmds: Seq<CacheCommand>) -> Seq<CacheOp> {
    cmds.map_values(|c: CacheCommand| c@)
}

/// The contents of the cache: its lists and its sets, by key.
pub struct CacheState {
    pub lists: Map<Seq<char>, Seq<Seq<char>>>,
    pub sets: Map<Seq<char>, Set<Seq<char>>>,
}

pub open spec fn list_at(s: CacheState, key: Seq<char>) -> Seq<Seq<char>> {
    if s.lists.contains_key(key) {
        s.lists[key]
    } else {
        Seq::empty()
    }
}

pub open spec fn set_at(s: CacheState, key: Seq<char>) -> Set<Seq<char>> {
    if s.sets.contains_key(key) {
        s.sets[key]
    } else {
        Set::empty()
    }
}

/// What the cache answers when asked whether a key exists.
pub open spec fn key_exists(s: CacheState, key: Seq<char>) -> bool {
    s.lists.contains_key(key) || s.sets.contains_key(key)
}

pub open spec fn apply_op(s: CacheState, op: CacheOp) -> CacheState {
    match op {
        CacheOp::ListPush { key, value } => CacheState {
            lists: s.lists.insert(key, list_at(s, key).push(value)),
            sets: s.sets,
        },
        CacheOp::SetAdd { key, member } => CacheState {
            lists: s.lists,
            sets: s.sets.insert(key, set_at(s, key).insert(member)),
        },
    }
}

/// The cache after the commands, sent in order.
pub open spec fn apply_ops(s: CacheState, ops: Seq<CacheOp>) -> CacheState
    decreases ops.len(),
{
    if ops.len() == 0 {
        s
    } else {
        apply_ops(apply_op(s, ops[0]), ops.drop_first())
    }
}

/// Key of the list that holds the header of the chat `id`.
pub open spec fn header_key(id: Seq<char>) -> Seq<char> {
    "chat:"@ + id
}

/// Key of the list that holds the messages of the chat `id`.
pub open spec fn messages_key(id: Seq<char>) -> Seq<char> {
    "chat:"@ + id + ":messages"@
}

/// Key of the set of known chat ids.
pub open spec fn known_chats_key() -> Seq<char> {
    "chats"@
}

pub open spec fn text_of(o: Option<&str>) -> Option<Seq<char>> {
    match o {
        Some(s) => Some(s@),
        None => None,
    }
}

pub open spec fn bytes_of(o: Option<&[u8]>) -> Option<Seq<u8>> {
    match o {
        Some(b) => Some(b@),
        None => None,
    }
}

/// The instance of a chat: the string `apikey` of the raw payload, else empty.
pub open spec fn instance_of(payload: Option<Seq<u8>>) -> Seq<char> {
    match payload {
        Some(b) => match json_string_at(b, "/apikey"@) {
            Some(v) => v,
            None => Seq::empty(),
        },
        None => Seq::empty(),
    }
}

/// The members of the header written for a new chat that comes with no
/// metadata.
pub open spec fn header_members(id: Seq<char>, instance: Seq<char>, number: Seq<char>) -> Seq<(Seq<char>, Scalar)> {
    seq![
        ("id"@, Scalar::Text(id)),
        ("situation"@, Scalar::Text("enqueued"@)),
        ("is_active"@, Scalar::Bool(true)),
        ("agent_id"@, Scalar::Null),
        ("tabulation"@, Scalar::Null),
        ("instance_id"@, Scalar::Text(instance)),
        ("number"@, Scalar::Text(number)),
    ]
}

/// The header written for a new chat that comes with no metadata.
pub open spec fn synthesized_header(id: Seq<char>, instance: Seq<char>, number: Seq<char>) -> Seq<char> {
    json_object_text(header_members(id, instance, number))
}

/// The header of a new chat: the metadata as given, else a synthesized one.
pub open spec fn chat_header(
    id: Seq<char>,
    remote_jid: Seq<char>,
    metadata: Option<Seq<char>>,
    payload: Option<Seq<u8>>,
) -> Seq<char> {
    match metadata {
        Some(m) => m,
        None => synthesized_header(id, instance_of(payload), local_part(remote_jid)),
    }
}

/// The commands that make sure a chat exists, given whether its header key
/// exists: none when it does; else the header, then the id in the known chats.
pub open spec fn ensure_ops(
    chat_id: Seq<char>,
    remote_jid: Seq<char>,
    metadata: Option<Seq<char>>,
    payload: Option<Seq<u8>>,
    exists: bool,
) -> Seq<CacheOp> {
    let id = normalized_jid(chat_id);
    if exists {
        Seq::empty()
    } else {
        seq![
            CacheOp::ListPush { key: header_key(id), value: chat_header(id, remote_jid, metadata, payload) },
            CacheOp::SetAdd { key: known_chats_key(), member: id },
        ]
    }
}

/// The commands that store one message: the chat made sure of, then the
/// message appended to its list.
pub open spec fn insert_ops(
    chat_id: Seq<char>,
    message: Seq<char>,
    remote_jid: Seq<char>,
    metadata: Option<Seq<char>>,
    payload: Option<Seq<u8>>,
    exists: bool,
) -> Seq<CacheOp> {
    let id = normalized_jid(chat_id);
    ensure_ops(id, remote_jid, metadata, payload, exists) + seq![
        CacheOp::ListPush { key: messages_key(id), value: message },
    ]
}

proof fn lemma_apply_ops_append(s: CacheState, a: Seq<CacheOp>, b: Seq<CacheOp>)
    ensures
        apply_ops(s, a + b) == apply_ops(apply_ops(s, a), b),
    decreases a.len(),
{
    if a.len() == 0 {
        assert(a + b =~= b);
    } else {
        assert((a + b).drop_first() =~= a.drop_first() + b);
        lemma_apply_ops_append(apply_op(s, a[0]), a.drop_first(), b);
    }
}

proof fn lemma_apply_two(s: CacheState, x: CacheOp, y: CacheOp)
    ensures
        apply_ops(s, seq![x, y]) == apply_op(apply_op(s, x), y),
{
    assert(seq![x, y].drop_first() =~= seq![y]);
    lemma_apply_one(apply_op(s, x), y);
}

proof fn lemma_apply_one(s: CacheState, x: CacheOp)
    ensures
        apply_ops(s, seq![x]) == apply_op(s, x),
{
    assert(seq![x].drop_first() =~= Seq::<CacheOp>::empty());
    assert(apply_ops(apply_op(s, x), Seq::<CacheOp>::empty()) == apply_op(s, x));
}

/// The cache after making sure of a chat, with the cache's own answer on
/// whether the chat's header exists.
pub open spec fn after_ensure(
    s: CacheState,
    chat_id: Seq<char>,
    remote_jid: Seq<char>,
    metadata: Option<Seq<char>>,
    payload: Option<Seq<u8>>,
) -> CacheState {
    let exists = key_exists(s, header_key(normalized_jid(chat_id)));
    apply_ops(s, ensure_ops(chat_id, remote_jid, metadata, payload, exists))
}

/// Making sure of a chat twice leaves the cache as making sure once does; a
/// chat that was new then has exactly one header entry, and its id is in the
/// known chats.
pub proof fn lemma_ensure_chat_idempotent(
    s: CacheState,
    chat_id: Seq<char>,
    remote_jid: Seq<char>,
    metadata: Option<Seq<char>>,
    payload: Option<Seq<u8>>,
)
    ensures
        ({
            let id = normalized_jid(chat_id);
            let once = after_ensure(s, chat_id, remote_jid, metadata, payload);
            &&& after_ensure(once, chat_id, remote_jid, metadata, payload) == once
            &&& key_exists(once, header_key(id))
            &&& !key_exists(s, header_key(id)) ==> {
                &&& list_at(once, header_key(id)) == seq![chat_header(id, remote_jid, metadata, payload)]
                &&& set_at(once, known_chats_key()) == set_at(s, known_chats_key()).insert(id)
            }
        }),
{
    let id = normalized_jid(chat_id);
    if !key_exists(s, header_key(id)) {
        let ops = ensure_ops(chat_id, remote_jid, metadata, payload, false);
        lemma_apply_two(s, ops[0], ops[1]);
    }
    let once = after_ensure(s, chat_id, remote_jid, metadata, payload);
    assert(key_exists(once, header_key(id)));
    assert(ensure_ops(chat_id, remote_jid, metadata, payload, true) =~= Seq::<CacheOp>::empty());
}

/// The cache after storing the messages, one after the other, in the chat
/// `chat_id`, each time with the cache's own answer on whether the chat's
/// header exists.
pub open spec fn after_inserts(
    s: CacheState,
    chat_id: Seq<char>,
    messages: Seq<Seq<char>>,
    remote_jid: Seq<char>,
    metadata: Option<Seq<char>>,
    payload: Option<Seq<u8>>,
) -> CacheState
    decreases messages.len(),
{
    if messages.len() == 0 {
        s
    } else {
        let prev = after_inserts(s, chat_id, messages.drop_last(), remote_jid, metadata, payload);
        let exists = key_exists(prev, header_key(normalized_jid(chat_id)));
        apply_ops(prev, insert_ops(chat_id, messages.last(), remote_jid, metadata, payload, exists))
    }
}

/// Storing N messages in one chat appends all N to its message list, in the
/// order of the calls and with no deduplication, and leaves exactly one header
/// entry for a chat that was new (an existing header is left as it was).
pub proof fn lemma_insert_messages_appends(
    s: CacheState,
    chat_id: Seq<char>,
    messages: Seq<Seq<char>>,
    remote_jid: Seq<char>,
    metadata: Option<Seq<char>>,
    payload: Option<Seq<u8>>,
)
    ensures
        ({
            let id = normalized_jid(chat_id);
            let r = after_inserts(s, chat_id, messages, remote_jid, metadata, payload);
            &&& list_at(r, messages_key(id)) == list_at(s, messages_key(id)) + messages
            &&& key_exists(s, header_key(id)) ==> list_at(r, header_key(id)) == list_at(s, header_key(id))
            &&& !key_exists(s, header_key(id)) && messages.len() > 0 ==> list_at(r, header_key(id))
                == seq![chat_header(id, remote_jid, metadata, payload)]
            &&& messages.len() > 0 ==> key_exists(r, header_key(id))
        }),
    decreases messages.len(),
{
    let id = normalized_jid(chat_id);
    if messages.len() == 0 {
        assert(list_at(s, messages_key(id)) + messages =~= list_at(s, messages_key(id)));
    } else {
        let init = messages.drop_last();
        lemma_insert_messages_appends(s, chat_id, init, remote_jid, metadata, payload);
        lemma_normalize_idempotent(chat_id);
        let prev = after_inserts(s, chat_id, init, remote_jid, metadata, payload);
        let exists = key_exists(prev, header_key(id));
        let e = ensure_ops(id, remote_jid, metadata, payload, exists);
        let push = CacheOp::ListPush { key: messages_key(id), value: messages.last() };
        lemma_apply_ops_append(prev, e, seq![push]);
        let mid = apply_ops(prev, e);
        lemma_apply_one(mid, push);
        reveal_strlit(":messages");
        assert(header_key(id).len() != messages_key(id).len());
        if !exists {
            lemma_apply_two(prev, e[0], e[1]);
        } else {
            assert(e =~= Seq::<CacheOp>::empty());
        }
        assert(list_at(mid, messages_key(id)) == list_at(prev, messages_key(id)));
        assert(list_at(s, messages_key(id)) + messages =~= (list_at(s, messages_key(id)) + init).push(messages.last()));
    }
}


/// Key of the header list of a chat, whose existence decides
/// `ensure_chat_exists`.
pub fn chat_header_key(chat_id: &str) -> (r: String)
    ensures
        r@ == header_key(normalized_jid(chat_id@)),
{
    let id = normalize_chat_id(chat_id);
    let r = String::from_str("chat:").concat(id.as_str());
    r
}

/// The header of a chat that comes with no metadata.
fn synthesize_header(id: &str, remote_jid: &str, payload: Option<&[u8]>) -> (r: String)
    ensures
        r@ == synthesized_header(id@, instance_of(bytes_of(payload)), local_part(remote_jid@)),
{
    let instance = match payload {
        Some(data) => match string_at(data, "/apikey") {
            Some(v) => v,
            None => String::new(),
        },
        None => String::new(),
    };
    let number = local_part_of(remote_jid);
    let members = vec![
        (String::from_str("id"), JsonScalar::Text(String::from_str(id))),
        (String::from_str("situation"), JsonScalar::Text(String::from_str("enqueued"))),
        (String::from_str("is_active"), JsonScalar::Bool(true)),
        (String::from_str("agent_id"), JsonScalar::Null),
        (String::from_str("tabulation"), JsonScalar::Null),
        (String::from_str("instance_id"), JsonScalar::Text(instance)),
        (String::from_str("number"), JsonScalar::Text(number)),
    ];
    assert(members_view(members@) =~= header_members(id@, instance_of(bytes_of(payload)), local_part(remote_jid@)));
    object_text(&members)
}

/// Makes sure the chat exists: when its header key does not exist, writes the
/// header (the metadata as given, else a synthesized one) as the one element
/// of a list, then adds the chat id to the known chats; else does nothing.
pub fn ensure_chat_exists(
    chat_id: &str,
    remote_jid: &str,
    chat_metadata: Option<&str>,
    message_data: Option<&[u8]>,
    exists: bool,
) -> (r: Vec<CacheCommand>)
    ensures
        ops_of(r@) == ensure_ops(chat_id@, remote_jid@, text_of(chat_metadata), bytes_of(message_data), exists),
{
    let mut r: Vec<CacheCommand> = Vec::new();
    if !exists {
        let id = normalize_chat_id(chat_id);
        let header = match chat_metadata {
            Some(meta) => String::from_str(meta),
            None => synthesize_header(id.as_str(), remote_jid, message_data),
        };
        let key = String::from_str("chat:").concat(id.as_str());
        r.push(CacheCommand::ListPush { key, value: header });
        r.push(CacheCommand::SetAdd { key: String::from_str("chats"), member: id });
    }
    assert(ops_of(r@) =~= ensure_ops(chat_id@, remote_jid@, text_of(chat_metadata), bytes_of(message_data), exists));
    r
}

/// Stores one message of a chat: the commands of `ensure_chat_exists`, then the
/// message appended to the chat's message list, with no check for duplicates.
pub fn insert_message_to_chat(
    chat_id: &str,
    message_json: &str,
    remote_jid: &str,
    chat_metadata: Option<&str>,
    message_data: Option<&[u8]>,
    exists: bool,
) -> (r: Vec<CacheCommand>)
    ensures
        ops_of(r@) == insert_ops(chat_id@, message_json@, remote_jid@, text_of(chat_metadata), bytes_of(message_data), exists),
{
    let id = normalize_chat_id(chat_id);
    let mut r = ensure_chat_exists(id.as_str(), remote_jid, chat_metadata, message_data, exists);
    let key = String::from_str("chat:").concat(id.as_str()).concat(":messages");
    r.push(CacheCommand::ListPush { key, value: String::from_str(message_json) });
    assert(ops_of(r@) =~= insert_ops(chat_id@, message_json@, remote_jid@, text_of(chat_metadata), bytes_of(message_data), exists));
    r
}

} // verus!

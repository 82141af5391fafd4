//! The records that the hub reads and writes. A JSON object of string members
//! is held as its (name, value) pairs, keys unique, built with `set_pair`.
use vstd::prelude::*;

verus! {

/// No two pairs share a key.
pub open spec fn keys_unique(pairs: Seq<(String, String)>) -> bool {
    forall|i: int, j: int| 0 <= i < j < pairs.len() ==> #[trigger] pairs[i].0@ != #[trigger] pairs[j].0@
}

/// The pairs once `key` is set to `value`: the pair of that key replaced where
/// there is one, else the new pair appended.
pub open spec fn with_pair(pairs: Seq<(String, String)>, key: String, value: String) -> Seq<(String, String)> {
    if exists|i: int| 0 <= i < pairs.len() && pairs[i].0@ == key@ {
        let i = choose|i: int| 0 <= i < pairs.len() && pairs[i].0@ == key@;
        pairs.update(i, (key, value))
    } else {
        pairs.push((key, value))
    }
}

/// Sets `key` to `value` in a list of pairs with unique keys, as a map
/// insertion does: the pair of that key is replaced, else the pair appended.
pub fn set_pair(pairs: &mut Vec<(String, String)>, key: String, value: String)
    requires
        keys_unique(old(pairs)@),
    ensures
        final(pairs)@ == with_pair(old(pairs)@, key, value),
        keys_unique(final(pairs)@),
{
    let n = pairs.len();
    let mut i: usize = 0;
    while i < n
        invariant
            i <= n,
            n == pairs@.len(),
            pairs@ == old(pairs)@,
            keys_unique(pairs@),
            forall|j: int| 0 <= j < i ==> pairs@[j].0@ != key@,
        decreases n - i,
    {
        if pairs[i].0 == key {
            proof {
                let w = choose|w: int| 0 <= w < pairs@.len() && pairs@[w].0@ == key@;
                if w != i {
                    if w < i {
                        assert(pairs@[w].0@ != key@);
                    } else {
                        assert(pairs@[i as int].0@ != pairs@[w].0@);
                    }
                }
            }
            pairs.set(i, (key, value));
            return;
        }
        i += 1;
    }
    pairs.push((key, value));
}

/// Pairs that may be absent have unique keys when present.
pub open spec fn opt_keys_unique(pairs: Option<Vec<(String, String)>>) -> bool {
    match pairs {
        Some(p) => keys_unique(p@),
        None => true,
    }
}

/// An outbound HTTP request to make.
pub struct Request {
    pub action: String,
    pub method: String,
    pub url: String,
    pub headers: Vec<(String, String)>,
    pub body: Option<Vec<(String, String)>>,
    pub params: Option<Vec<(String, String)>>,
}

impl Request {
    /// The invariant of a request: headers, body and parameters are maps.
    pub open spec fn well_formed(&self) -> bool {
        &&& keys_unique(self.headers@)
        &&& opt_keys_unique(self.body)
        &&& opt_keys_unique(self.params)
    }
}

/// A chat of the relational store.
pub struct Chat {
    pub id: i32,
    pub situation: String,
    pub is_active: bool,
    pub agent_id: Option<i32>,
    pub tabulation: Option<String>,
    pub customer_id: i32,
}

/// A message of the relational store.
pub struct Message {
    pub id: i32,
    pub from: String,
    pub to: String,
    pub delivered: bool,
    pub text: String,
    pub chat_id: i32,
}

/// A customer of the relational store.
pub struct Customer {
    pub id: i32,
    pub name: String,
    pub number: String,
    pub last_chat_id: Option<String>,
}

/// A webhook forwarded through the broker, with the chat it belongs to.
pub struct RabbitResponse {
    pub webhook: WebhookMessage,
    pub chat_id: String,
}

/// The HTTP request that delivered a webhook.
#[allow(non_snake_case)]
pub struct WebhookMessage {
    pub headers: WebhookHeaders,
    pub params: Vec<(String, String)>,
    pub query: Vec<(String, String)>,
    pub body: WebhookBody,
    pub webhookUrl: String,
    pub executionMode: String,
}

impl WebhookMessage {
    /// The invariant of a webhook: its parameters and query are maps.
    pub open spec fn well_formed(&self) -> bool {
        keys_unique(self.params@) && keys_unique(self.query@)
    }
}

/// The headers of a webhook's HTTP request.
pub struct WebhookHeaders {
    pub host: String,
    pub user_agent: String,
    pub content_length: String,
    pub accept_encoding: String,
    pub content_type: String,
    pub x_forwarded_for: String,
    pub x_forwarded_host: String,
    pub x_forwarded_port: String,
    pub x_forwarded_proto: String,
    pub x_forwarded_server: String,
    pub x_real_ip: String,
}

/// The envelope of a webhook event.
pub struct WebhookBody {
    pub event: String,
    pub instance: String,
    pub data: WebhookData,
    pub destination: String,
    pub date_time: String,
    pub sender: String,
    pub server_url: String,
    pub apikey: String,
}

/// The message event that a webhook carries.
pub struct WebhookData {
    pub key: MessageKey,
    pub push_name: String,
    pub message: MessageContent,
    pub message_type: String,
    pub message_timestamp: i64,
    pub instance_id: String,
    pub source: String,
}

/// What identifies a message: its chat, its direction and its id.
pub struct MessageKey {
    pub remote_jid: String,
    pub from_me: bool,
    pub id: String,
}

/// The content of a message.
pub struct MessageContent {
    pub conversation: Option<String>,
}

} // verus!

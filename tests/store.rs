use wasol_consumer::records::{Chat, Customer, Message};
use wasol_consumer::store::{upsert_chats, upsert_customer, upsert_messages, SqlValue, Statement};

fn chat(tabulation: Option<&str>) -> Chat {
    Chat {
        id: 10,
        situation: "enqueued".to_string(),
        is_active: false,
        agent_id: Some(4),
        tabulation: tabulation.map(|t| t.to_string()),
        customer_id: 2,
    }
}

#[test]
fn chat_without_tabulation_omits_the_column() {
    let u = upsert_chats(&chat(None));
    assert_eq!(u.statement, Statement::ChatWithoutTabulation);
    assert!(!u.statement.sql().contains("tabulation"));
    assert_eq!(
        u.params,
        vec![SqlValue::Int(10), SqlValue::Text("enqueued".to_string()), SqlValue::Bool(false), SqlValue::Int(4), SqlValue::Int(2)]
    );
}

#[test]
fn chat_with_tabulation_sets_the_column() {
    let u = upsert_chats(&chat(Some("won")));
    assert_eq!(u.statement, Statement::ChatWithTabulation);
    assert!(u.statement.sql().contains("\"tabulation\" = $5"));
    assert_eq!(u.params[4], SqlValue::Text("won".to_string()));
}

#[test]
fn chat_upserts_absent_then_present_then_absent() {
    let first = upsert_chats(&chat(None));
    let second = upsert_chats(&chat(Some("won")));
    let third = upsert_chats(&chat(None));
    assert!(!first.statement.sql().contains("tabulation"));
    assert_eq!(
        second.statement.sql(),
        "INSERT INTO \"chats\" (\"id\", \"situation\", \"is_active\", \"agent_id\", \"tabulation\", \"customer_id\") VALUES ($1, $2, $3, $4, $5, $6) ON CONFLICT (\"id\") DO UPDATE SET \"situation\" = $2, \"is_active\" = $3, \"agent_id\" = $4, \"tabulation\" = $5, \"customer_id\" = $6"
    );
    assert_eq!(
        third.statement.sql(),
        "INSERT INTO \"chats\" (\"id\", \"situation\", \"is_active\", \"agent_id\", \"customer_id\") VALUES ($1, $2, $3, $4, $5) ON CONFLICT (\"id\") DO UPDATE SET \"situation\" = $2, \"is_active\" = $3, \"agent_id\" = $4, \"customer_id\" = $5"
    );
    assert!(!third.statement.sql().contains("tabulation"));
}

#[test]
fn customer_last_chat_selects_statement() {
    let mut c = Customer { id: 5, name: "Ana".to_string(), number: "5511".to_string(), last_chat_id: Some("9".to_string()) };
    let u = upsert_customer(&c);
    assert_eq!(u.statement, Statement::CustomerWithLastChat);
    assert_eq!(u.params[3], SqlValue::Text("9".to_string()));
    c.last_chat_id = None;
    let u = upsert_customer(&c);
    assert_eq!(u.statement, Statement::CustomerWithoutLastChat);
    assert_eq!(u.params.len(), 3);
    assert!(!u.statement.sql().contains("last_chat_id"));
}

#[test]
fn message_upsert_binds_every_column() {
    let m = Message { id: 1, from: "a".to_string(), to: "b".to_string(), delivered: true, text: "t".to_string(), chat_id: 8 };
    let u = upsert_messages(&m);
    assert_eq!(
        u.params,
        vec![
            SqlValue::Int(1),
            SqlValue::Text("a".to_string()),
            SqlValue::Text("b".to_string()),
            SqlValue::Text("t".to_string()),
            SqlValue::Bool(true),
            SqlValue::Int(8),
        ]
    );
    assert!(u.statement.sql().starts_with("INSERT INTO \"messages\" (\"id\", \"from\", \"to\","));
    assert_eq!(u.statement.table(), "messages");
    assert_eq!(u.statement.columns(), vec!["id", "from", "to", "text", "delivered", "chat_id"]);
}

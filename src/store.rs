//! Upserts into the relational store. Each is one conditional insert keyed by
//! the id that overwrites, on conflict, every column it names. An optional
//! field that is absent is left out of the statement, so that an update keeps
//! the column's earlier value.
use vstd::prelude::*;
use crate::records::{Chat, Customer, Message};

verus! {

/// A value bound to a statement parameter.
#[derive(Debug, PartialEq, Eq)]
pub enum SqlValue {
    Int(i32),
    Text(String),
    Bool(bool),
    Null,
}

/// A cell of a row, over its text's contents.
pub enum Cell {
    Int(int),
    Text(Seq<char>),
    Bool(bool),
    Null,
}

impl View for SqlValue {
    type V = Cell;

    open spec fn view(&self) -> Cell {
        match self {
            SqlValue::Int(i) => Cell::Int(*i as int),
            SqlValue::Text(s) => Cell::Text(s@),
            SqlValue::Bool(b) => Cell::Bool(*b),
            SqlValue::Null => Cell::Null,
        }
    }
}

/// The upsert statements, one for each table and choice of optional column.
#[derive(Debug, Clone, Copy, PartialEq, Eq, Structural)]
pub enum Statement {
    ChatWithTabulation,
    ChatWithoutTabulation,
    Message,
    CustomerWithLastChat,
    CustomerWithoutLastChat,
}

/// The table a statement writes.
pub open spec fn table_of(s: Statement) -> Seq<char> {
    match s {
        Statement::ChatWithTabulation | Statement::ChatWithoutTabulation => "chats"@,
        Statement::Message => "messages"@,
        Statement::CustomerWithLastChat | Statement::CustomerWithoutLastChat => "customers"@,
    }
}

/// The columns a statement writes, in the order of its parameters; the first
/// is the key.
pub open spec fn columns_of(s: Statement) -> Seq<Seq<char>> {
    match s {
        Statement::ChatWithTabulation => seq![
            "id"@, "situation"@, "is_active"@, "agent_id"@, "tabulation"@, "customer_id"@,
        ],
        Statement::ChatWithoutTabulation => seq![
            "id"@, "situation"@, "is_active"@, "agent_id"@, "customer_id"@,
        ],
        Statement::Message => seq!["id"@, "from"@, "to"@, "text"@, "delivered"@, "chat_id"@],
        Statement::CustomerWithLastChat => seq!["id"@, "name"@, "number"@, "last_chat_id"@],
        Statement::CustomerWithoutLastChat => seq!["id"@, "name"@, "number"@],
    }
}

/// An SQL identifier, quoted.
pub open spec fn quoted_ident(c: Seq<char>) -> Seq<char> {
    "\""@ + c + "\""@
}

/// The placeholder of the `i`-th parameter (from 1 to 9; the statements have
/// at most six).
pub open spec fn param_text(i: int) -> Seq<char> {
    if i == 1 {
        "$1"@
    } else if i == 2 {
        "$2"@
    } else if i == 3 {
        "$3"@
    } else if i == 4 {
        "$4"@
    } else if i == 5 {
        "$5"@
    } else if i == 6 {
        "$6"@
    } else if i == 7 {
        "$7"@
    } else if i == 8 {
        "$8"@
    } else {
        "$9"@
    }
}

/// The first `k` columns, quoted and comma-separated.
pub open spec fn column_list(cols: Seq<Seq<char>>, k: int) -> Seq<char>
    decreases k,
{
    if k <= 0 {
        Seq::empty()
    } else if k == 1 {
        quoted_ident(cols[0])
    } else {
        column_list(cols, k - 1) + ", "@ + quoted_ident(cols[k - 1])
    }
}

/// The placeholders of the first `k` parameters, comma-separated.
pub open spec fn param_list(k: int) -> Seq<char>
    decreases k,
{
    if k <= 0 {
        Seq::empty()
    } else if k == 1 {
        param_text(1)
    } else {
        param_list(k - 1) + ", "@ + param_text(k)
    }
}

/// The update of column `i` (from 0) to its parameter.
pub open spec fn assignment(cols: Seq<Seq<char>>, i: int) -> Seq<char> {
    quoted_ident(cols[i]) + " = "@ + param_text(i + 1)
}

/// The updates of columns 1 to `k - 1` (every column but the key),
/// comma-separated.
pub open spec fn assignment_list(cols: Seq<Seq<char>>, k: int) -> Seq<char>
    decreases k,
{
    if k <= 1 {
        Seq::empty()
    } else if k == 2 {
        assignment(cols, 1)
    } else {
        assignment_list(cols, k - 1) + ", "@ + assignment(cols, k - 1)
    }
}

/// The SQL text of an upsert: one insert of every column of the statement,
/// keyed by the first, that on conflict overwrites each other column of the
/// statement (and no column it does not name) with its parameter.
pub open spec fn upsert_sql(s: Statement) -> Seq<char> {
    let cols = columns_of(s);
    let n = cols.len() as int;
    "INSERT INTO "@ + quoted_ident(table_of(s)) + " ("@ + column_list(cols, n) + ") VALUES ("@
        + param_list(n) + ") ON CONFLICT ("@ + quoted_ident(cols[0]) + ") DO UPDATE SET "@
        + assignment_list(cols, n)
}

fn param_name(i: usize) -> (r: &'static str)
    requires
        1 <= i <= 9,
    ensures
        r@ == param_text(i as int),
{
    match i {
        1 => "$1",
        2 => "$2",
        3 => "$3",
        4 => "$4",
        5 => "$5",
        6 => "$6",
        7 => "$7",
        8 => "$8",
        _ => "$9",
    }
}

fn push_quoted(r: &mut String, c: &str)
    ensures
        final(r)@ == old(r)@ + quoted_ident(c@),
{
    r.append("\"");
    r.append(c);
    r.append("\"");
    assert(final(r)@ =~= old(r)@ + quoted_ident(c@));
}

impl Statement {
    /// The table the statement writes.
    pub fn table(&self) -> (r: &'static str)
        ensures
            r@ == table_of(*self),
    {
        match self {
            Statement::ChatWithTabulation | Statement::ChatWithoutTabulation => "chats",
            Statement::Message => "messages",
            Statement::CustomerWithLastChat | Statement::CustomerWithoutLastChat => "customers",
        }
    }

    /// The columns the statement writes, in the order of its parameters.
    pub fn columns(&self) -> (r: Vec<&'static str>)
        ensures
            r@.map_values(|c: &'static str| c@) == columns_of(*self),
    {
        let r = match self {
            Statement::ChatWithTabulation => vec!["id", "situation", "is_active", "agent_id", "tabulation", "customer_id"],
            Statement::ChatWithoutTabulation => vec!["id", "situation", "is_active", "agent_id", "customer_id"],
            Statement::Message => vec!["id", "from", "to", "text", "delivered", "chat_id"],
            Statement::CustomerWithLastChat => vec!["id", "name", "number", "last_chat_id"],
            Statement::CustomerWithoutLastChat => vec!["id", "name", "number"],
        };
        assert(r@.map_values(|c: &'static str| c@) =~= columns_of(*self));
        r
    }

    /// The SQL text of the statement; `$n` is the n-th parameter, the n-th of
    /// the statement's columns.
    pub fn sql(&self) -> (r: String)
        ensures
            r@ == upsert_sql(*self),
    {
        let cols = self.columns();
        let ghost cv = columns_of(*self);
        let n = cols.len();
        assert(cols@.map_values(|c: &'static str| c@).len() == cols@.len());
        assert(1 <= cv.len() <= 9) by {
            match *self {
                Statement::ChatWithTabulation => {},
                Statement::ChatWithoutTabulation => {},
                Statement::Message => {},
                Statement::CustomerWithLastChat => {},
                Statement::CustomerWithoutLastChat => {},
            }
        }
        let mut r = String::from_str("INSERT INTO ");
        push_quoted(&mut r, self.table());
        r.append(" (");
        let ghost head = r@;
        let mut i: usize = 0;
        while i < n
            invariant
                i <= n,
                n == cols@.len(),
                cols@.map_values(|c: &'static str| c@) == cv,
                r@ == head + column_list(cv, i as int),
            decreases n - i,
        {
            if i > 0 {
                r.append(", ");
            }
            assert(cols@[i as int]@ == cv[i as int]);
            push_quoted(&mut r, cols[i]);
            assert(r@ =~= head + column_list(cv, i + 1));
            i += 1;
        }
        r.append(") VALUES (");
        let ghost head = r@;
        let mut i: usize = 0;
        while i < n
            invariant
                i <= n,
                n <= 9,
                r@ == head + param_list(i as int),
            decreases n - i,
        {
            if i > 0 {
                r.append(", ");
            }
            r.append(param_name(i + 1));
            assert(r@ =~= head + param_list(i + 1));
            i += 1;
        }
        r.append(") ON CONFLICT (");
        assert(cols@[0]@ == cv[0]);
        push_quoted(&mut r, cols[0]);
        r.append(") DO UPDATE SET ");
        let ghost head = r@;
        let mut i: usize = 1;
        while i < n
            invariant
                1 <= i <= n,
                n <= 9,
                n == cols@.len(),
                cols@.map_values(|c: &'static str| c@) == cv,
                r@ == head + assignment_list(cv, i as int),
            decreases n - i,
        {
            if i > 1 {
                r.append(", ");
            }
            assert(cols@[i as int]@ == cv[i as int]);
            push_quoted(&mut r, cols[i]);
            r.append(" = ");
            r.append(param_name(i + 1));
            assert(r@ =~= head + assignment_list(cv, i + 1));
            i += 1;
        }
        assert(r@ =~= upsert_sql(*self));
        r
    }
}

/// One upsert: a statement and the values of its parameters.
pub struct Upsert {
    pub statement: Statement,
    pub params: Vec<SqlValue>,
}

/// An upsert over its values' contents.
pub struct UpsertView {
    pub statement: Statement,
    pub params: Seq<Cell>,
}

impl View for Upsert {
    type V = UpsertView;

    open spec fn view(&self) -> UpsertView {
        UpsertView { statement: self.statement, params: self.params@.map_values(|v: SqlValue| v@) }
    }
}

pub open spec fn opt_int(o: Option<i32>) -> Cell {
    match o {
        Some(i) => Cell::Int(i as int),
        None => Cell::Null,
    }
}

/// The upsert of a chat: with the tabulation column when the chat has one.
pub open spec fn chat_upsert(c: Chat) -> UpsertView {
    match c.tabulation {
        Some(t) => UpsertView {
            statement: Statement::ChatWithTabulation,
            params: seq![
                Cell::Int(c.id as int), Cell::Text(c.situation@), Cell::Bool(c.is_active),
                opt_int(c.agent_id), Cell::Text(t@), Cell::Int(c.customer_id as int),
            ],
        },
        None => UpsertView {
            statement: Statement::ChatWithoutTabulation,
            params: seq![
                Cell::Int(c.id as int), Cell::Text(c.situation@), Cell::Bool(c.is_active),
                opt_int(c.agent_id), Cell::Int(c.customer_id as int),
            ],
        },
    }
}

/// The upsert of a message.
pub open spec fn message_upsert(m: Message) -> UpsertView {
    UpsertView {
        statement: Statement::Message,
        params: seq![
            Cell::Int(m.id as int), Cell::Text(m.from@), Cell::Text(m.to@), Cell::Text(m.text@),
            Cell::Bool(m.delivered), Cell::Int(m.chat_id as int),
        ],
    }
}

/// The upsert of a customer: with the last chat column when the customer has one.
pub open spec fn customer_upsert(c: Customer) -> UpsertView {
    match c.last_chat_id {
        Some(l) => UpsertView {
            statement: Statement::CustomerWithLastChat,
            params: seq![Cell::Int(c.id as int), Cell::Text(c.name@), Cell::Text(c.number@), Cell::Text(l@)],
        },
        None => UpsertView {
            statement: Statement::CustomerWithoutLastChat,
            params: seq![Cell::Int(c.id as int), Cell::Text(c.name@), Cell::Text(c.number@)],
        },
    }
}

/// The cell of a row at a column; a column the row lacks is NULL.
pub open spec fn cell(row: Map<Seq<char>, Cell>, col: Seq<char>) -> Cell {
    if row.contains_key(col) {
        row[col]
    } else {
        Cell::Null
    }
}

/// The row with the columns set, one after the other, to the values.
pub open spec fn assign(row: Map<Seq<char>, Cell>, cols: Seq<Seq<char>>, vals: Seq<Cell>) -> Map<
    Seq<char>,
    Cell,
>
    decreases cols.len(),
{
    if cols.len() == 0 || vals.len() == 0 {
        row
    } else {
        assign(row.insert(cols[0], vals[0]), cols.drop_first(), vals.drop_first())
    }
}

/// The key of the row an upsert writes: its first parameter.
pub open spec fn key_of(u: UpsertView) -> int {
    match u.params[0] {
        Cell::Int(i) => i,
        _ => 0,
    }
}

/// A table, by key, after an upsert: a new row holds the columns that the
/// statement names (every other column NULL); an existing row has those
/// columns overwritten and keeps the others.
pub open spec fn apply_upsert(t: Map<int, Map<Seq<char>, Cell>>, u: UpsertView) -> Map<
    int,
    Map<Seq<char>, Cell>,
> {
    let k = key_of(u);
    let base = if t.contains_key(k) {
        t[k]
    } else {
        Map::empty()
    };
    t.insert(k, assign(base, columns_of(u.statement), u.params))
}

proof fn lemma_assign_other(row: Map<Seq<char>, Cell>, cols: Seq<Seq<char>>, vals: Seq<Cell>, c: Seq<char>)
    requires
        !cols.contains(c),
    ensures
        cell(assign(row, cols, vals), c) == cell(row, c),
    decreases cols.len(),
{
    if cols.len() > 0 && vals.len() > 0 {
        assert(cols[0] != c);
        assert(!cols.drop_first().contains(c)) by {
            if cols.drop_first().contains(c) {
                let j = choose|j: int| 0 <= j < cols.drop_first().len() && cols.drop_first()[j] == c;
                assert(cols[j + 1] == c);
            }
        }
        lemma_assign_other(row.insert(cols[0], vals[0]), cols.drop_first(), vals.drop_first(), c);
    }
}

proof fn lemma_assign_at(row: Map<Seq<char>, Cell>, cols: Seq<Seq<char>>, vals: Seq<Cell>, i: int)
    requires
        0 <= i < cols.len(),
        cols.len() == vals.len(),
        forall|j: int| i < j < cols.len() ==> cols[j] != cols[i],
    ensures
        cell(assign(row, cols, vals), cols[i]) == vals[i],
    decreases cols.len(),
{
    let c = cols[i];
    if i == 0 {
        assert(!cols.drop_first().contains(c)) by {
            if cols.drop_first().contains(c) {
                let j = choose|j: int| 0 <= j < cols.drop_first().len() && cols.drop_first()[j] == c;
                assert(cols[j + 1] == c);
            }
        }
        lemma_assign_other(row.insert(c, vals[0]), cols.drop_first(), vals.drop_first(), c);
    } else {
        assert(cols.drop_first()[i - 1] == c);
        lemma_assign_at(row.insert(cols[0], vals[0]), cols.drop_first(), vals.drop_first(), i - 1);
    }
}

/// Upserting a chat with a tabulation sets its tabulation, whether the row is
/// inserted or updated; upserting a chat without one keeps the tabulation of an
/// existing row (and leaves it NULL in a new row).
pub proof fn lemma_chat_tabulation(t: Map<int, Map<Seq<char>, Cell>>, c: Chat)
    ensures
        ({
            let after = apply_upsert(t, chat_upsert(c));
            let before = if t.contains_key(c.id as int) {
                cell(t[c.id as int], "tabulation"@)
            } else {
                Cell::Null
            };
            &&& after.contains_key(c.id as int)
            &&& cell(after[c.id as int], "tabulation"@) == match c.tabulation {
                Some(tab) => Cell::Text(tab@),
                None => before,
            }
        }),
{
    reveal_strlit("tabulation");
    reveal_strlit("id");
    reveal_strlit("situation");
    reveal_strlit("is_active");
    reveal_strlit("agent_id");
    reveal_strlit("customer_id");
    let u = chat_upsert(c);
    let cols = columns_of(u.statement);
    let base = if t.contains_key(c.id as int) {
        t[c.id as int]
    } else {
        Map::empty()
    };
    match c.tabulation {
        Some(tab) => {
            assert(cols[4] == "tabulation"@);
            assert(cols[5] != cols[4]);
            lemma_assign_at(base, cols, u.params, 4);
        },
        None => {
            assert(!cols.contains("tabulation"@)) by {
                if cols.contains("tabulation"@) {
                    let j = choose|j: int| 0 <= j < cols.len() && cols[j] == "tabulation"@;
                    assert(cols[j].len() != 10);
                }
            }
            lemma_assign_other(base, cols, u.params, "tabulation"@);
        },
    }
}

/// A chat upserted without a tabulation, then with one, then without one
/// again (all under one id): the second upsert sets the tabulation, and the
/// third keeps it.
pub proof fn lemma_chat_tabulation_set_then_kept(
    t: Map<int, Map<Seq<char>, Cell>>,
    first: Chat,
    second: Chat,
    third: Chat,
)
    requires
        first.id == second.id,
        second.id == third.id,
        first.tabulation is None,
        second.tabulation is Some,
        third.tabulation is None,
    ensures
        ({
            let t1 = apply_upsert(t, chat_upsert(first));
            let t2 = apply_upsert(t1, chat_upsert(second));
            let t3 = apply_upsert(t2, chat_upsert(third));
            &&& cell(t2[second.id as int], "tabulation"@) == Cell::Text(second.tabulation->0@)
            &&& cell(t3[third.id as int], "tabulation"@) == Cell::Text(second.tabulation->0@)
        }),
{
    let t1 = apply_upsert(t, chat_upsert(first));
    let t2 = apply_upsert(t1, chat_upsert(second));
    lemma_chat_tabulation(t, first);
    lemma_chat_tabulation(t1, second);
    lemma_chat_tabulation(t2, third);
}


/// The agent column is always written: an upsert of a chat sets it to the
/// chat's agent, NULL when it has none, whatever the row held before.
pub proof fn lemma_chat_agent_overwritten(t: Map<int, Map<Seq<char>, Cell>>, c: Chat)
    ensures
        cell(apply_upsert(t, chat_upsert(c))[c.id as int], "agent_id"@) == opt_int(c.agent_id),
{
    reveal_strlit("agent_id");
    reveal_strlit("tabulation");
    reveal_strlit("customer_id");
    let u = chat_upsert(c);
    let cols = columns_of(u.statement);
    let base = if t.contains_key(c.id as int) {
        t[c.id as int]
    } else {
        Map::empty()
    };
    assert(cols[3] == "agent_id"@);
    assert forall|j: int| 3 < j < cols.len() implies #[trigger] cols[j] != cols[3] by {
        assert(cols[j].len() != cols[3].len());
    }
    lemma_assign_at(base, cols, u.params, 3);
}

/// Upserting a customer with a last chat sets that column, whether the row is
/// inserted or updated; upserting one without keeps the last chat of an
/// existing row (and leaves it NULL in a new row).
pub proof fn lemma_customer_last_chat(t: Map<int, Map<Seq<char>, Cell>>, c: Customer)
    ensures
        ({
            let after = apply_upsert(t, customer_upsert(c));
            let before = if t.contains_key(c.id as int) {
                cell(t[c.id as int], "last_chat_id"@)
            } else {
                Cell::Null
            };
            cell(after[c.id as int], "last_chat_id"@) == match c.last_chat_id {
                Some(l) => Cell::Text(l@),
                None => before,
            }
        }),
{
    reveal_strlit("last_chat_id");
    reveal_strlit("id");
    reveal_strlit("name");
    reveal_strlit("number");
    let u = customer_upsert(c);
    let cols = columns_of(u.statement);
    let base = if t.contains_key(c.id as int) {
        t[c.id as int]
    } else {
        Map::empty()
    };
    match c.last_chat_id {
        Some(l) => {
            lemma_assign_at(base, cols, u.params, 3);
        },
        None => {
            assert(!cols.contains("last_chat_id"@)) by {
                if cols.contains("last_chat_id"@) {
                    let j = choose|j: int| 0 <= j < cols.len() && cols[j] == "last_chat_id"@;
                    assert(cols[j].len() != 12);
                }
            }
            lemma_assign_other(base, cols, u.params, "last_chat_id"@);
        },
    }
}


fn text_value(s: &String) -> (r: SqlValue)
    ensures
        r@ == Cell::Text(s@),
{
    SqlValue::Text(s.clone())
}

/// The upsert that writes a chat.
pub fn upsert_chats(chat: &Chat) -> (r: Upsert)
    ensures
        r@ == chat_upsert(*chat),
{
    let agent = match chat.agent_id {
        Some(a) => SqlValue::Int(a),
        None => SqlValue::Null,
    };
    let r = match &chat.tabulation {
        Some(t) => Upsert {
            statement: Statement::ChatWithTabulation,
            params: vec![
                SqlValue::Int(chat.id), text_value(&chat.situation), SqlValue::Bool(chat.is_active),
                agent, text_value(t), SqlValue::Int(chat.customer_id),
            ],
        },
        None => Upsert {
            statement: Statement::ChatWithoutTabulation,
            params: vec![
                SqlValue::Int(chat.id), text_value(&chat.situation), SqlValue::Bool(chat.is_active),
                agent, SqlValue::Int(chat.customer_id),
            ],
        },
    };
    assert(r@.params =~= chat_upsert(*chat).params);
    r
}

/// The upsert that writes a message.
pub fn upsert_messages(msg: &Message) -> (r: Upsert)
    ensures
        r@ == message_upsert(*msg),
{
    let r = Upsert {
        statement: Statement::Message,
        params: vec![
            SqlValue::Int(msg.id), text_value(&msg.from), text_value(&msg.to), text_value(&msg.text),
            SqlValue::Bool(msg.delivered), SqlValue::Int(msg.chat_id),
        ],
    };
    assert(r@.params =~= message_upsert(*msg).params);
    r
}

/// The upsert that writes a customer.
pub fn upsert_customer(customer: &Customer) -> (r: Upsert)
    ensures
        r@ == customer_upsert(*customer),
{
    let r = match &customer.last_chat_id {
        Some(l) => Upsert {
            statement: Statement::CustomerWithLastChat,
            params: vec![
                SqlValue::Int(customer.id), text_value(&customer.name), text_value(&customer.number),
                text_value(l),
            ],
        },
        None => Upsert {
            statement: Statement::CustomerWithoutLastChat,
            params: vec![
                SqlValue::Int(customer.id), text_value(&customer.name), text_value(&customer.number),
            ],
        },
    };
    assert(r@.params =~= customer_upsert(*customer).params);
    r
}

} // verus!

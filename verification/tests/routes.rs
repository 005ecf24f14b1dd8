use notes_service::ident::parse_id;
use notes_service::notes::{Note, NoteDB, NoteRequest};
use notes_service::failure::Failure;
use notes_service::routes::{
    begin, create, delete, delete_by_id, get, get_by_id, index, list, render, Action, Body, Event,
    Exchange, Reply,
};
use notes_service::repository::Outcome;
use notes_service::notes::Response;
use notes_service::storage::{Answer, Statement};

/// A notes table kept in memory, which answers statements as the store does.
struct Table {
    rows: Vec<NoteDB>,
}

impl Table {
    fn new() -> Table {
        Table { rows: Vec::new() }
    }

    fn run(&mut self, statement: &Statement) -> Answer {
        match statement {
            Statement::Newest { limit } => {
                if *limit < 0 {
                    return Answer::Failed;
                }
                let mut rows = self.rows.clone();
                rows.sort_by(|a, b| b.timestamp.cmp(&a.timestamp));
                rows.truncate(*limit as usize);
                Answer::Rows(rows)
            }
            Statement::ById { id } => {
                Answer::Rows(self.rows.iter().filter(|r| r.id == *id).cloned().collect())
            }
            Statement::Insert { row } => {
                if self.rows.iter().any(|r| r.id == row.id) {
                    Answer::Failed
                } else {
                    self.rows.push(row.clone());
                    Answer::Affected(1)
                }
            }
            Statement::Remove { id } => {
                let before = self.rows.len();
                self.rows.retain(|r| r.id != *id);
                Answer::Affected(before - self.rows.len())
            }
        }
    }
}

/// Serves one request against the table, with a pool that always has a
/// connection and a worker that always comes back.
fn serve(table: &mut Table, mut exchange: Exchange) -> Reply {
    for _ in 0..3 {
        let event = match exchange.action() {
            Action::Acquire => Event::Acquired,
            Action::Dispatch(statement) => Event::Answered(table.run(statement)),
            Action::Respond(reply) => return reply.clone(),
        };
        exchange = exchange.advance(event);
    }
    panic!("no reply after three steps");
}

fn note_of(reply: &Reply) -> Note {
    match &reply.body {
        Body::Note(note) => note.clone(),
        other => panic!("the body is no note: {:?}", other),
    }
}

fn notes_of(reply: &Reply) -> Vec<Note> {
    match &reply.body {
        Body::Notes(notes) => notes.results.clone(),
        other => panic!("the body is no list: {:?}", other),
    }
}

fn now_micros() -> i64 {
    let since = std::time::SystemTime::now().duration_since(std::time::UNIX_EPOCH).unwrap();
    since.as_micros() as i64
}

#[test]
fn index_greets() {
    let mut table = Table::new();
    let reply = serve(&mut table, index());
    assert_eq!(reply, Reply { status: 200, body: Body::Text("Oh hello there!".to_string()) });
}

#[test]
fn index_needs_no_connection() {
    match index().action() {
        Action::Respond(reply) => assert_eq!(reply.status, 200),
        other => panic!("not a reply: {:?}", other),
    };
}

#[test]
fn post_get_delete_get() {
    let mut table = Table::new();
    let before = now_micros();
    let request = NoteRequest { content: Some("hello".to_string()) };
    let posted = serve(&mut table, create(&request));
    let after = now_micros();
    assert_eq!(posted.status, 201);
    let made = note_of(&posted);
    assert_eq!(made.content, "hello");
    assert!(parse_id(&made.id).is_ok());
    assert_eq!(made.id.len(), 36);
    assert!(before <= made.timestamp && made.timestamp <= after);

    let fetched = serve(&mut table, get(&made.id));
    assert_eq!(fetched.status, 200);
    assert_eq!(note_of(&fetched), made);

    let removed = serve(&mut table, delete(&made.id));
    assert_eq!(removed, Reply { status: 204, body: Body::Empty });

    let again = serve(&mut table, get(&made.id));
    assert_eq!(again, Reply { status: 204, body: Body::Empty });
}

#[test]
fn created_note_ignores_nothing_of_the_request_but_has_its_own_identity() {
    let mut table = Table::new();
    let request = NoteRequest { content: Some("one".to_string()) };
    let first = note_of(&serve(&mut table, create(&request)));
    let second = note_of(&serve(&mut table, create(&request)));
    assert_ne!(first.id, second.id);
    assert_eq!(table.rows.len(), 2);
    assert_eq!(note_of(&serve(&mut table, get(&first.id))), first);
    assert_eq!(note_of(&serve(&mut table, get(&second.id))), second);
}

#[test]
fn list_returns_the_fifty_most_recent_newest_first() {
    let mut table = Table::new();
    // sixty notes with distinct instants, inserted in no particular order
    for k in 0..60u128 {
        let instant = 1_000_000 + ((k * 37) % 60) as i64;
        table.rows.push(NoteDB { id: k + 1, timestamp: instant, content: format!("note {}", k) });
    }
    let reply = serve(&mut table, list());
    assert_eq!(reply.status, 200);
    let notes = notes_of(&reply);
    assert_eq!(notes.len(), 50);
    let stamps: Vec<i64> = notes.iter().map(|n| n.timestamp).collect();
    let expected: Vec<i64> = (0..50).map(|k| 1_000_059 - k).collect();
    assert_eq!(stamps, expected);
}

#[test]
fn list_of_an_empty_table_is_empty() {
    let mut table = Table::new();
    let reply = serve(&mut table, list());
    assert_eq!(reply.status, 200);
    assert!(notes_of(&reply).is_empty());
}

#[test]
fn list_caps_what_the_store_gives() {
    let rows: Vec<NoteDB> =
        (0..60).map(|k| NoteDB { id: k as u128, timestamp: 100 - k, content: String::new() }).collect();
    let exchange = list().advance(Event::Acquired).advance(Event::Answered(Answer::Rows(rows)));
    match exchange.action() {
        Action::Respond(reply) => {
            assert_eq!(reply.status, 200);
            assert_eq!(notes_of(reply).len(), 50);
        }
        other => panic!("not a reply: {:?}", other),
    };
}

#[test]
fn list_asks_for_fifty() {
    let exchange = list();
    assert_eq!(exchange, Exchange::Acquiring { statement: Statement::Newest { limit: 50 } });
    let exchange = exchange.advance(Event::Acquired);
    match exchange.action() {
        Action::Dispatch(statement) => assert_eq!(statement, &Statement::Newest { limit: 50 }),
        other => panic!("not a dispatch: {:?}", other),
    };
}

#[test]
fn list_degrades_to_empty_on_a_storage_failure() {
    let exchange = list().advance(Event::Acquired).advance(Event::Answered(Answer::Failed));
    match exchange {
        Exchange::Responding { reply } => {
            assert_eq!(reply.status, 200);
            assert!(notes_of(&reply).is_empty());
        }
        other => panic!("not a reply: {:?}", other),
    }
}

#[test]
fn get_with_a_malformed_id_is_a_client_error() {
    let mut table = Table::new();
    let reply = serve(&mut table, get("not-a-valid-id"));
    assert_eq!(reply, Reply { status: 400, body: Body::Empty });
    assert!(400 <= reply.status && reply.status < 500);
}

#[test]
fn get_with_a_malformed_id_never_reaches_the_pool() {
    match get("not-a-valid-id").action() {
        Action::Respond(reply) => assert_eq!(reply.status, 400),
        other => panic!("not a reply: {:?}", other),
    };
}

#[test]
fn get_of_an_absent_note_is_no_content() {
    let mut table = Table::new();
    let reply = serve(&mut table, get("550e8400-e29b-41d4-a716-446655440000"));
    assert_eq!(reply, Reply { status: 204, body: Body::Empty });
}

#[test]
fn get_asks_for_the_parsed_identifier() {
    let exchange = get("550e8400-e29b-41d4-a716-446655440000");
    assert_eq!(
        exchange,
        Exchange::Acquiring { statement: Statement::ById { id: 0x550e8400_e29b_41d4_a716_446655440000 } }
    );
}

#[test]
fn get_on_a_storage_failure_is_a_server_error() {
    let exchange = get("550e8400-e29b-41d4-a716-446655440000")
        .advance(Event::Acquired)
        .advance(Event::Answered(Answer::Failed));
    assert_eq!(exchange, Exchange::Responding { reply: Reply { status: 500, body: Body::Empty } });
}

#[test]
fn create_without_content_is_a_client_error() {
    let mut table = Table::new();
    let reply = serve(&mut table, create(&NoteRequest { content: None }));
    assert_eq!(reply, Reply { status: 400, body: Body::Empty });
    assert!(table.rows.is_empty());
}

#[test]
fn create_on_a_failed_insertion_is_a_server_error() {
    let request = NoteRequest { content: Some("lost".to_string()) };
    let exchange = create(&request).advance(Event::Acquired).advance(Event::Answered(Answer::Failed));
    assert_eq!(exchange, Exchange::Responding { reply: Reply { status: 500, body: Body::Empty } });
}

#[test]
fn delete_twice_succeeds_both_times() {
    let mut table = Table::new();
    let request = NoteRequest { content: Some("short-lived".to_string()) };
    let made = note_of(&serve(&mut table, create(&request)));
    let first = serve(&mut table, delete(&made.id));
    let second = serve(&mut table, delete(&made.id));
    assert_eq!(first, Reply { status: 204, body: Body::Empty });
    assert_eq!(second, Reply { status: 204, body: Body::Empty });
    assert!(table.rows.is_empty());
}

#[test]
fn delete_of_an_absent_note_succeeds() {
    let mut table = Table::new();
    table.rows.push(NoteDB { id: 1, timestamp: 1, content: "stays".to_string() });
    let reply = serve(&mut table, delete("550e8400-e29b-41d4-a716-446655440000"));
    assert_eq!(reply, Reply { status: 204, body: Body::Empty });
    assert_eq!(table.rows.len(), 1);
}

#[test]
fn delete_with_a_malformed_id_is_a_client_error() {
    let mut table = Table::new();
    let reply = serve(&mut table, delete("not-a-valid-id"));
    assert_eq!(reply, Reply { status: 400, body: Body::Empty });
}

#[test]
fn exhausted_pool_is_service_unavailable() {
    let exchange = list().advance(Event::Exhausted);
    assert_eq!(exchange, Exchange::Responding { reply: Reply { status: 503, body: Body::Empty } });
    let exchange = get("550e8400-e29b-41d4-a716-446655440000").advance(Event::Exhausted);
    assert_eq!(exchange, Exchange::Responding { reply: Reply { status: 503, body: Body::Empty } });
}

#[test]
fn failed_worker_is_a_server_error() {
    let exchange = list().advance(Event::Acquired).advance(Event::WorkerFailed);
    assert_eq!(exchange, Exchange::Responding { reply: Reply { status: 500, body: Body::Empty } });
}

#[test]
fn event_out_of_turn_ends_the_request() {
    let exchange = list().advance(Event::Answered(Answer::Affected(1)));
    assert_eq!(exchange, Exchange::Responding { reply: Reply { status: 500, body: Body::Empty } });
    let exchange = list().advance(Event::Acquired).advance(Event::Acquired);
    assert_eq!(exchange, Exchange::Responding { reply: Reply { status: 500, body: Body::Empty } });
}

#[test]
fn reply_is_final() {
    let done = get("not-a-valid-id");
    let later = done.clone().advance(Event::Acquired).advance(Event::Answered(Answer::Rows(Vec::new())));
    assert_eq!(later, done);
}

#[test]
fn find_after_create_returns_what_create_returned() {
    let mut table = Table::new();
    let contents = ["", "plain", "ünïcödé ✓"];
    for content in contents {
        let request = NoteRequest { content: Some(content.to_string()) };
        let made = note_of(&serve(&mut table, create(&request)));
        let found = note_of(&serve(&mut table, get(&made.id)));
        assert_eq!(found.content, content);
        assert_eq!(found.id, made.id);
        assert_eq!(found.timestamp, made.timestamp);
    }
}

#[test]
fn lookup_starts_from_the_identifier_read() {
    assert_eq!(get_by_id(Ok(5)), Exchange::Acquiring { statement: Statement::ById { id: 5 } });
    assert_eq!(
        get_by_id(Err(Failure::BadRequest)),
        Exchange::Responding { reply: Reply { status: 400, body: Body::Empty } }
    );
}

#[test]
fn deletion_starts_from_the_identifier_read() {
    assert_eq!(delete_by_id(Ok(5)), Exchange::Acquiring { statement: Statement::Remove { id: 5 } });
    assert_eq!(
        delete_by_id(Err(Failure::BadRequest)),
        Exchange::Responding { reply: Reply { status: 400, body: Body::Empty } }
    );
}

#[test]
fn begin_takes_a_statement_to_the_pool_and_a_failure_to_its_reply() {
    let statement = Statement::Newest { limit: 7 };
    assert_eq!(begin(Ok(statement.clone())), Exchange::Acquiring { statement });
    assert_eq!(
        begin(Err(Failure::StorageFailure)),
        Exchange::Responding { reply: Reply { status: 500, body: Body::Empty } }
    );
}

#[test]
fn render_gives_each_outcome_its_status() {
    let note = Note::from_parts(1, 2, "three".to_string());
    let listed = render(Ok(Outcome::Listed(Response { results: vec![note.clone()] })));
    assert_eq!(listed.status, 200);
    assert_eq!(notes_of(&listed), vec![note.clone()]);
    assert_eq!(
        render(Ok(Outcome::Found(note.clone()))),
        Reply { status: 200, body: Body::Note(note.clone()) }
    );
    assert_eq!(
        render(Ok(Outcome::Created(note.clone()))),
        Reply { status: 201, body: Body::Note(note) }
    );
    assert_eq!(render(Ok(Outcome::Deleted)), Reply { status: 204, body: Body::Empty });
    assert_eq!(render(Err(Failure::BadRequest)), Reply { status: 400, body: Body::Empty });
    assert_eq!(render(Err(Failure::NotFound)), Reply { status: 204, body: Body::Empty });
    assert_eq!(render(Err(Failure::StorageFailure)), Reply { status: 500, body: Body::Empty });
    assert_eq!(render(Err(Failure::PoolExhausted)), Reply { status: 503, body: Body::Empty });
    assert_eq!(render(Err(Failure::DispatchFailure)), Reply { status: 500, body: Body::Empty });
}

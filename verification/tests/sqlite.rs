use dablog::post::{Draft, Post};
use dablog::storage::{Param, Reply, Request};
use dablog::store::Store;
use rusqlite::types::Value;
use rusqlite::{params_from_iter, Connection, Error};

fn value(param: Param) -> Value {
    match param {
        Param::Null => Value::Null,
        Param::Text(text) => Value::Text(text),
        Param::Integer(n) => Value::Integer(n),
    }
}

fn try_perform(conn: &Connection, request: &Request) -> Result<Reply, Error> {
    let values: Vec<Value> = request.parameters().into_iter().map(value).collect();
    let params = params_from_iter(values);
    match request {
        Request::Select(_) => {
            let found = conn.query_row(request.statement(), params, |row| {
                Ok(Post {
                    id: row.get(0)?,
                    created_at: row.get(1)?,
                    title: row.get(2)?,
                    body: row.get(3)?,
                })
            });
            match found {
                Ok(post) => Ok(Reply::Row(post)),
                Err(Error::QueryReturnedNoRows) => Ok(Reply::NoRow),
                Err(e) => Err(e),
            }
        }
        Request::Insert(_) => {
            conn.execute(request.statement(), params)?;
            Ok(Reply::Inserted(conn.last_insert_rowid()))
        }
        _ => {
            conn.execute(request.statement(), params)?;
            Ok(Reply::Done)
        }
    }
}

fn perform(path: &std::path::Path, request: &Request) -> Reply {
    let done = Connection::open(path).and_then(|conn| try_perform(&conn, request));
    match done {
        Ok(reply) => reply,
        Err(e) => Reply::Failed(e.to_string()),
    }
}

fn shape(reply: &Reply) -> String {
    match reply {
        Reply::Done => String::from("done"),
        Reply::Inserted(id) => format!("inserted {}", id),
        Reply::Row(post) => {
            format!("row {} {:?} {:?} {:?}", post.id, post.created_at, post.title, post.body)
        }
        Reply::NoRow => String::from("no row"),
        Reply::Failed(_) => String::from("failed"),
    }
}

fn copy(request: &Request) -> Request {
    match request {
        Request::CreateTable => Request::CreateTable,
        Request::Insert(draft) => Request::Insert(draft.duplicate()),
        Request::Select(id) => Request::Select(*id),
        Request::Delete(id) => Request::Delete(*id),
    }
}

fn insert(at: &str, body: &str) -> Request {
    Request::Insert(Draft::untitled(String::from(at), String::from(body)))
}

#[test]
fn the_database_answers_as_the_store_in_memory_does() {
    let dir = tempfile::tempdir().unwrap();
    let path = dir.path().join("dablog.db");
    let mut store = Store::new();
    let requests = vec![
        Request::Select(1),
        Request::Delete(1),
        insert("t", "too early"),
        Request::CreateTable,
        Request::CreateTable,
        Request::Select(1),
        Request::Insert(Draft::greeting(String::from("t0"))),
        Request::Select(1),
        insert("t1", "second post"),
        Request::Select(2),
        Request::Delete(1),
        Request::Select(1),
        Request::Delete(1),
        Request::Select(2),
        Request::Delete(2),
        insert("t2", "third"),
        Request::Select(3),
        Request::Select(2),
        Request::Select(0),
        Request::Select(-1),
        Request::Delete(99),
        insert("t3", "multi\nline \u{00e9} text\n"),
        Request::Select(4),
    ];
    for request in requests {
        let on_disk = perform(&path, &request);
        let in_memory = store.perform(copy(&request));
        assert_eq!(shape(&on_disk), shape(&in_memory), "{:?}", request);
    }
    assert_eq!(store.ids(), vec![3, 4]);
}

#[test]
fn the_database_keeps_a_journal_from_first_post_to_last_delete() {
    let dir = tempfile::tempdir().unwrap();
    let path = dir.path().join("dablog.db");
    assert_eq!(shape(&perform(&path, &Request::CreateTable)), "done");
    let greeting = Request::Insert(Draft::greeting(String::from("t0")));
    assert_eq!(shape(&perform(&path, &greeting)), "inserted 1");
    assert_eq!(
        shape(&perform(&path, &Request::Select(1))),
        "row 1 \"t0\" \"Hello, World!\" \"Hello, World! Welcome to my **dablog**.\""
    );
    assert_eq!(shape(&perform(&path, &insert("t1", "second post"))), "inserted 2");
    assert_eq!(
        shape(&perform(&path, &Request::Select(2))),
        "row 2 \"t1\" \"Untitled post\" \"second post\""
    );
    assert_eq!(shape(&perform(&path, &Request::Delete(1))), "done");
    assert_eq!(shape(&perform(&path, &Request::Select(1))), "no row");
    assert_eq!(
        shape(&perform(&path, &Request::Select(2))),
        "row 2 \"t1\" \"Untitled post\" \"second post\""
    );
    let conn = Connection::open(&path).unwrap();
    let count: i64 = conn.query_row("SELECT COUNT(*) FROM posts", [], |row| row.get(0)).unwrap();
    assert_eq!(count, 1);
}

#[test]
fn the_database_refuses_a_second_table() {
    let dir = tempfile::tempdir().unwrap();
    let path = dir.path().join("dablog.db");
    assert_eq!(shape(&perform(&path, &Request::CreateTable)), "done");
    match perform(&path, &Request::CreateTable) {
        Reply::Failed(text) => assert!(text.contains("already exists"), "{}", text),
        other => panic!("{:?}", other),
    }
}

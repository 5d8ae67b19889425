//! The requests that a backend and its transactions ask of the engine.

use record_store::mapper::Error;
use record_store::wrapper::{
    collect, Db, Direction, EngineError, EngineErrorKind, IteratorMode, Mode, Request, Transaction,
};

fn tables() -> Vec<String> {
    vec!["users".to_string(), "_config".to_string(), "_books".to_string()]
}

#[test]
fn only_transactional_modes_are_writable() {
    assert!(!Mode::ReadOnly.is_writable());
    assert!(Mode::OptimisticTransaction.is_writable());
    assert!(Mode::PessimisticTransaction.is_writable());
    assert!(Db::new(Mode::ReadOnly, tables()).read_only());
    assert!(!Db::new(Mode::OptimisticTransaction, tables()).read_only());
    assert!(!Db::new(Mode::PessimisticTransaction, tables()).read_only());
    assert_eq!(Db::new(Mode::ReadOnly, tables()).opened_mode(), Mode::ReadOnly);
}

#[test]
fn read_only_backend_gives_no_transaction() {
    assert!(Db::new(Mode::ReadOnly, tables()).transaction().is_none());
}

#[test]
fn writable_backend_gives_a_transaction_of_its_kind() {
    let optimistic = Db::new(Mode::OptimisticTransaction, tables()).transaction();
    assert!(matches!(optimistic, Some(Transaction::Optimistic(_))));
    let pessimistic = Db::new(Mode::PessimisticTransaction, tables()).transaction();
    assert!(matches!(pessimistic, Some(Transaction::Pessimistic(_))));
}

#[test]
fn handle_resolves_known_tables_only() {
    let db = Db::new(Mode::ReadOnly, tables());
    assert_eq!(db.handle("users"), Some("users".to_string()));
    assert_eq!(db.handle("_books"), Some("_books".to_string()));
    assert_eq!(db.handle("_book"), None);
    assert_eq!(db.handle(""), None);
    assert_eq!(Db::new(Mode::ReadOnly, Vec::new()).handle("users"), None);
}

#[test]
fn backend_asks_for_what_it_is_told() {
    let db = Db::new(Mode::OptimisticTransaction, tables());
    assert_eq!(
        db.get("users", b"ann"),
        Request::Get { table: "users".to_string(), key: b"ann".to_vec() }
    );
    assert_eq!(
        db.multi_get("users", &vec![b"ann".to_vec(), Vec::new(), b"bob".to_vec()]),
        Request::MultiGet {
            table: "users".to_string(),
            keys: vec![b"ann".to_vec(), Vec::new(), b"bob".to_vec()],
        }
    );
    assert_eq!(
        db.put("users", b"ann", &[1, 2]).unwrap(),
        Request::Put { table: "users".to_string(), key: b"ann".to_vec(), value: vec![1, 2] }
    );
    assert_eq!(
        db.merge("users", b"ann", &[3]).unwrap(),
        Request::Merge { table: "users".to_string(), key: b"ann".to_vec(), value: vec![3] }
    );
    let pessimistic = Db::new(Mode::PessimisticTransaction, tables());
    assert_eq!(
        pessimistic.put("users", b"", &[]).unwrap(),
        Request::Put { table: "users".to_string(), key: Vec::new(), value: Vec::new() }
    );
    assert_eq!(
        pessimistic.merge("_books", b"k", &[9]).unwrap(),
        Request::Merge { table: "_books".to_string(), key: b"k".to_vec(), value: vec![9] }
    );
    assert_eq!(
        db.iterator("users", IteratorMode::Start),
        Request::Iterate { table: "users".to_string(), mode: IteratorMode::Start }
    );
    assert_eq!(
        db.iterator("users", IteratorMode::From(b"b".to_vec(), Direction::Reverse)),
        Request::Iterate {
            table: "users".to_string(),
            mode: IteratorMode::From(b"b".to_vec(), Direction::Reverse),
        }
    );
    db.close();
}

#[test]
fn read_only_backend_refuses_to_write() {
    let db = Db::new(Mode::ReadOnly, tables());
    assert!(matches!(db.put("users", b"ann", &[1, 2]), Err(Error::InvalidTransaction)));
    assert!(matches!(db.merge("users", b"ann", &[3]), Err(Error::InvalidTransaction)));
    assert!(matches!(db.put("_config", b"", &[]), Err(Error::InvalidTransaction)));
    assert_eq!(
        db.get("users", b"ann"),
        Request::Get { table: "users".to_string(), key: b"ann".to_vec() }
    );
}

#[test]
fn transaction_asks_for_what_it_is_told() {
    let db = Db::new(Mode::PessimisticTransaction, tables());
    let mut tx = db.transaction().unwrap();
    assert_eq!(
        tx.get("users", b"ann"),
        Request::Get { table: "users".to_string(), key: b"ann".to_vec() }
    );
    assert_eq!(
        tx.multi_get("users", &vec![b"ann".to_vec()]),
        Request::MultiGet { table: "users".to_string(), keys: vec![b"ann".to_vec()] }
    );
    assert_eq!(
        tx.put("users", b"ann", &[1, 2]),
        Request::Put { table: "users".to_string(), key: b"ann".to_vec(), value: vec![1, 2] }
    );
    assert_eq!(
        tx.merge("users", b"ann", &[]),
        Request::Merge { table: "users".to_string(), key: b"ann".to_vec(), value: Vec::new() }
    );
    assert_eq!(
        tx.iterator("users", IteratorMode::End),
        Request::Iterate { table: "users".to_string(), mode: IteratorMode::End }
    );
    assert_eq!(
        tx.iterator("users", IteratorMode::From(Vec::new(), Direction::Forward)),
        Request::Iterate {
            table: "users".to_string(),
            mode: IteratorMode::From(Vec::new(), Direction::Forward),
        }
    );
    assert_eq!(tx.commit(), Request::Commit);
}

#[test]
fn answers_are_gathered_in_the_order_of_the_keys() {
    let gathered = collect(vec![Ok(Some(vec![1])), Ok(None), Ok(Some(Vec::new()))]);
    assert_eq!(gathered, Ok(vec![Some(vec![1]), None, Some(Vec::new())]));
    assert_eq!(collect(Vec::new()), Ok(Vec::new()));
}

#[test]
fn first_failure_among_the_answers_wins() {
    let first = EngineError { kind: EngineErrorKind::IoError, message: "IO error: a".to_string() };
    let second = EngineError { kind: EngineErrorKind::TimedOut, message: "Operation timed out: b".to_string() };
    let gathered = collect(vec![Ok(None), Err(first.clone()), Ok(Some(vec![1])), Err(second.clone())]);
    assert_eq!(gathered, Err(first));
    assert_eq!(collect(vec![Err(second.clone())]), Err(second));
}

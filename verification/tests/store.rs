//! How a store is created, opened and maintained.

use record_store::error::Error;
use record_store::mapper;
use record_store::wrapper::{EngineError, EngineErrorKind, Mode};
use record_store::{
    with_reserved, Admin, Database, Maintenance, Record, Step, BOOKS_CF_NAME, CONFIG_CF_NAME,
};

fn extra() -> Vec<String> {
    vec!["users".to_string(), "orders".to_string()]
}

fn all() -> Vec<String> {
    vec!["users".to_string(), "orders".to_string(), "_config".to_string(), "_books".to_string()]
}

#[test]
fn reserved_tables_have_their_names() {
    assert_eq!(CONFIG_CF_NAME, "_config");
    assert_eq!(BOOKS_CF_NAME, "_books");
    assert_eq!(Record::Config.table_name(), "_config");
    assert_eq!(Record::Books.table_name(), "_books");
}

#[test]
fn reserved_tables_follow_the_callers() {
    assert_eq!(with_reserved(extra()), all());
    assert_eq!(with_reserved(Vec::new()), vec!["_config".to_string(), "_books".to_string()]);
}

#[test]
fn create_asks_for_everything_missing_and_writes_both_records() {
    let plan = Database::<true, u8, u8>::create(extra(), true);
    assert_eq!(plan.open.tables, all());
    assert_eq!(plan.open.mode, Mode::OptimisticTransaction);
    assert!(plan.open.create_if_missing);
    assert!(plan.open.create_missing_column_families);
    assert_eq!(plan.steps, vec![Step::Write(Record::Config), Step::Write(Record::Books)]);
}

#[test]
fn create_without_optimistic_transactions_is_pessimistic() {
    let plan = Database::<true, u8, u8>::create(Vec::new(), false);
    assert_eq!(plan.open.mode, Mode::PessimisticTransaction);
    assert_eq!(plan.open.tables, vec!["_config".to_string(), "_books".to_string()]);
    assert_eq!(plan.steps, vec![Step::Write(Record::Config), Step::Write(Record::Books)]);
}

#[test]
fn open_creates_nothing_and_reads_both_records() {
    let plan = Database::<true, u8, u8>::open(extra());
    assert_eq!(plan.open.tables, all());
    assert_eq!(plan.open.mode, Mode::OptimisticTransaction);
    assert!(!plan.open.create_if_missing);
    assert!(!plan.open.create_missing_column_families);
    assert_eq!(plan.steps, vec![Step::Read(Record::Config), Step::Read(Record::Books)]);
}

#[test]
fn open_without_write_capability_is_read_only() {
    let plan = Database::<false, u8, u8>::open(extra());
    assert_eq!(plan.open.tables, all());
    assert_eq!(plan.open.mode, Mode::ReadOnly);
    assert!(!plan.open.create_if_missing);
    assert!(!plan.open.create_missing_column_families);
    assert_eq!(plan.steps, vec![Step::Read(Record::Config), Step::Read(Record::Books)]);
}

#[test]
fn open_with_pessimistic_transactions_is_pessimistic() {
    let plan = Database::<true, u8, u8>::open_with_pessimistic_transactions(extra());
    assert_eq!(plan.open.tables, all());
    assert_eq!(plan.open.mode, Mode::PessimisticTransaction);
    assert!(!plan.open.create_if_missing);
    assert!(!plan.open.create_missing_column_families);
    assert_eq!(plan.steps, vec![Step::Read(Record::Config), Step::Read(Record::Books)]);
}

#[test]
fn opened_plan_gives_the_backend_asked_for() {
    let plan = Database::<true, u8, u8>::create(extra(), false);
    let db = plan.opened(Ok(())).unwrap();
    assert_eq!(db.opened_mode(), Mode::PessimisticTransaction);
    assert_eq!(db.handle("orders"), Some("orders".to_string()));
    assert_eq!(db.handle("_config"), Some("_config".to_string()));
    assert_eq!(db.handle("_books"), Some("_books".to_string()));
    assert_eq!(db.handle("other"), None);
    let database = Database::<true, u8, u8>::new(db.clone(), 3, 4);
    assert_eq!(database.db, db);
    assert_eq!(database.config, 3);
    assert_eq!(database.books, 4);
    assert!(database.config_mapper().is_active());
    assert!(database.books_mapper().is_active());
}

#[test]
fn steps_follow_each_other_until_all_are_done() {
    let plan = Database::<true, u8, u8>::create(Vec::new(), true);
    assert!(matches!(plan.next_step(0, Ok(())), Ok(Some(Step::Write(Record::Config)))));
    assert!(matches!(plan.next_step(1, Ok(())), Ok(Some(Step::Write(Record::Books)))));
    assert!(matches!(plan.next_step(2, Ok(())), Ok(None)));
    assert!(matches!(plan.next_step(3, Ok(())), Ok(None)));
    let plan = Database::<false, u8, u8>::open(Vec::new());
    assert!(matches!(plan.next_step(0, Ok(())), Ok(Some(Step::Read(Record::Config)))));
    assert!(matches!(plan.next_step(1, Ok(())), Ok(Some(Step::Read(Record::Books)))));
    assert!(matches!(plan.next_step(2, Ok(())), Ok(None)));
}

#[test]
fn failure_of_a_step_ends_the_plan() {
    let plan = Database::<true, u8, u8>::create(Vec::new(), true);
    assert!(matches!(
        plan.next_step(1, Err(mapper::Error::InvalidTransaction)),
        Err(Error::Mapper(mapper::Error::InvalidTransaction))
    ));
    assert!(matches!(
        plan.next_step(0, Err(mapper::Error::Unsupported)),
        Err(Error::Mapper(mapper::Error::Unsupported))
    ));
    assert!(matches!(
        plan.next_step(2, Err(mapper::Error::Unsupported)),
        Err(Error::Mapper(mapper::Error::Unsupported))
    ));
}

fn admin() -> Admin {
    Database::<true, u8, u8>::admin(extra())
}

#[test]
fn admin_knows_all_tables() {
    assert_eq!(admin().cf_names(), &all());
    assert_eq!(
        Database::<true, u8, u8>::admin(Vec::new()).cf_names(),
        &vec!["_config".to_string(), "_books".to_string()]
    );
}

#[test]
fn admin_opens_a_plain_instance_and_creates_nothing() {
    let request = admin().open_request();
    assert_eq!(request.tables, all());
    assert!(!request.read_only);
    assert!(request.default_options);
    assert!(!request.create_if_missing);
    assert!(!request.create_missing_column_families);
}

#[test]
fn admin_that_cannot_be_opened_is_a_configuration_error() {
    let failure = EngineError {
        kind: EngineErrorKind::InvalidArgument,
        message: "Invalid argument: does not exist".to_string(),
    };
    match admin().opened(Err(failure.clone())) {
        Err(Error::Configuration(e)) => assert_eq!(e, failure),
        Err(other) => panic!("{:?}", other),
        Ok(_) => panic!("the engine did not open"),
    }
    assert_eq!(admin().opened(Ok(())).unwrap().cf_names(), &all());
}

#[test]
fn operations_are_performed_in_order_until_one_fails() {
    let operations = admin().flush(&vec![true, true, true, true]);
    assert_eq!(Admin::next_operation(&operations, 0, Ok(())), Ok(Some(0)));
    assert_eq!(Admin::next_operation(&operations, 3, Ok(())), Ok(Some(3)));
    assert_eq!(Admin::next_operation(&operations, 4, Ok(())), Ok(None));
    assert_eq!(Admin::next_operation(&operations, 5, Ok(())), Ok(None));
    assert_eq!(Admin::next_operation(&Vec::new(), 0, Ok(())), Ok(None));
    let failure = EngineError { kind: EngineErrorKind::IoError, message: "IO error: disk".to_string() };
    for done in 0..6 {
        assert_eq!(
            Admin::next_operation(&operations, done, Err(failure.clone())),
            Err(failure.clone())
        );
    }
}

#[test]
fn failed_flush_ends_the_run() {
    let operations = admin().flush(&vec![true, true, true, true]);
    let failure = EngineError { kind: EngineErrorKind::IoError, message: "IO error: disk".to_string() };
    let mut flushed = Vec::new();
    let mut done = 0;
    let mut outcome = Ok(());
    let ended = loop {
        match Admin::next_operation(&operations, done, outcome) {
            Ok(Some(i)) => {
                outcome = match &operations[i] {
                    Maintenance::Flush { table } if table == "orders" => Err(failure.clone()),
                    Maintenance::Flush { table } => {
                        flushed.push(table.clone());
                        Ok(())
                    }
                    other => panic!("{:?}", other),
                };
                done += 1;
            }
            Ok(None) => break Ok(()),
            Err(e) => break Err(e),
        }
    };
    assert_eq!(ended, Err(failure));
    assert_eq!(flushed, vec!["users".to_string()]);
}

#[test]
fn flush_asks_for_each_existing_table_in_order() {
    assert_eq!(
        admin().flush(&vec![true, true, true, true]),
        vec![
            Maintenance::Flush { table: "users".to_string() },
            Maintenance::Flush { table: "orders".to_string() },
            Maintenance::Flush { table: "_config".to_string() },
            Maintenance::Flush { table: "_books".to_string() },
        ]
    );
}

#[test]
fn flush_passes_over_missing_tables() {
    assert_eq!(
        admin().flush(&vec![false, true, false, true]),
        vec![
            Maintenance::Flush { table: "orders".to_string() },
            Maintenance::Flush { table: "_books".to_string() },
        ]
    );
    assert_eq!(admin().flush(&vec![false, false, false, false]), Vec::new());
    assert_eq!(admin().flush(&vec![true]), vec![Maintenance::Flush { table: "users".to_string() }]);
    assert_eq!(admin().flush(&Vec::new()), Vec::new());
    assert_eq!(
        admin().flush(&vec![false, false, true, false, true, true]),
        vec![Maintenance::Flush { table: "_config".to_string() }]
    );
}

#[test]
fn compact_asks_for_each_existing_table_and_then_waits() {
    assert_eq!(
        admin().compact(&vec![true, false, true, true]),
        vec![
            Maintenance::CompactRange { table: "users".to_string(), change_level: true },
            Maintenance::CompactRange { table: "_config".to_string(), change_level: true },
            Maintenance::CompactRange { table: "_books".to_string(), change_level: true },
            Maintenance::WaitForCompact,
        ]
    );
}

#[test]
fn compact_waits_even_where_no_table_exists() {
    assert_eq!(admin().compact(&Vec::new()), vec![Maintenance::WaitForCompact]);
    assert_eq!(
        admin().compact(&vec![false, false, false, false]),
        vec![Maintenance::WaitForCompact]
    );
}

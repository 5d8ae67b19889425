//! A typed store of two records, the configuration and the books, each kept
//! in a table of its own, one key per field.
//!
//! The storage engine is not part of this library. The library decides what
//! the engine is asked and what its answers mean; whoever holds the engine
//! performs the requests, in their order, and hands the answers back.

pub mod codec;
pub mod error;
pub mod mapper;
pub mod model;
pub mod wrapper;

use crate::error::Error;
use crate::mapper::{record_reads, record_writes, requests_view, Field, Shape, TableMapper};
use crate::model::{
    law_independent_tables, law_record_reads_change_nothing, law_reopen, names_of, values_of, Store,
};
use crate::wrapper::{Db, EngineError, Mode, Request, RequestView};
use vstd::prelude::*;

verus! {

/// The table that holds the configuration record.
pub const CONFIG_CF_NAME: &'static str = "_config";

/// The table that holds the books record.
pub const BOOKS_CF_NAME: &'static str = "_books";

/// The name of the table of the configuration.
pub open spec fn config_table() -> Seq<char> {
    CONFIG_CF_NAME@
}

/// The name of the table of the books.
pub open spec fn books_table() -> Seq<char> {
    BOOKS_CF_NAME@
}

/// The two reserved tables are two: what is written into one is not written
/// into the other.
pub proof fn lemma_reserved_tables_differ()
    ensures
        config_table() != books_table(),
{
    reveal_strlit("_config");
    reveal_strlit("_books");
    assert(config_table().len() == 7);
    assert(books_table().len() == 6);
}

/// The names of a list of tables.
pub open spec fn table_names(tables: Seq<String>) -> Seq<Seq<char>> {
    Seq::new(tables.len(), |i: int| tables[i]@)
}

/// The caller's tables followed by the two reserved ones.
pub open spec fn all_tables(extra: Seq<Seq<char>>) -> Seq<Seq<char>> {
    extra.push(config_table()).push(books_table())
}

/// Adds the two reserved tables behind the caller's own.
pub fn with_reserved(cfs: Vec<String>) -> (tables: Vec<String>)
    ensures
        table_names(tables@) == all_tables(table_names(cfs@)),
{
    let mut tables = cfs;
    tables.push(CONFIG_CF_NAME.to_owned());
    tables.push(BOOKS_CF_NAME.to_owned());
    assert(table_names(tables@) =~= all_tables(table_names(cfs@)));
    tables
}

/// One of the two records of a store.
#[derive(Clone, Copy, Debug, PartialEq, Eq, Structural)]
pub enum Record {
    Config,
    Books,
}

impl Record {
    /// The table that holds the record.
    pub open spec fn table(self) -> Seq<char> {
        match self {
            Record::Config => config_table(),
            Record::Books => books_table(),
        }
    }

    /// The name of the table that holds the record.
    pub fn table_name(&self) -> (name: &'static str)
        ensures
            name@ == self.table(),
    {
        match self {
            Record::Config => CONFIG_CF_NAME,
            Record::Books => BOOKS_CF_NAME,
        }
    }
}

/// What is done to a record while a store is created or opened.
#[derive(Clone, Copy, Debug, PartialEq, Eq, Structural)]
pub enum Step {
    /// The record is written, in a transaction of its own.
    Write(Record),
    /// The record is read.
    Read(Record),
}

/// What the engine is asked to open.
#[derive(Clone, Debug, PartialEq, Eq)]
pub struct OpenRequest {
    /// The tables of the instance: the caller's, then the reserved ones.
    pub tables: Vec<String>,
    pub mode: Mode,
    /// Whether a missing path is to be created. Where it is not, the
    /// caller's engine options stand.
    pub create_if_missing: bool,
    /// Whether missing tables are to be created. Where they are not, the
    /// caller's engine options stand.
    pub create_missing_column_families: bool,
}

/// How a store comes to be: the engine is opened as `open` says, then the
/// steps are taken in their order. The first failure ends it.
#[derive(Clone, Debug, PartialEq, Eq)]
pub struct Plan {
    pub open: OpenRequest,
    pub steps: Vec<Step>,
}

impl Plan {
    /// What comes after `done` steps of the plan, the last of which ended as
    /// `outcome` says. A failure ends the plan and is passed on; else the
    /// next step follows, and nothing once every step is done.
    pub fn next_step(&self, done: usize, outcome: Result<(), mapper::Error>) -> (next: Result<
        Option<Step>,
        Error,
    >)
        ensures
            next == match outcome {
                Err(e) => Err::<Option<Step>, Error>(Error::Mapper(e)),
                Ok(()) => Ok(
                    if done < self.steps.len() {
                        Some(self.steps[done as int])
                    } else {
                        None
                    },
                ),
            },
    {
        match outcome {
            Err(e) => Err(Error::from(e)),
            Ok(()) => if done < self.steps.len() {
                Ok(Some(self.steps[done]))
            } else {
                Ok(None)
            },
        }
    }

    /// What the engine's answer to the open request means: a failure is a
    /// configuration error; else the instance is open in the mode and with
    /// the tables asked for.
    pub fn opened(&self, outcome: Result<(), EngineError>) -> (db: Result<Db, Error>)
        ensures
            match outcome {
                Ok(()) => db matches Ok(opened) && opened.mode() == self.open.mode
                    && opened.tables() == table_names(self.open.tables@),
                Err(e) => db matches Err(Error::Configuration(failure)) && failure == e,
            },
    {
        match outcome {
            Ok(()) => {
                let mut tables: Vec<String> = Vec::new();
                let mut i: usize = 0;
                while i < self.open.tables.len()
                    invariant
                        i <= self.open.tables.len(),
                        tables.len() == i,
                        forall|j: int| 0 <= j < i ==> tables[j]@ == self.open.tables[j]@,
                    decreases self.open.tables.len() - i,
                {
                    tables.push(self.open.tables[i].clone());
                    i += 1;
                }
                let db = Db::new(self.open.mode, tables);
                assert(db.tables() =~= table_names(self.open.tables@));
                Ok(db)
            },
            Err(e) => Err(Error::from(e)),
        }
    }
}

/// The mode that a store is opened in: read-only unless it may be written,
/// and then by the kind of transaction asked for.
pub open spec fn mode_for(writable: bool, optimistic_transactions: bool) -> Mode {
    if !writable {
        Mode::ReadOnly
    } else if optimistic_transactions {
        Mode::OptimisticTransaction
    } else {
        Mode::PessimisticTransaction
    }
}

/// The two records are written independently: the write of the
/// configuration changes nothing of what a reader of the books finds, and the
/// write of the books nothing of what a reader of the configuration finds.
pub proof fn law_independent_records(
    store: Store,
    fields: Seq<(Seq<char>, Seq<u8>)>,
    names: Seq<Seq<char>>,
)
    ensures
        store.after(record_writes(config_table(), fields)).read(books_table(), names) == store.read(
            books_table(),
            names,
        ),
        store.after(record_writes(books_table(), fields)).read(config_table(), names) == store.read(
            config_table(),
            names,
        ),
{
    lemma_reserved_tables_differ();
    law_independent_tables(store, config_table(), fields, books_table(), names);
    law_independent_tables(store, books_table(), fields, config_table(), names);
}

/// Opening a store changes nothing, and shows what was written. After a
/// store has been created, with the configuration and the books written each
/// in a transaction of its own, and with nothing written since, whoever opens
/// it leaves it as it is and reads both records as they were written: each
/// field is decoded from the bytes that its encoder gave.
pub proof fn law_idempotent_reopen(
    store: Store,
    config: Seq<(Seq<char>, Seq<u8>)>,
    books: Seq<(Seq<char>, Seq<u8>)>,
)
    requires
        names_of(config).no_duplicates(),
        names_of(books).no_duplicates(),
    ensures
        ({
            let created = store.after(record_writes(config_table(), config)).after(
                record_writes(books_table(), books),
            );
            let opened = created.after(record_reads(config_table(), names_of(config))).after(
                record_reads(books_table(), names_of(books)),
            );
            &&& opened == created
            &&& opened.read(config_table(), names_of(config)) == values_of(config)
            &&& opened.read(books_table(), names_of(books)) == values_of(books)
        }),
{
    lemma_reserved_tables_differ();
    law_reopen(store, config_table(), config, books_table(), books);
    let created = store.after(record_writes(config_table(), config)).after(
        record_writes(books_table(), books),
    );
    law_record_reads_change_nothing(created, config_table(), names_of(config));
    law_record_reads_change_nothing(created, books_table(), names_of(books));
}

/// A store that may not be written is opened in the read-only mode, whatever
/// kind of transaction was asked for, and that mode gives no transaction to
/// write in. Opening it asks for the reads of the two records and for nothing
/// else, and they leave every table as it was.
pub proof fn law_read_only(
    optimistic_transactions: bool,
    store: Store,
    config: Seq<Seq<char>>,
    books: Seq<Seq<char>>,
)
    ensures
        mode_for(false, optimistic_transactions) == Mode::ReadOnly,
        !mode_for(false, optimistic_transactions).writable(),
        store.after(record_reads(config_table(), config)).after(
            record_reads(books_table(), books),
        ) == store,
{
    law_record_reads_change_nothing(store, config_table(), config);
    law_record_reads_change_nothing(store, books_table(), books);
}

/// An open store, with the two records as they were when it was created or
/// opened. `W` says whether it may be written. Writing a record later does
/// not change the copies held here.
#[derive(Clone)]
pub struct Database<const W: bool, C, B> {
    pub db: Db,
    pub config: C,
    pub books: B,
}

impl<const W: bool, C, B> Database<W, C, B> {
    /// The store over an open instance, with the two records it holds.
    pub fn new(db: Db, config: C, books: B) -> (database: Self)
        ensures
            database.db == db,
            database.config == config,
            database.books == books,
    {
        Database { db, config, books }
    }

    /// The mapper onto the table of the configuration.
    pub fn config_mapper(&self) -> (mapper: TableMapper<W>)
        ensures
            mapper.table() == config_table(),
            mapper.active() == (W && self.db.mode().writable()),
            mapper.pending() == Seq::<RequestView>::empty(),
    {
        TableMapper::new(&self.db, CONFIG_CF_NAME)
    }

    /// The mapper onto the table of the books.
    pub fn books_mapper(&self) -> (mapper: TableMapper<W>)
        ensures
            mapper.table() == books_table(),
            mapper.active() == (W && self.db.mode().writable()),
            mapper.pending() == Seq::<RequestView>::empty(),
    {
        TableMapper::new(&self.db, BOOKS_CF_NAME)
    }

    /// Opens a store that exists: read-only unless `W` holds, and then with
    /// optimistic transactions. Nothing is created and nothing is written;
    /// the configuration is read, then the books.
    pub fn open(cfs: Vec<String>) -> (plan: Plan)
        ensures
            table_names(plan.open.tables@) == all_tables(table_names(cfs@)),
            plan.open.mode == mode_for(W, true),
            !plan.open.create_if_missing,
            !plan.open.create_missing_column_families,
            plan.steps@ == seq![Step::Read(Record::Config), Step::Read(Record::Books)],
    {
        Self::open_internal(cfs, true)
    }

    /// Asks for the reads of the configuration as it is stored now.
    pub fn read_config(&self, shape: Shape, fields: &[&str]) -> (asked: Result<
        Vec<Request>,
        mapper::Error,
    >)
        ensures
            shape == Shape::Struct ==> (asked matches Ok(requests) && requests_view(requests@)
                == record_reads(config_table(), fields@.map_values(|field: &str| field@))),
            shape.empty() ==> (asked matches Ok(requests) && requests@.len() == 0),
            !shape.record() ==> asked matches Err(mapper::Error::Unsupported),
    {
        self.config_mapper().read_record(shape, fields)
    }

    /// Asks for the reads of the books as they are stored now.
    pub fn read_books(&self, shape: Shape, fields: &[&str]) -> (asked: Result<
        Vec<Request>,
        mapper::Error,
    >)
        ensures
            shape == Shape::Struct ==> (asked matches Ok(requests) && requests_view(requests@)
                == record_reads(books_table(), fields@.map_values(|field: &str| field@))),
            shape.empty() ==> (asked matches Ok(requests) && requests@.len() == 0),
            !shape.record() ==> asked matches Err(mapper::Error::Unsupported),
    {
        self.books_mapper().read_record(shape, fields)
    }

    fn open_internal(cfs: Vec<String>, optimistic_transactions: bool) -> (plan: Plan)
        ensures
            table_names(plan.open.tables@) == all_tables(table_names(cfs@)),
            plan.open.mode == mode_for(W, optimistic_transactions),
            !plan.open.create_if_missing,
            !plan.open.create_missing_column_families,
            plan.steps@ == seq![Step::Read(Record::Config), Step::Read(Record::Books)],
    {
        let mode = if !W {
            Mode::ReadOnly
        } else if optimistic_transactions {
            Mode::OptimisticTransaction
        } else {
            Mode::PessimisticTransaction
        };
        let mut steps: Vec<Step> = Vec::new();
        steps.push(Step::Read(Record::Config));
        steps.push(Step::Read(Record::Books));
        assert(steps@ =~= seq![Step::Read(Record::Config), Step::Read(Record::Books)]);
        Plan {
            open: OpenRequest {
                tables: with_reserved(cfs),
                mode,
                create_if_missing: false,
                create_missing_column_families: false,
            },
            steps,
        }
    }
}

impl<C, B> Database<true, C, B> {
    /// Creates a store: the path and the tables are created where they are
    /// missing, the instance is opened with the kind of transaction asked
    /// for, and the two records are written, the configuration first, each in
    /// a transaction of its own.
    pub fn create(cfs: Vec<String>, optimistic_transactions: bool) -> (plan: Plan)
        ensures
            table_names(plan.open.tables@) == all_tables(table_names(cfs@)),
            plan.open.mode == mode_for(true, optimistic_transactions),
            plan.open.create_if_missing,
            plan.open.create_missing_column_families,
            plan.steps@ == seq![Step::Write(Record::Config), Step::Write(Record::Books)],
    {
        let mode = if optimistic_transactions {
            Mode::OptimisticTransaction
        } else {
            Mode::PessimisticTransaction
        };
        let mut steps: Vec<Step> = Vec::new();
        steps.push(Step::Write(Record::Config));
        steps.push(Step::Write(Record::Books));
        assert(steps@ =~= seq![Step::Write(Record::Config), Step::Write(Record::Books)]);
        Plan {
            open: OpenRequest {
                tables: with_reserved(cfs),
                mode,
                create_if_missing: true,
                create_missing_column_families: true,
            },
            steps,
        }
    }

    /// Opens a store that exists for writing, with pessimistic transactions.
    pub fn open_with_pessimistic_transactions(cfs: Vec<String>) -> (plan: Plan)
        ensures
            table_names(plan.open.tables@) == all_tables(table_names(cfs@)),
            plan.open.mode == Mode::PessimisticTransaction,
            !plan.open.create_if_missing,
            !plan.open.create_missing_column_families,
            plan.steps@ == seq![Step::Read(Record::Config), Step::Read(Record::Books)],
    {
        Self::open_internal(cfs, false)
    }

    /// Asks for the write of the configuration, in a transaction of its own:
    /// the puts of its fields and the commit. The copy held by the store
    /// stays as it is.
    pub fn write_config(&self, shape: Shape, fields: &Vec<Field>) -> (asked: Result<
        Vec<Request>,
        mapper::Error,
    >)
        ensures
            shape == Shape::Struct && self.db.mode().writable() ==> (asked matches Ok(requests)
                && requests_view(requests@) == record_writes(
                config_table(),
                fields@.map_values(|field: Field| field@),
            ).push(RequestView::Commit)),
            shape.empty() && self.db.mode().writable() ==> (asked matches Ok(requests)
                && requests@.len() == 0),
            shape.record() && !self.db.mode().writable() ==> asked matches Err(
                mapper::Error::InvalidTransaction,
            ),
            !shape.record() ==> asked matches Err(mapper::Error::Unsupported),
    {
        self.config_mapper().write_record(shape, fields)
    }

    /// Asks for the write of the books, in a transaction of its own: the
    /// puts of its fields and the commit. The copy held by the store stays as
    /// it is.
    pub fn write_books(&self, shape: Shape, fields: &Vec<Field>) -> (asked: Result<
        Vec<Request>,
        mapper::Error,
    >)
        ensures
            shape == Shape::Struct && self.db.mode().writable() ==> (asked matches Ok(requests)
                && requests_view(requests@) == record_writes(
                books_table(),
                fields@.map_values(|field: Field| field@),
            ).push(RequestView::Commit)),
            shape.empty() && self.db.mode().writable() ==> (asked matches Ok(requests)
                && requests@.len() == 0),
            shape.record() && !self.db.mode().writable() ==> asked matches Err(
                mapper::Error::InvalidTransaction,
            ),
            !shape.record() ==> asked matches Err(mapper::Error::Unsupported),
    {
        self.books_mapper().write_record(shape, fields)
    }

    /// The maintenance handle over the caller's tables and the reserved ones.
    /// The engine is opened for it as `Admin::open_request` says.
    pub fn admin(cfs: Vec<String>) -> (admin: Admin)
        ensures
            admin.tables() == all_tables(table_names(cfs@)),
    {
        Admin { cf_names: with_reserved(cfs) }
    }
}

impl<C, B> Database<false, C, B> {
    /// The instance under a read-only store.
    pub fn underlying(&self) -> (db: &Db)
        ensures
            *db == self.db,
    {
        &self.db
    }
}

/// What the engine is asked to open for maintenance: a plain instance
/// without transactions.
#[derive(Clone, Debug, PartialEq, Eq)]
pub struct AdminOpenRequest {
    /// The tables of the instance: the caller's, then the reserved ones.
    pub tables: Vec<String>,
    /// Whether the instance is opened for reading alone.
    pub read_only: bool,
    /// Whether the engine's default options are used, and none of the
    /// caller's.
    pub default_options: bool,
    /// Whether a missing path is to be created.
    pub create_if_missing: bool,
    /// Whether missing tables are to be created.
    pub create_missing_column_families: bool,
}

/// One maintenance operation asked of the engine.
#[derive(Clone, Debug, PartialEq, Eq)]
pub enum Maintenance {
    /// Flush one table to stable storage.
    Flush { table: String },
    /// Compact the whole key range of one table.
    CompactRange { table: String, change_level: bool },
    /// Wait until the engine has no compaction left to do.
    WaitForCompact,
}

/// How a maintenance operation looks to specifications.
pub ghost enum MaintenanceView {
    Flush { table: Seq<char> },
    CompactRange { table: Seq<char>, change_level: bool },
    WaitForCompact,
}

impl View for Maintenance {
    type V = MaintenanceView;

    open spec fn view(&self) -> MaintenanceView {
        match self {
            Maintenance::Flush { table } => MaintenanceView::Flush { table: table@ },
            Maintenance::CompactRange { table, change_level } => MaintenanceView::CompactRange {
                table: table@,
                change_level: *change_level,
            },
            Maintenance::WaitForCompact => MaintenanceView::WaitForCompact,
        }
    }
}

/// How a list of maintenance operations looks to specifications.
pub open spec fn maintenance_view(operations: Seq<Maintenance>) -> Seq<MaintenanceView> {
    Seq::new(operations.len(), |i: int| operations[i]@)
}

/// The tables among `names` that exist, in the order of `names`. The table
/// at a position exists where `exists` says so at that position.
pub open spec fn existing(names: Seq<Seq<char>>, exists: Seq<bool>) -> Seq<Seq<char>>
    decreases names.len(),
{
    if names.len() == 0 {
        Seq::empty()
    } else {
        let before = existing(names.drop_last(), exists);
        if names.len() <= exists.len() && exists[names.len() - 1] {
            before.push(names.last())
        } else {
            before
        }
    }
}

proof fn lemma_existing_step(names: Seq<Seq<char>>, exists: Seq<bool>, i: int)
    requires
        0 <= i < names.len(),
    ensures
        existing(names.take(i + 1), exists) == if i < exists.len() && exists[i] {
            existing(names.take(i), exists).push(names[i])
        } else {
            existing(names.take(i), exists)
        },
{
    assert(names.take(i + 1).drop_last() =~= names.take(i));
}

/// The flush of each of the given tables.
pub open spec fn flushes(tables: Seq<Seq<char>>) -> Seq<MaintenanceView> {
    Seq::new(tables.len(), |i: int| MaintenanceView::Flush { table: tables[i] })
}

/// The compaction of each of the given tables, with level promotion.
pub open spec fn compactions(tables: Seq<Seq<char>>) -> Seq<MaintenanceView> {
    Seq::new(
        tables.len(),
        |i: int| MaintenanceView::CompactRange { table: tables[i], change_level: true },
    )
}

proof fn lemma_flushes_push(tables: Seq<Seq<char>>, table: Seq<char>)
    ensures
        flushes(tables.push(table)) == flushes(tables).push(MaintenanceView::Flush { table }),
{
    assert(flushes(tables.push(table)) =~= flushes(tables).push(
        MaintenanceView::Flush { table },
    ));
}

proof fn lemma_compactions_push(tables: Seq<Seq<char>>, table: Seq<char>)
    ensures
        compactions(tables.push(table)) == compactions(tables).push(
            MaintenanceView::CompactRange { table, change_level: true },
        ),
{
    assert(compactions(tables.push(table)) =~= compactions(tables).push(
        MaintenanceView::CompactRange { table, change_level: true },
    ));
}

/// Maintenance over all the tables that a store knows.
pub struct Admin {
    cf_names: Vec<String>,
}

impl Admin {
    /// The names of the tables that the handle knows.
    pub closed spec fn tables(&self) -> Seq<Seq<char>> {
        table_names(self.cf_names@)
    }

    /// The names of the tables that the handle knows.
    pub fn cf_names(&self) -> (names: &Vec<String>)
        ensures
            table_names(names@) == self.tables(),
    {
        &self.cf_names
    }

    /// How the engine is opened for maintenance: over all the known tables,
    /// for reading and writing, with the engine's default options, and with
    /// nothing created that is missing.
    pub fn open_request(&self) -> (request: AdminOpenRequest)
        ensures
            table_names(request.tables@) == self.tables(),
            !request.read_only,
            request.default_options,
            !request.create_if_missing,
            !request.create_missing_column_families,
    {
        let mut tables: Vec<String> = Vec::new();
        let mut i: usize = 0;
        while i < self.cf_names.len()
            invariant
                i <= self.cf_names.len(),
                tables.len() == i,
                forall|j: int| 0 <= j < i ==> tables[j]@ == self.cf_names[j]@,
            decreases self.cf_names.len() - i,
        {
            tables.push(self.cf_names[i].clone());
            i += 1;
        }
        assert(table_names(tables@) =~= self.tables());
        AdminOpenRequest {
            tables,
            read_only: false,
            default_options: true,
            create_if_missing: false,
            create_missing_column_families: false,
        }
    }

    /// What the engine's answer to the open request means: a failure is a
    /// configuration error; else the handle is ready.
    pub fn opened(self, outcome: Result<(), EngineError>) -> (admin: Result<Admin, Error>)
        ensures
            admin == match outcome {
                Ok(()) => Ok::<Admin, Error>(self),
                Err(e) => Err(Error::Configuration(e)),
            },
    {
        match outcome {
            Ok(()) => Ok(self),
            Err(e) => Err(Error::from(e)),
        }
    }

    /// Which operation of a list is performed next, after `done` of them
    /// have been performed and the last of them ended as `outcome` says. A
    /// failure ends the list and is passed on: no operation behind it is
    /// performed. Else the next operation follows, and nothing once all are
    /// done.
    pub fn next_operation(
        operations: &Vec<Maintenance>,
        done: usize,
        outcome: Result<(), EngineError>,
    ) -> (next: Result<Option<usize>, EngineError>)
        ensures
            next == match outcome {
                Err(e) => Err::<Option<usize>, EngineError>(e),
                Ok(()) => Ok(
                    if done < operations.len() {
                        Some(done)
                    } else {
                        None
                    },
                ),
            },
    {
        match outcome {
            Err(e) => Err(e),
            Ok(()) => if done < operations.len() {
                Ok(Some(done))
            } else {
                Ok(None)
            },
        }
    }

    /// Asks for the flush of every known table that exists, in the order of
    /// the names. `exists` says of each known table whether the engine has
    /// it; a table that it has not is passed over. The flushes are performed
    /// in their order, as `next_operation` says: the first that fails ends
    /// the run.
    pub fn flush(&self, exists: &Vec<bool>) -> (operations: Vec<Maintenance>)
        ensures
            maintenance_view(operations@) == flushes(existing(self.tables(), exists@)),
    {
        let mut operations: Vec<Maintenance> = Vec::new();
        let mut i: usize = 0;
        while i < self.cf_names.len()
            invariant
                i <= self.cf_names.len(),
                maintenance_view(operations@) == flushes(
                    existing(self.tables().take(i as int), exists@),
                ),
            decreases self.cf_names.len() - i,
        {
            let ghost asked = maintenance_view(operations@);
            if i < exists.len() && exists[i] {
                operations.push(Maintenance::Flush { table: self.cf_names[i].clone() });
                assert(maintenance_view(operations@) =~= asked.push(
                    MaintenanceView::Flush { table: self.tables()[i as int] },
                ));
            }
            proof {
                lemma_existing_step(self.tables(), exists@, i as int);
                lemma_flushes_push(
                    existing(self.tables().take(i as int), exists@),
                    self.tables()[i as int],
                );
            }
            i += 1;
        }
        assert(self.tables().take(i as int) =~= self.tables());
        operations
    }

    /// Asks for the compaction of every known table that exists, with level
    /// promotion, in the order of the names, and then for the wait until the
    /// engine is done. The operations are performed in their order, as
    /// `next_operation` says.
    pub fn compact(&self, exists: &Vec<bool>) -> (operations: Vec<Maintenance>)
        ensures
            maintenance_view(operations@) == compactions(existing(self.tables(), exists@)).push(
                MaintenanceView::WaitForCompact,
            ),
    {
        let mut operations: Vec<Maintenance> = Vec::new();
        let mut i: usize = 0;
        while i < self.cf_names.len()
            invariant
                i <= self.cf_names.len(),
                maintenance_view(operations@) == compactions(
                    existing(self.tables().take(i as int), exists@),
                ),
            decreases self.cf_names.len() - i,
        {
            let ghost asked = maintenance_view(operations@);
            if i < exists.len() && exists[i] {
                operations.push(
                    Maintenance::CompactRange {
                        table: self.cf_names[i].clone(),
                        change_level: true,
                    },
                );
                assert(maintenance_view(operations@) =~= asked.push(
                    MaintenanceView::CompactRange {
                        table: self.tables()[i as int],
                        change_level: true,
                    },
                ));
            }
            proof {
                lemma_existing_step(self.tables(), exists@, i as int);
                lemma_compactions_push(
                    existing(self.tables().take(i as int), exists@),
                    self.tables()[i as int],
                );
            }
            i += 1;
        }
        assert(self.tables().take(i as int) =~= self.tables());
        let ghost asked = maintenance_view(operations@);
        operations.push(Maintenance::WaitForCompact);
        assert(maintenance_view(operations@) =~= asked.push(MaintenanceView::WaitForCompact));
        operations
    }
}

} // verus!

//! The storage backend as this layer sees it.
//!
//! The engine itself lives outside the verified code. What is decided here is
//! which operation is asked of it, if any: the methods of [`Db`] and
//! [`Transaction`] return the [`Request`] that the caller then performs
//! against the engine, and the engine's answer comes back as a plain value.

use crate::mapper::Error;
use vstd::prelude::*;
use vstd::slice::slice_to_vec;

verus! {

/// The mode that an engine instance was opened in. It is fixed when the
/// instance is opened and never changes afterwards.
#[derive(Clone, Copy, Debug, PartialEq, Eq, Structural)]
pub enum Mode {
    ReadOnly,
    OptimisticTransaction,
    PessimisticTransaction,
}

impl Mode {
    /// Only the two transactional modes accept writes.
    pub open spec fn writable(self) -> bool {
        self != Mode::ReadOnly
    }

    /// Whether an instance opened in this mode accepts writes.
    pub fn is_writable(&self) -> (b: bool)
        ensures
            b == self.writable(),
    {
        match self {
            Mode::ReadOnly => false,
            Mode::OptimisticTransaction => true,
            Mode::PessimisticTransaction => true,
        }
    }
}

/// The classes of failure that the engine reports.
#[derive(Clone, Copy, Debug, PartialEq, Eq, Structural)]
pub enum EngineErrorKind {
    NotFound,
    Corruption,
    NotSupported,
    InvalidArgument,
    IoError,
    MergeInProgress,
    Incomplete,
    ShutdownInProgress,
    TimedOut,
    Aborted,
    Busy,
    Expired,
    TryAgain,
    CompactionTooLarge,
    ColumnFamilyDropped,
    Unknown,
}

/// A failure of the engine, passed through as it was reported.
#[derive(Clone, Debug, PartialEq, Eq)]
pub struct EngineError {
    pub kind: EngineErrorKind,
    pub message: String,
}

impl EngineError {
    /// A write conflict: another transaction touched the same keys. The engine
    /// reports it as `Busy`.
    pub open spec fn conflict(self) -> bool {
        self.kind == EngineErrorKind::Busy
    }

    /// Tells a write conflict, after which the whole record write may be tried
    /// again, from every other failure.
    pub fn is_conflict(&self) -> (b: bool)
        ensures
            b == self.conflict(),
    {
        self.kind == EngineErrorKind::Busy
    }
}

/// What the engine answers to a point read: the stored value, or nothing
/// where the key is absent.
pub type Lookup = Result<Option<Vec<u8>>, EngineError>;

/// The direction in which a range iteration walks the keys.
#[derive(Clone, Copy, Debug, PartialEq, Eq, Structural)]
pub enum Direction {
    Forward,
    Reverse,
}

/// Where a range iteration starts, and which way it goes.
#[derive(Clone, Debug, PartialEq, Eq)]
pub enum IteratorMode {
    /// From the first key, forwards.
    Start,
    /// From the last key, backwards.
    End,
    /// From the given key, in the given direction.
    From(Vec<u8>, Direction),
}

/// How an iteration mode looks to specifications.
pub ghost enum IteratorModeView {
    Start,
    End,
    From(Seq<u8>, Direction),
}

impl View for IteratorMode {
    type V = IteratorModeView;

    open spec fn view(&self) -> IteratorModeView {
        match self {
            IteratorMode::Start => IteratorModeView::Start,
            IteratorMode::End => IteratorModeView::End,
            IteratorMode::From(key, direction) => IteratorModeView::From(key@, *direction),
        }
    }
}

/// One operation asked of the engine. What a `Db` asks is performed at once;
/// what a `Transaction` asks is performed within that transaction, and its
/// writes take effect with the commit.
#[derive(Clone, Debug, PartialEq, Eq)]
pub enum Request {
    Get { table: String, key: Vec<u8> },
    MultiGet { table: String, keys: Vec<Vec<u8>> },
    Put { table: String, key: Vec<u8>, value: Vec<u8> },
    Merge { table: String, key: Vec<u8>, value: Vec<u8> },
    Iterate { table: String, mode: IteratorMode },
    Commit,
}

/// How a request looks to specifications.
pub ghost enum RequestView {
    Get { table: Seq<char>, key: Seq<u8> },
    MultiGet { table: Seq<char>, keys: Seq<Seq<u8>> },
    Put { table: Seq<char>, key: Seq<u8>, value: Seq<u8> },
    Merge { table: Seq<char>, key: Seq<u8>, value: Seq<u8> },
    Iterate { table: Seq<char>, mode: IteratorModeView },
    Commit,
}

impl View for Request {
    type V = RequestView;

    open spec fn view(&self) -> RequestView {
        match self {
            Request::Get { table, key } => RequestView::Get { table: table@, key: key@ },
            Request::MultiGet { table, keys } => RequestView::MultiGet {
                table: table@,
                keys: keys.deep_view(),
            },
            Request::Put { table, key, value } => RequestView::Put {
                table: table@,
                key: key@,
                value: value@,
            },
            Request::Merge { table, key, value } => RequestView::Merge {
                table: table@,
                key: key@,
                value: value@,
            },
            Request::Iterate { table, mode } => RequestView::Iterate { table: table@, mode: mode@ },
            Request::Commit => RequestView::Commit,
        }
    }
}

/// Gathers the answers to a read of several keys. Where every key was read,
/// the values come back in the order of the keys; else the first failure
/// does, and the answers behind it are dropped.
pub fn collect(answers: Vec<Lookup>) -> (gathered: Result<Vec<Option<Vec<u8>>>, EngineError>)
    ensures
        match gathered {
            Ok(values) => values.len() == answers.len() && forall|i: int|
                0 <= i < values.len() ==> answers[i] == Ok::<Option<Vec<u8>>, EngineError>(
                    values[i],
                ),
            Err(e) => exists|i: int|
                0 <= i < answers.len() && answers[i] == Err::<Option<Vec<u8>>, EngineError>(e)
                    && forall|j: int| 0 <= j < i ==> answers[j] is Ok,
        },
{
    let ghost all = answers@;
    let mut values: Vec<Option<Vec<u8>>> = Vec::new();
    for answer in it: answers
        invariant
            it.seq() == all,
            values.len() == it.index(),
            forall|i: int|
                0 <= i < values.len() ==> all[i] == Ok::<Option<Vec<u8>>, EngineError>(values[i]),
    {
        match answer {
            Ok(value) => {
                values.push(value);
            },
            Err(e) => {
                return Err(e);
            },
        }
    }
    Ok(values)
}

/// Copies a list of keys, one by one.
fn copy_keys(keys: &Vec<Vec<u8>>) -> (copy: Vec<Vec<u8>>)
    ensures
        copy.deep_view() == keys.deep_view(),
{
    let mut copy: Vec<Vec<u8>> = Vec::new();
    let mut i: usize = 0;
    while i < keys.len()
        invariant
            i <= keys.len(),
            copy.len() == i,
            forall|j: int| 0 <= j < i ==> copy[j]@ == keys[j]@,
        decreases keys.len() - i,
    {
        copy.push(slice_to_vec(keys[i].as_slice()));
        i += 1;
    }
    assert(copy.deep_view() =~= keys.deep_view());
    copy
}

/// An open engine instance: the mode it was opened in and the tables it holds.
#[derive(Clone, Debug, PartialEq, Eq)]
pub struct Db {
    mode: Mode,
    tables: Vec<String>,
}

impl Db {
    /// The mode that the instance was opened in.
    pub closed spec fn mode(&self) -> Mode {
        self.mode
    }

    /// The names of the tables of this instance.
    pub closed spec fn tables(&self) -> Seq<Seq<char>> {
        Seq::new(self.tables.len() as nat, |i: int| self.tables[i]@)
    }

    /// Whether the instance has a table of the given name.
    pub open spec fn has_table(&self, name: Seq<char>) -> bool {
        self.tables().contains(name)
    }

    /// Describes an instance that the engine has opened in `mode` with `tables`.
    pub fn new(mode: Mode, tables: Vec<String>) -> (db: Db)
        ensures
            db.mode() == mode,
            db.tables() == Seq::new(tables.len() as nat, |i: int| tables[i]@),
    {
        Db { mode, tables }
    }

    /// The mode that the instance was opened in.
    pub fn opened_mode(&self) -> (mode: Mode)
        ensures
            mode == self.mode(),
    {
        self.mode
    }

    /// Whether this instance was opened read-only.
    pub fn read_only(&self) -> (b: bool)
        ensures
            b == !self.mode().writable(),
    {
        !self.mode.is_writable()
    }

    /// Starts a transaction. A read-only instance has none to give; a
    /// writable one gives an empty transaction of its own kind.
    pub fn transaction(&self) -> (tx: Option<Transaction>)
        ensures
            tx is Some <==> self.mode().writable(),
            tx matches Some(t) ==> t.writes() == Seq::<RequestView>::empty() && (t.optimistic()
                <==> self.mode() == Mode::OptimisticTransaction),
    {
        match self.mode {
            Mode::ReadOnly => None,
            Mode::OptimisticTransaction => Some(Transaction::Optimistic(Ghost(Seq::empty()))),
            Mode::PessimisticTransaction => Some(Transaction::Pessimistic(Ghost(Seq::empty()))),
        }
    }

    /// Resolves a table by its name: the name itself where the instance has
    /// such a table, nothing where it does not.
    pub fn handle(&self, name: &str) -> (table: Option<String>)
        ensures
            table is Some <==> self.has_table(name@),
            table matches Some(t) ==> t@ == name@,
    {
        let wanted = name.to_owned();
        let mut i: usize = 0;
        while i < self.tables.len()
            invariant
                i <= self.tables.len(),
                wanted@ == name@,
                forall|j: int| 0 <= j < i ==> self.tables[j]@ != name@,
            decreases self.tables.len() - i,
        {
            if self.tables[i] == wanted {
                assert(self.tables()[i as int] == name@);
                return Some(wanted);
            }
            i += 1;
        }
        None
    }

    /// A point read outside any transaction.
    pub fn get(&self, cf: &str, key: &[u8]) -> (request: Request)
        ensures
            request@ == (RequestView::Get { table: cf@, key: key@ }),
    {
        Request::Get { table: cf.to_owned(), key: slice_to_vec(key) }
    }

    /// A read of several keys of one table, answered in the order of the keys.
    pub fn multi_get(&self, cf: &str, keys: &Vec<Vec<u8>>) -> (request: Request)
        ensures
            request@ == (RequestView::MultiGet { table: cf@, keys: keys.deep_view() }),
    {
        Request::MultiGet { table: cf.to_owned(), keys: copy_keys(keys) }
    }

    /// A write outside any transaction. An instance that was opened read-only
    /// refuses it, and nothing is asked of the engine.
    pub fn put(&self, cf: &str, key: &[u8], value: &[u8]) -> (asked: Result<Request, Error>)
        ensures
            self.mode().writable() ==> (asked matches Ok(request) && request@ == (RequestView::Put {
                table: cf@,
                key: key@,
                value: value@,
            })),
            !self.mode().writable() ==> asked matches Err(Error::InvalidTransaction),
    {
        if self.mode.is_writable() {
            Ok(
                Request::Put {
                    table: cf.to_owned(),
                    key: slice_to_vec(key),
                    value: slice_to_vec(value),
                },
            )
        } else {
            Err(Error::InvalidTransaction)
        }
    }

    /// A merge outside any transaction. An instance that was opened read-only
    /// refuses it, and nothing is asked of the engine.
    pub fn merge(&self, cf: &str, key: &[u8], value: &[u8]) -> (asked: Result<Request, Error>)
        ensures
            self.mode().writable() ==> (asked matches Ok(request) && request@
                == (RequestView::Merge { table: cf@, key: key@, value: value@ })),
            !self.mode().writable() ==> asked matches Err(Error::InvalidTransaction),
    {
        if self.mode.is_writable() {
            Ok(
                Request::Merge {
                    table: cf.to_owned(),
                    key: slice_to_vec(key),
                    value: slice_to_vec(value),
                },
            )
        } else {
            Err(Error::InvalidTransaction)
        }
    }

    /// A walk over one table in the engine's key order.
    pub fn iterator(&self, cf: &str, mode: IteratorMode) -> (request: Request)
        ensures
            request@ == (RequestView::Iterate { table: cf@, mode: mode@ }),
    {
        Request::Iterate { table: cf.to_owned(), mode }
    }

    /// Gives the instance up.
    pub fn close(self) {
    }
}

/// One explicit transaction. It collects the writes asked within it; they
/// take effect together when it is committed, and not at all when it is
/// dropped instead.
pub enum Transaction {
    Optimistic(Ghost<Seq<RequestView>>),
    Pessimistic(Ghost<Seq<RequestView>>),
}

impl Transaction {
    /// The writes asked within this transaction so far, in the order asked.
    pub open spec fn writes(self) -> Seq<RequestView> {
        match self {
            Transaction::Optimistic(writes) => writes@,
            Transaction::Pessimistic(writes) => writes@,
        }
    }

    /// Whether conflicts are found when the transaction is committed, and
    /// not prevented by locks while it runs.
    pub open spec fn optimistic(self) -> bool {
        self is Optimistic
    }

    /// Ends the transaction: the engine is asked to apply its writes as a unit.
    pub fn commit(self) -> (request: Request)
        ensures
            request@ == RequestView::Commit,
    {
        Request::Commit
    }

    /// A point read within the transaction.
    pub fn get(&self, cf: &str, key: &[u8]) -> (request: Request)
        ensures
            request@ == (RequestView::Get { table: cf@, key: key@ }),
    {
        Request::Get { table: cf.to_owned(), key: slice_to_vec(key) }
    }

    /// A read of several keys within the transaction.
    pub fn multi_get(&self, cf: &str, keys: &Vec<Vec<u8>>) -> (request: Request)
        ensures
            request@ == (RequestView::MultiGet { table: cf@, keys: keys.deep_view() }),
    {
        Request::MultiGet { table: cf.to_owned(), keys: copy_keys(keys) }
    }

    /// A write within the transaction. It is added behind the writes asked
    /// before it.
    pub fn put(&mut self, cf: &str, key: &[u8], value: &[u8]) -> (request: Request)
        ensures
            request@ == (RequestView::Put { table: cf@, key: key@, value: value@ }),
            final(self).writes() == old(self).writes().push(request@),
            final(self).optimistic() == old(self).optimistic(),
    {
        let ghost write = RequestView::Put { table: cf@, key: key@, value: value@ };
        match self {
            Transaction::Optimistic(writes) => {
                proof {
                    *writes.borrow_mut() = writes@.push(write);
                }
            },
            Transaction::Pessimistic(writes) => {
                proof {
                    *writes.borrow_mut() = writes@.push(write);
                }
            },
        }
        Request::Put { table: cf.to_owned(), key: slice_to_vec(key), value: slice_to_vec(value) }
    }

    /// A merge within the transaction.
    pub fn merge(&mut self, cf: &str, key: &[u8], value: &[u8]) -> (request: Request)
        ensures
            request@ == (RequestView::Merge { table: cf@, key: key@, value: value@ }),
            final(self).writes() == old(self).writes().push(request@),
            final(self).optimistic() == old(self).optimistic(),
    {
        let ghost write = RequestView::Merge { table: cf@, key: key@, value: value@ };
        match self {
            Transaction::Optimistic(writes) => {
                proof {
                    *writes.borrow_mut() = writes@.push(write);
                }
            },
            Transaction::Pessimistic(writes) => {
                proof {
                    *writes.borrow_mut() = writes@.push(write);
                }
            },
        }
        Request::Merge { table: cf.to_owned(), key: slice_to_vec(key), value: slice_to_vec(value) }
    }

    /// A walk over one table as the transaction sees it.
    pub fn iterator(&self, cf: &str, mode: IteratorMode) -> (request: Request)
        ensures
            request@ == (RequestView::Iterate { table: cf@, mode: mode@ }),
    {
        Request::Iterate { table: cf.to_owned(), mode }
    }
}

} // verus!

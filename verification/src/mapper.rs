//! Maps a record onto a table, one key per field.
//!
//! A record is written field by field within one transaction, which is
//! committed when the last field has been asked for; it is read field by
//! field, and a field whose key is absent is decoded from the one-byte
//! encoding of "no value".

use crate::codec::{absent_bytes, absent_encoding, decode_value, encode_value};
use crate::wrapper::{Db, EngineError, Lookup, Request, RequestView, Transaction};
use vstd::prelude::*;
use vstd::slice::slice_to_vec;
use vstd::std_specs::convert::FromSpecImpl;
use vstd::utf8::encode_utf8;

verus! {

/// What can go wrong while a record is written or read.
#[derive(Debug)]
pub enum Error {
    /// The value is neither a struct nor empty, so it has no fields to map.
    Unsupported,
    /// A write was asked where nothing may be written: of a mapper that
    /// holds no transaction, or of an instance that was opened read-only.
    InvalidTransaction,
    /// A field value could not be encoded.
    Encoding(bincode::error::EncodeError),
    /// Stored bytes could not be decoded as the field's type.
    Decoding(bincode::error::DecodeError),
    /// The record type refused what the fields gave it, with these words.
    Serde(String),
    /// The engine failed.
    Db(EngineError),
}

impl Error {
    /// The words that describe each kind of error.
    pub open spec fn spec_message(error: Error) -> Seq<char> {
        match error {
            Error::Unsupported => "Unsupported configuration type"@,
            Error::InvalidTransaction => "Invalid RocksDB transaction state"@,
            Error::Encoding(_) => "Encoding error"@,
            Error::Decoding(_) => "Decoding error"@,
            Error::Serde(_) => "Serde error"@,
            Error::Db(_) => "RocksDb error"@,
        }
    }

    /// A short description of the error.
    pub fn message(&self) -> (text: String)
        ensures
            text@ == Error::spec_message(*self),
    {
        match self {
            Error::Unsupported => "Unsupported configuration type".to_owned(),
            Error::InvalidTransaction => "Invalid RocksDB transaction state".to_owned(),
            Error::Encoding(_) => "Encoding error".to_owned(),
            Error::Decoding(_) => "Decoding error".to_owned(),
            Error::Serde(_) => "Serde error".to_owned(),
            Error::Db(_) => "RocksDb error".to_owned(),
        }
    }

    /// Passes on what the engine answered to a write or a commit.
    pub fn check(outcome: Result<(), EngineError>) -> (checked: Result<(), Error>)
        ensures
            checked == match outcome {
                Ok(()) => Ok::<(), Error>(()),
                Err(e) => Err(Error::Db(e)),
            },
    {
        match outcome {
            Ok(()) => Ok(()),
            Err(e) => Err(Error::from(e)),
        }
    }
}

impl From<EngineError> for Error {
    fn from(e: EngineError) -> (error: Error) {
        Error::Db(e)
    }
}

impl FromSpecImpl<EngineError> for Error {
    open spec fn obeys_from_spec() -> bool {
        true
    }

    open spec fn from_spec(e: EngineError) -> Error {
        Error::Db(e)
    }
}

impl From<bincode::error::EncodeError> for Error {
    fn from(e: bincode::error::EncodeError) -> (error: Error) {
        Error::Encoding(e)
    }
}

impl FromSpecImpl<bincode::error::EncodeError> for Error {
    open spec fn obeys_from_spec() -> bool {
        true
    }

    open spec fn from_spec(e: bincode::error::EncodeError) -> Error {
        Error::Encoding(e)
    }
}

/// The shapes that a value can present at its top level.
#[derive(Clone, Copy, Debug, PartialEq, Eq, Structural)]
pub enum Shape {
    Bool,
    Integer,
    Float,
    Char,
    Str,
    Bytes,
    Option,
    Unit,
    UnitStruct,
    UnitVariant,
    NewtypeStruct,
    NewtypeVariant,
    Sequence,
    Tuple,
    TupleStruct,
    TupleVariant,
    Mapping,
    Struct,
    StructVariant,
    Enum,
    Identifier,
    Any,
    IgnoredAny,
}

impl Shape {
    /// A record without fields.
    pub open spec fn empty(self) -> bool {
        self == Shape::Unit || self == Shape::UnitStruct
    }

    /// A record is a struct or empty. Nothing else maps onto a table.
    pub open spec fn record(self) -> bool {
        self == Shape::Struct || self.empty()
    }

    /// Whether a value of this shape is a record without fields.
    pub fn is_empty(&self) -> (b: bool)
        ensures
            b == self.empty(),
    {
        match self {
            Shape::Unit => true,
            Shape::UnitStruct => true,
            _ => false,
        }
    }

    /// Whether a value of this shape is a record.
    pub fn is_record(&self) -> (b: bool)
        ensures
            b == self.record(),
    {
        match self {
            Shape::Struct => true,
            Shape::Unit => true,
            Shape::UnitStruct => true,
            _ => false,
        }
    }
}

/// The key under which a field is kept: the bytes of its name.
pub open spec fn key_of(name: Seq<char>) -> Seq<u8> {
    encode_utf8(name)
}

/// The write that stores `value` as the field `name` of `table`.
pub open spec fn field_write(table: Seq<char>, name: Seq<char>, value: Seq<u8>) -> RequestView {
    RequestView::Put { table, key: key_of(name), value }
}

/// The read that fetches the field `name` of `table`.
pub open spec fn field_read(table: Seq<char>, name: Seq<char>) -> RequestView {
    RequestView::Get { table, key: key_of(name) }
}

/// The bytes that a field is decoded from: the stored value, or the encoding
/// of "no value" where the key is absent.
pub open spec fn bytes_to_decode(stored: Option<Seq<u8>>) -> Seq<u8> {
    match stored {
        Some(bytes) => bytes,
        None => absent_encoding(),
    }
}

/// How the engine's answer to a point read looks to specifications.
pub open spec fn lookup_view(lookup: Lookup) -> Result<Option<Seq<u8>>, EngineError> {
    match lookup {
        Ok(Some(bytes)) => Ok(Some(bytes@)),
        Ok(None) => Ok(None),
        Err(e) => Err(e),
    }
}

/// Whether the engine answered with a stored value or its absence, and
/// `bytes` are what the field is then decoded from.
pub open spec fn decoded_from(lookup: Lookup, bytes: Seq<u8>) -> bool {
    lookup_view(lookup) matches Ok(stored) && bytes == bytes_to_decode(stored)
}

/// One field of a record as it is stored: its name, and its value as the
/// encoder gave it.
#[derive(Clone, Debug, PartialEq, Eq)]
pub struct Field {
    pub name: String,
    pub value: Vec<u8>,
}

impl View for Field {
    type V = (Seq<char>, Seq<u8>);

    open spec fn view(&self) -> (Seq<char>, Seq<u8>) {
        (self.name@, self.value@)
    }
}

/// How a list of requests looks to specifications.
pub open spec fn requests_view(requests: Seq<Request>) -> Seq<RequestView> {
    Seq::new(requests.len(), |i: int| requests[i]@)
}

/// The writes of a record with the given fields, in the order of the fields.
pub open spec fn record_writes(table: Seq<char>, fields: Seq<(Seq<char>, Seq<u8>)>) -> Seq<
    RequestView,
> {
    Seq::new(fields.len(), |i: int| field_write(table, fields[i].0, fields[i].1))
}

/// The reads of a record with the given field names, in the order of the
/// names.
pub open spec fn record_reads(table: Seq<char>, names: Seq<Seq<char>>) -> Seq<RequestView> {
    Seq::new(names.len(), |i: int| field_read(table, names[i]))
}

/// Which request of a list is performed next, after `done` of them have been
/// performed and the last of them ended as `outcome` says. A failure of the
/// engine ends the list and is passed on: no request behind it is performed,
/// and a transaction that was being written is dropped without its commit.
/// Else the next request follows, and nothing once all are done.
pub fn next_request(requests: &Vec<Request>, done: usize, outcome: Result<(), EngineError>) -> (next:
    Result<Option<usize>, Error>)
    ensures
        next == match outcome {
            Err(e) => Err::<Option<usize>, Error>(Error::Db(e)),
            Ok(()) => Ok(
                if done < requests.len() {
                    Some(done)
                } else {
                    None
                },
            ),
        },
{
    match outcome {
        Err(e) => Err(Error::from(e)),
        Ok(()) => if done < requests.len() {
            Ok(Some(done))
        } else {
            Ok(None)
        },
    }
}

/// Maps a record onto one table. `W` says whether the mapper may write; a
/// mapper that may holds the transaction that its writes go into.
pub struct TableMapper<const W: bool> {
    cf: String,
    tx: Option<Transaction>,
}

impl<const W: bool> TableMapper<W> {
    /// The table that the record is mapped onto.
    pub closed spec fn table(&self) -> Seq<char> {
        self.cf@
    }

    /// Whether the mapper holds a transaction.
    pub closed spec fn active(&self) -> bool {
        self.tx is Some
    }

    /// The writes asked through this mapper and not yet committed.
    pub closed spec fn pending(&self) -> Seq<RequestView> {
        match self.tx {
            Some(tx) => tx.writes(),
            None => Seq::empty(),
        }
    }

    /// A mapper onto the table `cf` of `db`. Where `W` holds it starts a
    /// transaction, which a read-only `db` cannot give.
    pub fn new(db: &Db, cf: &str) -> (mapper: Self)
        ensures
            mapper.table() == cf@,
            mapper.active() == (W && db.mode().writable()),
            mapper.pending() == Seq::<RequestView>::empty(),
    {
        let tx = if W {
            db.transaction()
        } else {
            None
        };
        TableMapper { cf: cf.to_owned(), tx }
    }

    /// Whether the mapper holds a transaction.
    pub fn is_active(&self) -> (b: bool)
        ensures
            b == self.active(),
    {
        self.tx.is_some()
    }

    /// Starts to read a struct with the given fields: they are read in the
    /// order given.
    pub fn deserialize_struct(&self, _name: &str, fields: &[&str]) -> (access: TableMapperAccess)
        ensures
            access.table() == self.table(),
            access.remaining() == fields@.map_values(|field: &str| field@),
    {
        let mut names: Vec<String> = Vec::new();
        let mut i: usize = 0;
        while i < fields.len()
            invariant
                i <= fields.len(),
                names.len() == i,
                forall|j: int| 0 <= j < i ==> names[j]@ == fields[j]@,
            decreases fields.len() - i,
        {
            names.push(fields[i].to_owned());
            i += 1;
        }
        let access = TableMapperAccess { cf: self.cf.clone(), fields: names, position: 0 };
        assert(access.remaining() =~= fields@.map_values(|field: &str| field@));
        access
    }

    /// An empty record is read without a look at the table.
    pub fn deserialize_unit(&self) -> (read: Result<(), Error>)
        ensures
            read == Ok::<(), Error>(()),
    {
        Ok(())
    }

    /// An empty record is read without a look at the table.
    pub fn deserialize_unit_struct(&self, _name: &str) -> (read: Result<(), Error>)
        ensures
            read == Ok::<(), Error>(()),
    {
        Ok(())
    }

    /// Starts to read a value of the given shape. A struct gives the access
    /// to its fields; an empty record is read at once; every other shape is
    /// refused.
    pub fn deserialize(&self, shape: Shape, fields: &[&str]) -> (read: Result<
        Option<TableMapperAccess>,
        Error,
    >)
        ensures
            shape == Shape::Struct ==> (read matches Ok(Some(access)) && access.table()
                == self.table() && access.remaining() == fields@.map_values(|field: &str| field@)),
            shape.empty() ==> read matches Ok(None),
            !shape.record() ==> read matches Err(Error::Unsupported),
    {
        match shape {
            Shape::Struct => Ok(Some(self.deserialize_struct("", fields))),
            Shape::Unit => Ok(None),
            Shape::UnitStruct => Ok(None),
            _ => Err(Error::Unsupported),
        }
    }
}

impl<const W: bool> TableMapper<W> {
    /// Asks for the reads of a whole record: one read for each field of a
    /// struct, in the order of the fields, and none for an empty record.
    /// Every other shape is refused. The reads are performed in their order,
    /// as `next_request` says.
    pub fn read_record(&self, shape: Shape, fields: &[&str]) -> (asked: Result<Vec<Request>, Error>)
        ensures
            shape == Shape::Struct ==> (asked matches Ok(requests) && requests_view(requests@)
                == record_reads(self.table(), fields@.map_values(|field: &str| field@))),
            shape.empty() ==> (asked matches Ok(requests) && requests@.len() == 0),
            !shape.record() ==> asked matches Err(Error::Unsupported),
    {
        let mut access = match self.deserialize(shape, fields) {
            Ok(Some(access)) => access,
            Ok(None) => {
                return Ok(Vec::new());
            },
            Err(e) => {
                return Err(e);
            },
        };
        let ghost names = fields@.map_values(|field: &str| field@);
        let mut requests: Vec<Request> = Vec::new();
        loop
            invariant
                access.table() == self.table(),
                requests.len() <= names.len(),
                access.remaining() == names.skip(requests.len() as int),
                requests_view(requests@) == record_reads(self.table(), names).take(
                    requests.len() as int,
                ),
            ensures
                requests_view(requests@) == record_reads(self.table(), names),
            decreases names.len() - requests.len(),
        {
            let ghost done = requests.len() as int;
            match access.next_value_request() {
                Some(request) => {
                    requests.push(request);
                    assert(names.skip(done).skip(1) =~= names.skip(done + 1));
                    assert(requests_view(requests@) =~= record_reads(self.table(), names).take(
                        done + 1,
                    ));
                },
                None => {
                    assert(record_reads(self.table(), names).take(done) =~= record_reads(
                        self.table(),
                        names,
                    ));
                    break ;
                },
            }
        }
        Ok(requests)
    }
}

impl TableMapper<true> {
    /// Asks for the write of a whole record whose field values have been
    /// through the encoder: one put for each field of a struct, in the order
    /// of the fields, and the commit behind them. An empty record asks for
    /// nothing. Every other shape is refused, and so is every record where
    /// the mapper holds no transaction, before anything is asked. The
    /// requests are performed in their order, as `next_request` says.
    pub fn write_record(self, shape: Shape, fields: &Vec<Field>) -> (asked: Result<
        Vec<Request>,
        Error,
    >)
        ensures
            shape == Shape::Struct && self.active() ==> (asked matches Ok(requests)
                && requests_view(requests@) == record_writes(
                self.table(),
                fields@.map_values(|field: Field| field@),
            ).push(RequestView::Commit)),
            shape.empty() && self.active() ==> (asked matches Ok(requests) && requests@.len()
                == 0),
            shape.record() && !self.active() ==> asked matches Err(Error::InvalidTransaction),
            !shape.record() ==> asked matches Err(Error::Unsupported),
    {
        let ghost table = self.table();
        let ghost active = self.active();
        let ghost writes = record_writes(table, fields@.map_values(|field: Field| field@));
        let mut mapper = match self.serialize(shape) {
            Ok(Some(mapper)) => mapper,
            Ok(None) => {
                return Ok(Vec::new());
            },
            Err(e) => {
                return Err(e);
            },
        };
        let mut requests: Vec<Request> = Vec::new();
        let mut i: usize = 0;
        while i < fields.len()
            invariant
                i <= fields.len(),
                requests.len() == i,
                shape == Shape::Struct,
                table == self.table(),
                active == self.active(),
                mapper.table() == table,
                mapper.active() == active,
                i > 0 ==> active,
                writes == record_writes(table, fields@.map_values(|field: Field| field@)),
                requests_view(requests@) == writes.take(i as int),
            decreases fields.len() - i,
        {
            let encoded = Ok(slice_to_vec(fields[i].value.as_slice()));
            match mapper.put_field(fields[i].name.as_str(), encoded) {
                Ok(request) => {
                    requests.push(request);
                },
                Err(e) => {
                    return Err(e);
                },
            }
            i += 1;
            assert(requests_view(requests@) =~= writes.take(i as int));
        }
        match mapper.end() {
            Ok(commit) => {
                requests.push(commit);
            },
            Err(e) => {
                return Err(e);
            },
        }
        assert(writes.take(fields.len() as int) =~= writes);
        assert(requests_view(requests@) =~= writes.push(RequestView::Commit));
        Ok(requests)
    }

    /// Starts to write a struct: its fields follow, one call of
    /// `serialize_field` each, and `end` commits them. A mapper without a
    /// transaction cannot write and refuses at once.
    pub fn serialize_struct(self, _name: &str, _len: usize) -> (started: Result<Self, Error>)
        ensures
            self.active() ==> started == Ok::<Self, Error>(self),
            !self.active() ==> started matches Err(Error::InvalidTransaction),
    {
        if self.tx.is_some() {
            Ok(self)
        } else {
            Err(Error::InvalidTransaction)
        }
    }

    /// An empty record has nothing to write: the transaction is dropped
    /// unused. A mapper without a transaction cannot write and refuses.
    pub fn serialize_unit(self) -> (written: Result<(), Error>)
        ensures
            self.active() ==> written == Ok::<(), Error>(()),
            !self.active() ==> written matches Err(Error::InvalidTransaction),
    {
        if self.tx.is_some() {
            Ok(())
        } else {
            Err(Error::InvalidTransaction)
        }
    }

    /// An empty record has nothing to write: the transaction is dropped
    /// unused. A mapper without a transaction cannot write and refuses.
    pub fn serialize_unit_struct(self, _name: &str) -> (written: Result<(), Error>)
        ensures
            self.active() ==> written == Ok::<(), Error>(()),
            !self.active() ==> written matches Err(Error::InvalidTransaction),
    {
        self.serialize_unit()
    }

    /// Starts to write a value of the given shape. A shape that is no record
    /// is refused; so is every record where the mapper holds no transaction.
    /// Else a struct gives the mapper back, ready for its fields, and an
    /// empty record is done at once. Nothing is written before.
    pub fn serialize(self, shape: Shape) -> (started: Result<Option<Self>, Error>)
        ensures
            shape == Shape::Struct && self.active() ==> started == Ok::<Option<Self>, Error>(
                Some(self),
            ),
            shape.empty() && self.active() ==> started matches Ok(None),
            shape.record() && !self.active() ==> started matches Err(Error::InvalidTransaction),
            !shape.record() ==> started matches Err(Error::Unsupported),
    {
        match shape {
            Shape::Struct => match self.serialize_struct("", 0) {
                Ok(mapper) => Ok(Some(mapper)),
                Err(e) => Err(e),
            },
            Shape::Unit => match self.serialize_unit() {
                Ok(()) => Ok(None),
                Err(e) => Err(e),
            },
            Shape::UnitStruct => match self.serialize_unit_struct("") {
                Ok(()) => Ok(None),
                Err(e) => Err(e),
            },
            _ => Err(Error::Unsupported),
        }
    }

    /// Asks for the write of one field whose value has been through the
    /// encoder. A failure of the encoder is passed on; without a transaction
    /// the write is refused; else the field is put under its name, within
    /// the transaction. On an error the mapper is as it was.
    pub fn put_field(
        &mut self,
        key: &str,
        encoded: Result<Vec<u8>, bincode::error::EncodeError>,
    ) -> (asked: Result<Request, Error>)
        ensures
            final(self).table() == old(self).table(),
            final(self).active() == old(self).active(),
            match encoded {
                Err(e) => asked == Err::<Request, Error>(Error::Encoding(e)) && final(self).pending()
                    == old(self).pending(),
                Ok(bytes) => if old(self).active() {
                    asked matches Ok(request) && request@ == field_write(
                        old(self).table(),
                        key@,
                        bytes@,
                    ) && final(self).pending() == old(self).pending().push(request@)
                } else {
                    asked matches Err(Error::InvalidTransaction) && final(self).pending() == old(
                        self,
                    ).pending()
                },
            },
    {
        let value_bytes = match encoded {
            Ok(bytes) => bytes,
            Err(e) => {
                return Err(Error::from(e));
            },
        };
        match &mut self.tx {
            None => Err(Error::InvalidTransaction),
            Some(tx) => Ok(tx.put(self.cf.as_str(), key.as_bytes(), value_bytes.as_slice())),
        }
    }

    /// Encodes one field and asks for its write. The encoder decides whether
    /// the value can be encoded and into which bytes; everything else is as
    /// in `put_field`.
    pub fn serialize_field<T: ?Sized + serde::Serialize>(&mut self, key: &str, value: &T) -> (asked:
        Result<Request, Error>)
        ensures
            final(self).table() == old(self).table(),
            final(self).active() == old(self).active(),
            match asked {
                Ok(request) => old(self).active() && final(self).pending() == old(
                    self,
                ).pending().push(request@) && exists|bytes: Seq<u8>|
                    request@ == #[trigger] field_write(old(self).table(), key@, bytes),
                Err(e) => final(self).pending() == old(self).pending() && (e is Encoding || (e is InvalidTransaction
                    && !old(self).active())),
            },
    {
        let encoded = encode_value(value);
        let ghost outcome = encoded;
        let asked = self.put_field(key, encoded);
        proof {
            if let Ok(bytes) = outcome {
                if old(self).active() {
                    assert(asked.unwrap()@ == field_write(old(self).table(), key@, bytes@));
                }
            }
        }
        asked
    }

    /// Ends the record: asks for the commit of everything written through
    /// this mapper. Only a mapper that holds a transaction can do so.
    pub fn end(self) -> (asked: Result<Request, Error>)
        ensures
            self.active() ==> (asked matches Ok(request) && request@ == RequestView::Commit),
            !self.active() ==> asked matches Err(Error::InvalidTransaction),
    {
        match self.tx {
            None => Err(Error::InvalidTransaction),
            Some(tx) => Ok(tx.commit()),
        }
    }
}

/// The fields of a struct that are still to be read, first to last.
pub struct TableMapperAccess {
    cf: String,
    fields: Vec<String>,
    position: usize,
}

impl TableMapperAccess {
    /// The table that the fields are read from.
    pub closed spec fn table(&self) -> Seq<char> {
        self.cf@
    }

    /// The names of the fields not yet read, in the order of reading.
    pub closed spec fn remaining(&self) -> Seq<Seq<char>> {
        if self.position <= self.fields.len() {
            Seq::new(
                (self.fields.len() - self.position) as nat,
                |i: int| self.fields[self.position + i]@,
            )
        } else {
            Seq::empty()
        }
    }

    /// The name of the field that is read next, if one is left.
    pub fn next_key(&self) -> (key: Option<String>)
        ensures
            key is Some <==> self.remaining().len() > 0,
            key matches Some(name) ==> name@ == self.remaining()[0],
    {
        if self.position < self.fields.len() {
            Some(self.fields[self.position].clone())
        } else {
            None
        }
    }

    /// Moves on to the next field and asks for the read of its key. With no
    /// field left nothing is asked and nothing changes.
    pub fn next_value_request(&mut self) -> (asked: Option<Request>)
        ensures
            final(self).table() == old(self).table(),
            old(self).remaining().len() == 0 ==> asked is None && final(self).remaining() == old(
                self,
            ).remaining(),
            old(self).remaining().len() > 0 ==> (asked matches Some(request) && request@
                == field_read(old(self).table(), old(self).remaining()[0]) && final(self).remaining()
                == old(self).remaining().skip(1)),
    {
        if self.position < self.fields.len() {
            let key = slice_to_vec(self.fields[self.position].as_str().as_bytes());
            let request = Request::Get { table: self.cf.clone(), key };
            self.position += 1;
            assert(final(self).remaining() =~= old(self).remaining().skip(1));
            Some(request)
        } else {
            assert(final(self).remaining() =~= old(self).remaining());
            None
        }
    }

    /// The bytes that the field is decoded from, given the engine's answer:
    /// the stored value; for an absent key the encoding of "no value"; and
    /// the engine's failure passed on.
    pub fn value_bytes(lookup: Lookup) -> (bytes: Result<Vec<u8>, Error>)
        ensures
            match lookup_view(lookup) {
                Ok(stored) => bytes matches Ok(b) && b@ == bytes_to_decode(stored),
                Err(e) => bytes == Err::<Vec<u8>, Error>(Error::Db(e)),
            },
    {
        match lookup {
            Ok(Some(bytes)) => Ok(bytes),
            Ok(None) => Ok(absent_bytes()),
            Err(e) => Err(Error::from(e)),
        }
    }

    /// The bytes that each field of a record is decoded from, given the
    /// engine's answers to the reads of the record, in their order. The first
    /// failure among the answers is passed on.
    pub fn record_bytes(lookups: Vec<Lookup>) -> (bytes: Result<Vec<Vec<u8>>, Error>)
        ensures
            match bytes {
                Ok(values) => values.len() == lookups.len() && forall|i: int|
                    0 <= i < values.len() ==> #[trigger] decoded_from(lookups[i], values[i]@),
                Err(error) => error matches Error::Db(e) && exists|i: int|
                    0 <= i < lookups.len() && #[trigger] lookups[i] == Err::<
                        Option<Vec<u8>>,
                        EngineError,
                    >(e) && forall|j: int| 0 <= j < i ==> lookups[j] is Ok,
            },
    {
        let ghost all = lookups@;
        let mut values: Vec<Vec<u8>> = Vec::new();
        for lookup in it: lookups
            invariant
                all == lookups@,
                it.seq() == all,
                values.len() == it.index(),
                forall|i: int|
                    0 <= i < values.len() ==> #[trigger] decoded_from(all[i], values[i]@),
        {
            match Self::value_bytes(lookup) {
                Ok(value) => {
                    values.push(value);
                },
                Err(error) => {
                    assert(all[it.index()] == Err::<Option<Vec<u8>>, EngineError>(error->Db_0));
                    assert forall|j: int| 0 <= j < it.index() implies all[j] is Ok by {
                        assert(decoded_from(all[j], values[j]@));
                    }
                    return Err(error);
                },
            }
        }
        Ok(values)
    }

    /// Passes on what the decoder made of a field.
    pub fn decoded<T>(outcome: Result<T, bincode::error::DecodeError>) -> (value: Result<T, Error>)
        ensures
            value == match outcome {
                Ok(v) => Ok::<T, Error>(v),
                Err(e) => Err(Error::Decoding(e)),
            },
    {
        match outcome {
            Ok(v) => Ok(v),
            Err(e) => Err(Error::Decoding(e)),
        }
    }

    /// Decodes a field from the engine's answer to the read of its key. The
    /// decoder decides whether the bytes of `value_bytes` hold a value of the
    /// field's type; a failure of the engine is passed on at once.
    pub fn next_value<T: serde::de::DeserializeOwned>(lookup: Lookup) -> (value: Result<
        T,
        Error,
    >)
        ensures
            match value {
                Ok(_) => lookup is Ok,
                Err(error) => match lookup {
                    Ok(_) => error is Decoding,
                    Err(e) => error == Error::Db(e),
                },
            },
    {
        match Self::value_bytes(lookup) {
            Ok(bytes) => Self::decoded(decode_value(bytes.as_slice())),
            Err(error) => Err(error),
        }
    }
}

} // verus!

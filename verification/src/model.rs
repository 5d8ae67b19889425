//! The engine's tables as a mathematical map, and the laws of records that
//! follow from it.
//!
//! Nothing here runs. [`Store`] says what a well-behaved engine holds after
//! the requests of this layer have been performed, and the laws say what a
//! reader then finds. They are stated over the same functions as the
//! contracts of the mapper: `field_write` for what a field's write asks,
//! `key_of` for the key that a field's read asks, and `bytes_to_decode` for
//! the bytes that the read hands to the decoder.

use crate::codec::absent_encoding;
use crate::mapper::{
    bytes_to_decode, decoded_from, field_write, key_of, lookup_view, record_reads, record_writes,
};
use crate::wrapper::{Lookup, RequestView};
use vstd::prelude::*;
use vstd::utf8::encode_utf8_decode_utf8;

verus! {

/// The contents of an engine: for each table the values by their keys, and
/// the operator by which a merge combines the stored value with its operand.
pub ghost struct Store {
    pub tables: Map<Seq<char>, Map<Seq<u8>, Seq<u8>>>,
    pub merge: spec_fn(Option<Seq<u8>>, Seq<u8>) -> Seq<u8>,
}

impl Store {
    /// The contents of one table. A table that was never written is empty.
    pub open spec fn table(self, name: Seq<char>) -> Map<Seq<u8>, Seq<u8>> {
        if self.tables.dom().contains(name) {
            self.tables[name]
        } else {
            Map::empty()
        }
    }

    /// What a point read finds.
    pub open spec fn lookup(self, table: Seq<char>, key: Seq<u8>) -> Option<Seq<u8>> {
        if self.table(table).dom().contains(key) {
            Some(self.table(table)[key])
        } else {
            None
        }
    }

    /// The store with one value replaced.
    pub open spec fn with(self, table: Seq<char>, key: Seq<u8>, value: Seq<u8>) -> Store {
        Store { tables: self.tables.insert(table, self.table(table).insert(key, value)), ..self }
    }

    /// The store after one request. Only a put and a merge change it.
    pub open spec fn apply(self, request: RequestView) -> Store {
        match request {
            RequestView::Put { table, key, value } => self.with(table, key, value),
            RequestView::Merge { table, key, value } => self.with(
                table,
                key,
                (self.merge)(self.lookup(table, key), value),
            ),
            _ => self,
        }
    }

    /// The store after the given requests, performed in their order. This is
    /// what a committed transaction leaves of its writes; one that is dropped
    /// leaves the store as it was.
    pub open spec fn after(self, requests: Seq<RequestView>) -> Store
        decreases requests.len(),
    {
        if requests.len() == 0 {
            self
        } else {
            self.after(requests.drop_last()).apply(requests.last())
        }
    }

    /// What a reader of the fields `names` of `table` hands to the decoder,
    /// field by field.
    pub open spec fn read(self, table: Seq<char>, names: Seq<Seq<char>>) -> Seq<Seq<u8>> {
        Seq::new(names.len(), |i: int| bytes_to_decode(self.lookup(table, key_of(names[i]))))
    }
}

/// The names of the fields of a record.
pub open spec fn names_of(fields: Seq<(Seq<char>, Seq<u8>)>) -> Seq<Seq<char>> {
    Seq::new(fields.len(), |i: int| fields[i].0)
}

/// The encoded values of the fields of a record.
pub open spec fn values_of(fields: Seq<(Seq<char>, Seq<u8>)>) -> Seq<Seq<u8>> {
    Seq::new(fields.len(), |i: int| fields[i].1)
}

/// Fields of different names are kept under different keys.
pub proof fn lemma_key_of_injective(a: Seq<char>, b: Seq<char>)
    requires
        key_of(a) == key_of(b),
    ensures
        a == b,
{
    encode_utf8_decode_utf8(a);
    encode_utf8_decode_utf8(b);
}

proof fn lemma_record_writes_step(table: Seq<char>, fields: Seq<(Seq<char>, Seq<u8>)>)
    requires
        fields.len() > 0,
    ensures
        record_writes(table, fields).drop_last() == record_writes(table, fields.drop_last()),
        record_writes(table, fields).last() == field_write(
            table,
            fields.last().0,
            fields.last().1,
        ),
{
    assert(record_writes(table, fields).drop_last() =~= record_writes(table, fields.drop_last()));
}

/// A committed record leaves alone every other table, and every key of its
/// own table that is the key of none of its fields.
pub proof fn lemma_commit_leaves_others(
    store: Store,
    table: Seq<char>,
    fields: Seq<(Seq<char>, Seq<u8>)>,
    other: Seq<char>,
    key: Seq<u8>,
)
    requires
        other != table || forall|i: int| 0 <= i < fields.len() ==> key_of(fields[i].0) != key,
    ensures
        store.after(record_writes(table, fields)).lookup(other, key) == store.lookup(other, key),
    decreases fields.len(),
{
    if fields.len() > 0 {
        lemma_record_writes_step(table, fields);
        lemma_commit_leaves_others(store, table, fields.drop_last(), other, key);
        assert(key_of(fields[fields.len() - 1].0) != key || other != table);
    }
}

/// A committed record holds each of its fields under the field's key,
/// provided that no two fields share a name.
pub proof fn lemma_commit_holds_field(
    store: Store,
    table: Seq<char>,
    fields: Seq<(Seq<char>, Seq<u8>)>,
    i: int,
)
    requires
        names_of(fields).no_duplicates(),
        0 <= i < fields.len(),
    ensures
        store.after(record_writes(table, fields)).lookup(table, key_of(fields[i].0)) == Some(
            fields[i].1,
        ),
    decreases fields.len(),
{
    lemma_record_writes_step(table, fields);
    let last = fields.len() - 1;
    if i < last {
        let before = fields.drop_last();
        assert(names_of(before) =~= names_of(fields).drop_last());
        assert forall|a: int, b: int|
            0 <= a < before.len() && 0 <= b < before.len() && a != b implies names_of(before)[a]
            != names_of(before)[b] by {
            assert(names_of(fields)[a] != names_of(fields)[b]);
        }
        lemma_commit_holds_field(store, table, before, i);
        assert(names_of(fields)[i] != names_of(fields)[last]);
        if key_of(fields[i].0) == key_of(fields[last].0) {
            lemma_key_of_injective(fields[i].0, fields[last].0);
        }
    }
}

/// A record that has been written is read back as it was written: once its
/// transaction is committed, a reader of its fields hands to the decoder,
/// field by field, the very bytes that the encoder gave. It holds of every
/// record whose fields have names of their own, whatever the store held
/// before.
pub proof fn law_round_trip(store: Store, table: Seq<char>, fields: Seq<(Seq<char>, Seq<u8>)>)
    requires
        names_of(fields).no_duplicates(),
    ensures
        store.after(record_writes(table, fields)).read(table, names_of(fields)) == values_of(
            fields,
        ),
{
    let after = store.after(record_writes(table, fields));
    assert forall|i: int| 0 <= i < fields.len() implies after.read(table, names_of(fields))[i]
        == values_of(fields)[i] by {
        lemma_commit_holds_field(store, table, fields, i);
    }
    assert(after.read(table, names_of(fields)) =~= values_of(fields));
}

/// Values survive the way through the store. Whatever the codec, provided
/// that it decodes what it has encoded: a record whose field values were
/// encoded and written is read back, once its transaction is committed, with
/// every field decoding to the value that was written.
pub proof fn law_round_trip_of_values<V>(
    store: Store,
    table: Seq<char>,
    names: Seq<Seq<char>>,
    values: Seq<V>,
    encode: spec_fn(V) -> Seq<u8>,
    decode: spec_fn(Seq<u8>) -> Option<V>,
)
    requires
        names.len() == values.len(),
        names.no_duplicates(),
        forall|value: V| decode(#[trigger] encode(value)) == Some(value),
    ensures
        ({
            let fields = Seq::new(names.len(), |i: int| (names[i], encode(values[i])));
            let read = store.after(record_writes(table, fields)).read(table, names);
            &&& read.len() == values.len()
            &&& forall|i: int| 0 <= i < values.len() ==> decode(#[trigger] read[i]) == Some(values[i])
        }),
{
    let fields = Seq::new(names.len(), |i: int| (names[i], encode(values[i])));
    assert(names_of(fields) =~= names);
    law_round_trip(store, table, fields);
    let read = store.after(record_writes(table, fields)).read(table, names);
    assert forall|i: int| 0 <= i < values.len() implies decode(#[trigger] read[i]) == Some(
        values[i],
    ) by {
        assert(read[i] == values_of(fields)[i]);
    }
}

/// A record that was never written is read without a failure of the reader:
/// every field of it is decoded from the encoding of "no value".
pub proof fn law_fresh_store_default(store: Store, table: Seq<char>, names: Seq<Seq<char>>)
    requires
        store.table(table) == Map::<Seq<u8>, Seq<u8>>::empty(),
    ensures
        store.read(table, names) == Seq::new(names.len(), |i: int| absent_encoding()),
{
    assert(store.read(table, names) =~= Seq::new(names.len(), |i: int| absent_encoding()));
}

/// The write of a record into one table changes nothing of what a reader
/// finds in another.
pub proof fn law_independent_tables(
    store: Store,
    written: Seq<char>,
    fields: Seq<(Seq<char>, Seq<u8>)>,
    other: Seq<char>,
    names: Seq<Seq<char>>,
)
    requires
        written != other,
    ensures
        store.after(record_writes(written, fields)).read(other, names) == store.read(other, names),
{
    let after = store.after(record_writes(written, fields));
    assert forall|i: int| 0 <= i < names.len() implies after.read(other, names)[i] == store.read(
        other,
        names,
    )[i] by {
        lemma_commit_leaves_others(store, written, fields, other, key_of(names[i]));
    }
    assert(after.read(other, names) =~= store.read(other, names));
}

/// After two records have been written into two tables, each in a
/// transaction of its own and with nothing written since, a reader finds both
/// as they were written.
pub proof fn law_reopen(
    store: Store,
    first_table: Seq<char>,
    first: Seq<(Seq<char>, Seq<u8>)>,
    second_table: Seq<char>,
    second: Seq<(Seq<char>, Seq<u8>)>,
)
    requires
        first_table != second_table,
        names_of(first).no_duplicates(),
        names_of(second).no_duplicates(),
    ensures
        ({
            let created = store.after(record_writes(first_table, first)).after(
                record_writes(second_table, second),
            );
            &&& created.read(first_table, names_of(first)) == values_of(first)
            &&& created.read(second_table, names_of(second)) == values_of(second)
        }),
{
    let half = store.after(record_writes(first_table, first));
    law_round_trip(store, first_table, first);
    law_independent_tables(half, second_table, second, first_table, names_of(first));
    law_round_trip(half, second_table, second);
}

/// A request that is neither a put nor a merge leaves the store as it was.
pub proof fn law_reads_change_nothing(store: Store, request: RequestView)
    requires
        !(request is Put),
        !(request is Merge),
    ensures
        store.apply(request) == store,
{
}

/// The commit behind the writes of a transaction writes nothing itself.
pub proof fn law_commit_writes_nothing(store: Store, writes: Seq<RequestView>)
    ensures
        store.after(writes.push(RequestView::Commit)) == store.after(writes),
{
    assert(writes.push(RequestView::Commit).drop_last() =~= writes);
}

/// The reads of a record leave the store as it was.
pub proof fn law_record_reads_change_nothing(
    store: Store,
    table: Seq<char>,
    names: Seq<Seq<char>>,
)
    ensures
        store.after(record_reads(table, names)) == store,
    decreases names.len(),
{
    if names.len() > 0 {
        assert(record_reads(table, names).drop_last() =~= record_reads(table, names.drop_last()));
        law_record_reads_change_nothing(store, table, names.drop_last());
    }
}

/// Where the engine answers each read of a record with what the store holds
/// under the field's key, the bytes that the reader hands to the decoder are
/// those of `Store::read`.
pub proof fn law_reader_follows_store(
    store: Store,
    table: Seq<char>,
    names: Seq<Seq<char>>,
    lookups: Seq<Lookup>,
    values: Seq<Seq<u8>>,
)
    requires
        lookups.len() == names.len(),
        values.len() == names.len(),
        forall|i: int|
            0 <= i < names.len() ==> lookup_view(#[trigger] lookups[i]) == Ok::<
                Option<Seq<u8>>,
                crate::wrapper::EngineError,
            >(store.lookup(table, key_of(names[i]))),
        forall|i: int| 0 <= i < names.len() ==> #[trigger] decoded_from(lookups[i], values[i]),
    ensures
        values == store.read(table, names),
{
    assert forall|i: int| 0 <= i < names.len() implies values[i] == store.read(table, names)[i] by {
        assert(decoded_from(lookups[i], values[i]));
    }
    assert(values =~= store.read(table, names));
}

} // verus!

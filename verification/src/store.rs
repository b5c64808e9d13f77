//! The durable correlation store: a transactional mapping from 32-byte
//! payment hashes to wallet payment-request strings, kept in two physically
//! separate namespaces (incoming and outgoing) that are never merged.

use vstd::prelude::*;

use crate::errors::PaymentError;

verus! {

#[verifier::external_type_specification]
#[verifier::external_body]
pub struct ExDatabase(redb::Database);

/// The contents of the incoming-correlation table of a database.
pub uninterp spec fn incoming_table(db: redb::Database) -> Map<Seq<u8>, Seq<char>>;

/// The contents of the outgoing-correlation table of a database.
pub uninterp spec fn outgoing_table(db: redb::Database) -> Map<Seq<u8>, Seq<char>>;

/// Relies on redb::Database::create (opens the file, or initializes a fresh
/// database in it) and on write transactions to ensure both correlation
/// tables exist before any lookup runs.
#[verifier::external_body]
fn db_open(path: &str) -> (r: Result<redb::Database, String>) {
    let db = redb::Database::create(path).map_err(|e| e.to_string())?;
    let txn = db.begin_write().map_err(|e| e.to_string())?;
    let mint: redb::TableDefinition<&[u8; 32], &str> = redb::TableDefinition::new("mint_quotes");
    let melt: redb::TableDefinition<&[u8; 32], &str> = redb::TableDefinition::new("melt_quotes");
    txn.open_table(mint).map_err(|e| e.to_string())?;
    txn.open_table(melt).map_err(|e| e.to_string())?;
    txn.commit().map_err(|e| e.to_string())?;
    Ok(db)
}

/// Relies on redb write transactions: Table::insert replaces the value of a
/// key already present, and commit applies the transaction atomically. A
/// failure before commit leaves the database unchanged; a failed commit is
/// still all-or-nothing but may have become durable, so on error the write
/// either fully happened or not at all. Only the incoming table is touched.
#[verifier::external_body]
fn db_put_incoming(db: &mut redb::Database, key: &[u8; 32], value: &str) -> (r: Result<
    (),
    String,
>)
    ensures
        r is Ok ==> incoming_table(*final(db)) == incoming_table(*old(db)).insert(key@, value@),
        r is Err ==> incoming_table(*final(db)) == incoming_table(*old(db)) || incoming_table(
            *final(db),
        ) == incoming_table(*old(db)).insert(key@, value@),
        outgoing_table(*final(db)) == outgoing_table(*old(db)),
{
    let txn = db.begin_write().map_err(|e| e.to_string())?;
    let def: redb::TableDefinition<&[u8; 32], &str> = redb::TableDefinition::new("mint_quotes");
    let mut table = txn.open_table(def).map_err(|e| e.to_string())?;
    table.insert(key, value).map_err(|e| e.to_string())?;
    drop(table);
    txn.commit().map_err(|e| e.to_string())
}

/// Relies on redb write transactions, as the incoming-table insert does.
/// Only the outgoing table is touched.
#[verifier::external_body]
fn db_put_outgoing(db: &mut redb::Database, key: &[u8; 32], value: &str) -> (r: Result<
    (),
    String,
>)
    ensures
        r is Ok ==> outgoing_table(*final(db)) == outgoing_table(*old(db)).insert(key@, value@),
        r is Err ==> outgoing_table(*final(db)) == outgoing_table(*old(db)) || outgoing_table(
            *final(db),
        ) == outgoing_table(*old(db)).insert(key@, value@),
        incoming_table(*final(db)) == incoming_table(*old(db)),
{
    let txn = db.begin_write().map_err(|e| e.to_string())?;
    let def: redb::TableDefinition<&[u8; 32], &str> = redb::TableDefinition::new("melt_quotes");
    let mut table = txn.open_table(def).map_err(|e| e.to_string())?;
    table.insert(key, value).map_err(|e| e.to_string())?;
    drop(table);
    txn.commit().map_err(|e| e.to_string())
}

/// Relies on redb read transactions: Table::get returns the latest committed
/// value for the key, or None when the key is absent.
#[verifier::external_body]
fn db_get_incoming(db: &redb::Database, key: &[u8; 32]) -> (r: Result<Option<String>, String>)
    ensures
        r matches Ok(opt) ==> {
            &&& opt is Some <==> incoming_table(*db).contains_key(key@)
            &&& opt matches Some(v) ==> v@ == incoming_table(*db)[key@]
        },
{
    let txn = redb::ReadableDatabase::begin_read(db).map_err(|e| e.to_string())?;
    let def: redb::TableDefinition<&[u8; 32], &str> = redb::TableDefinition::new("mint_quotes");
    let table = txn.open_table(def).map_err(|e| e.to_string())?;
    let found = table.get(key).map_err(|e| e.to_string())?;
    Ok(found.map(|v| v.value().to_string()))
}

/// Relies on redb read transactions, as the incoming-table lookup does.
#[verifier::external_body]
fn db_get_outgoing(db: &redb::Database, key: &[u8; 32]) -> (r: Result<Option<String>, String>)
    ensures
        r matches Ok(opt) ==> {
            &&& opt is Some <==> outgoing_table(*db).contains_key(key@)
            &&& opt matches Some(v) ==> v@ == outgoing_table(*db)[key@]
        },
{
    let txn = redb::ReadableDatabase::begin_read(db).map_err(|e| e.to_string())?;
    let def: redb::TableDefinition<&[u8; 32], &str> = redb::TableDefinition::new("melt_quotes");
    let table = txn.open_table(def).map_err(|e| e.to_string())?;
    let found = table.get(key).map_err(|e| e.to_string())?;
    Ok(found.map(|v| v.value().to_string()))
}

/// The abstract contents of a correlation store: one mapping per namespace.
pub struct QuoteStoreView {
    /// Incoming (mint) correlations.
    pub incoming: Map<Seq<u8>, Seq<char>>,
    /// Outgoing (melt) correlations.
    pub outgoing: Map<Seq<u8>, Seq<char>>,
}

/// The store after an incoming correlation is recorded: last write wins in
/// the incoming namespace, the outgoing namespace is untouched.
pub open spec fn record_incoming(
    v: QuoteStoreView,
    hash: Seq<u8>,
    request: Seq<char>,
) -> QuoteStoreView {
    QuoteStoreView { incoming: v.incoming.insert(hash, request), outgoing: v.outgoing }
}

/// The store after an outgoing correlation is recorded.
pub open spec fn record_outgoing(
    v: QuoteStoreView,
    hash: Seq<u8>,
    request: Seq<char>,
) -> QuoteStoreView {
    QuoteStoreView { incoming: v.incoming, outgoing: v.outgoing.insert(hash, request) }
}

/// The durable quote-correlation store.
pub struct QuoteDatabase {
    db: redb::Database,
}

impl View for QuoteDatabase {
    type V = QuoteStoreView;

    closed spec fn view(&self) -> QuoteStoreView {
        QuoteStoreView {
            incoming: incoming_table(self.db),
            outgoing: outgoing_table(self.db),
        }
    }
}

impl QuoteDatabase {
    /// Open the store at `path`, creating the database file and both
    /// namespace tables if they do not exist yet.
    pub fn new(path: &str) -> (r: Result<Self, PaymentError>)
        ensures
            r matches Err(e) ==> e is StoreFailure,
    {
        match db_open(path) {
            Ok(db) => Ok(QuoteDatabase { db }),
            Err(m) => Err(PaymentError::StoreFailure(m)),
        }
    }

    /// Record an incoming (mint) correlation: payment hash to request string.
    pub fn insert_mint_quote(&mut self, payment_hash: &[u8; 32], payment_request: &str) -> (r:
        Result<(), PaymentError>)
        ensures
            r is Ok ==> final(self)@ == record_incoming(old(self)@, payment_hash@, payment_request@),
            r matches Err(e) ==> e is StoreFailure && (final(self)@ == old(self)@
                || final(self)@ == record_incoming(old(self)@, payment_hash@, payment_request@)),
    {
        match db_put_incoming(&mut self.db, payment_hash, payment_request) {
            Ok(()) => Ok(()),
            Err(m) => Err(PaymentError::StoreFailure(m)),
        }
    }

    /// Record an outgoing (melt) correlation: payment hash to request string.
    pub fn insert_melt_quote(&mut self, payment_hash: &[u8; 32], payment_request: &str) -> (r:
        Result<(), PaymentError>)
        ensures
            r is Ok ==> final(self)@ == record_outgoing(old(self)@, payment_hash@, payment_request@),
            r matches Err(e) ==> e is StoreFailure && (final(self)@ == old(self)@
                || final(self)@ == record_outgoing(old(self)@, payment_hash@, payment_request@)),
    {
        match db_put_outgoing(&mut self.db, payment_hash, payment_request) {
            Ok(()) => Ok(()),
            Err(m) => Err(PaymentError::StoreFailure(m)),
        }
    }

    /// Look an incoming (mint) correlation up by payment hash.
    pub fn get_mint_quote(&self, payment_hash: &[u8; 32]) -> (r: Result<
        Option<String>,
        PaymentError,
    >)
        ensures
            r matches Ok(opt) ==> {
                &&& opt is Some <==> self@.incoming.contains_key(payment_hash@)
                &&& opt matches Some(s) ==> s@ == self@.incoming[payment_hash@]
            },
            r matches Err(e) ==> e is StoreFailure,
    {
        match db_get_incoming(&self.db, payment_hash) {
            Ok(opt) => Ok(opt),
            Err(m) => Err(PaymentError::StoreFailure(m)),
        }
    }

    /// Look an outgoing (melt) correlation up by payment hash.
    pub fn get_melt_quote(&self, payment_hash: &[u8; 32]) -> (r: Result<
        Option<String>,
        PaymentError,
    >)
        ensures
            r matches Ok(opt) ==> {
                &&& opt is Some <==> self@.outgoing.contains_key(payment_hash@)
                &&& opt matches Some(s) ==> s@ == self@.outgoing[payment_hash@]
            },
            r matches Err(e) ==> e is StoreFailure,
    {
        match db_get_outgoing(&self.db, payment_hash) {
            Ok(opt) => Ok(opt),
            Err(m) => Err(PaymentError::StoreFailure(m)),
        }
    }
}

/// Recording two different request strings for the same hash in the same
/// namespace leaves only the second one retrievable: last write wins, and
/// the store ends in the same state as if only the second write happened.
pub proof fn lemma_idempotent_overwrite(
    v: QuoteStoreView,
    hash: Seq<u8>,
    first: Seq<char>,
    second: Seq<char>,
)
    ensures
        record_incoming(record_incoming(v, hash, first), hash, second).incoming[hash] == second,
        record_incoming(record_incoming(v, hash, first), hash, second).incoming == record_incoming(
            v,
            hash,
            second,
        ).incoming,
        record_outgoing(record_outgoing(v, hash, first), hash, second).outgoing[hash] == second,
        record_outgoing(record_outgoing(v, hash, first), hash, second).outgoing == record_outgoing(
            v,
            hash,
            second,
        ).outgoing,
{
    assert(v.incoming.insert(hash, first).insert(hash, second) =~= v.incoming.insert(
        hash,
        second,
    ));
    assert(v.outgoing.insert(hash, first).insert(hash, second) =~= v.outgoing.insert(
        hash,
        second,
    ));
}

/// A hash recorded in one namespace is invisible to lookups in the other:
/// recording an incoming correlation leaves the outgoing namespace exactly
/// as it was, and vice versa.
pub proof fn lemma_namespace_isolation(v: QuoteStoreView, hash: Seq<u8>, request: Seq<char>)
    ensures
        record_incoming(v, hash, request).outgoing == v.outgoing,
        record_outgoing(v, hash, request).incoming == v.incoming,
        !v.outgoing.contains_key(hash) ==> !record_incoming(
            v,
            hash,
            request,
        ).outgoing.contains_key(hash),
        !v.incoming.contains_key(hash) ==> !record_outgoing(
            v,
            hash,
            request,
        ).incoming.contains_key(hash),
{
}

/// Once an incoming correlation is recorded, an incoming lookup of its hash
/// finds exactly the recorded request string.
pub proof fn lemma_incoming_round_trip(v: QuoteStoreView, hash: Seq<u8>, request: Seq<char>)
    ensures
        record_incoming(v, hash, request).incoming.contains_key(hash),
        record_incoming(v, hash, request).incoming[hash] == request,
{
}

} // verus!

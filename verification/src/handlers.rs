//! The read path and the write path of the service.
//!
//! A request is served in steps. Each step is one call of
//! [`get_order_by_uid`] or [`add_order`]: it takes the application state and
//! what has happened (a request came in, or the store answered, failed or ran
//! out of time) and returns what to do next (ask the store, or respond). The
//! caller does the asking, under its timeout, and comes back with the answer.
//! The cache is read and written inside the steps; the store is never touched
//! from here.
//!
//! The write path puts an order into the cache before the store is asked and
//! leaves it there whatever the store answers. An order that the store
//! refused, or did not confirm in time, can therefore be read from the cache;
//! see [`lemma_submitted_order_is_read_back`].

use vstd::prelude::*;
use vstd::string::StringExecFns;

use crate::cache::{
    holds, lemma_put_keeps_well_formed, lemma_touch_keeps_well_formed, lookup, put_entries, touch,
    well_formed, BoundedCache, Entries, MAX_CAPACITY,
};
use crate::db::{
    enforces_primary_key, is_unique_violation, keyed_by_identifier, lemma_insert_is_atomic, run,
    table_after_all, unique_violation, Rows, StoreError, Table, TxState,
};
use crate::models::{Order, OrderView};

verus! {

/// The column of the orders table that holds the document.
pub const DATA_KEY: &'static str = "data";

/// Status of a response: the order was stored.
pub const CREATED: u16 = 201;

/// Status of a response: the store holds no such order.
pub const NOT_FOUND: u16 = 404;

/// Status of a response: the store did not answer in time.
pub const REQUEST_TIMEOUT: u16 = 408;

/// Status of a response: the store holds an order under that identifier.
pub const CONFLICT: u16 = 409;

/// Status of a response: the store failed.
pub const INTERNAL_SERVER_ERROR: u16 = 500;

/// What the request handlers share: the cache of orders. The connection to
/// the store stays with the caller, which asks the store when a step says so.
pub struct AppState {
    cache: BoundedCache,
}

impl AppState {
    /// The cached orders with their identifiers, from the most recently used
    /// to the least recently used.
    pub closed spec fn entries(&self) -> Entries {
        self.cache.entries()
    }

    /// The number of orders that the cache holds at most.
    pub closed spec fn capacity(&self) -> nat {
        self.cache.capacity()
    }

    /// A state with an empty cache for at most `max_cache_size` orders.
    pub fn new(max_cache_size: usize) -> (state: AppState)
        requires
            0 < max_cache_size <= MAX_CAPACITY,
        ensures
            state.entries() == Entries::empty(),
            state.capacity() == max_cache_size,
            well_formed(state.entries(), state.capacity()),
    {
        AppState { cache: BoundedCache::new(max_cache_size) }
    }

    /// Caches `value` under `key` as the most recently used order. An order
    /// that stood under `key` is overwritten; failing that, a full cache
    /// gives up its least recently used order.
    pub fn insert(&mut self, key: &str, value: Order)
        ensures
            final(self).capacity() == old(self).capacity(),
            final(self).entries() == put_entries(
                old(self).entries(),
                old(self).capacity(),
                key@,
                value@,
            ),
            well_formed(final(self).entries(), final(self).capacity()),
    {
        proof {
            use_type_invariant(&self.cache);
            lemma_put_keeps_well_formed(self.entries(), self.capacity(), key@, value@);
        }
        let _ = self.cache.put(key.to_owned(), value);
    }

    /// A copy of the order cached under `key`, which becomes the most
    /// recently used one; `None`, and no change, where there is none.
    pub fn get(&mut self, key: &str) -> (found: Option<Order>)
        ensures
            final(self).capacity() == old(self).capacity(),
            final(self).entries() == touch(old(self).entries(), key@),
            match found {
                Some(order) => lookup(old(self).entries(), key@) == Some(order@),
                None => lookup(old(self).entries(), key@) is None,
            },
            well_formed(final(self).entries(), final(self).capacity()),
    {
        proof {
            use_type_invariant(&self.cache);
            lemma_touch_keeps_well_formed(self.entries(), self.capacity(), key@);
        }
        self.cache.get(key)
    }
}

/// The response to a request that did not yield an order: a status and a
/// message for the client.
#[derive(Debug)]
pub struct CustomResponse {
    pub message: String,
    pub code: u16,
}

impl View for CustomResponse {
    type V = (Seq<char>, u16);

    open spec fn view(&self) -> (Seq<char>, u16) {
        (self.message@, self.code)
    }
}

/// How a lookup in the store ended.
#[derive(Debug)]
pub enum LookupReply {
    /// The store holds a row for the identifier, and its document is this
    /// order.
    Found(Order),
    /// The store holds a row for the identifier, and its document is not an
    /// order.
    Malformed,
    /// The store holds no row for the identifier.
    Absent,
    /// The transaction failed.
    Failed(StoreError),
    /// The store did not answer within the time allowed.
    TimedOut,
}

/// How an insertion into the store ended.
#[derive(Debug)]
pub enum InsertReply {
    /// The row was committed; the number is that of the rows written.
    Inserted(u64),
    /// The transaction failed and was not committed.
    Failed(StoreError),
    /// The store did not answer within the time allowed. The row may or may
    /// not be there.
    TimedOut,
}

/// What the read path is told.
#[derive(Debug)]
pub enum ReadEvent {
    /// A client asks for the order with this identifier.
    Request(String),
    /// The lookup that the read path asked for has ended.
    Reply(LookupReply),
}

/// What the read path wants done.
#[derive(Debug)]
pub enum ReadAction {
    /// Look this identifier up in the store, within the time allowed, and
    /// come back with the reply.
    Lookup(String),
    /// Answer the client: with the order, or with a status and a message.
    Respond(Result<Option<Order>, CustomResponse>),
}

/// What the write path is told.
#[derive(Debug)]
pub enum WriteEvent {
    /// A client submits this order.
    Request(Order),
    /// The insertion that the write path asked for has ended.
    Reply(InsertReply),
}

/// What the write path wants done.
#[derive(Debug)]
pub enum WriteAction {
    /// Insert this order into the store, its document in the column
    /// [`DATA_KEY`], within the time allowed, and come back with the reply.
    Insert(Order),
    /// Answer the client with this status and message.
    Respond(CustomResponse),
}

/// The status and message of the read path for a lookup that gave no order;
/// `None` for one that gave an order.
pub open spec fn read_failure(reply: LookupReply) -> Option<(Seq<char>, u16)> {
    match reply {
        LookupReply::Found(_) => None,
        LookupReply::Absent => Some(("Not fount"@, NOT_FOUND)),
        LookupReply::Malformed => Some(("Server error"@, INTERNAL_SERVER_ERROR)),
        LookupReply::Failed(_) => Some(("Server error"@, INTERNAL_SERVER_ERROR)),
        LookupReply::TimedOut => Some(("Database operation timed out"@, REQUEST_TIMEOUT)),
    }
}

/// The status and message of the write path for each end of an insertion. A
/// failure is a conflict where it carries the code of a violated uniqueness
/// constraint, and a server error in every other case.
pub open spec fn write_response(reply: InsertReply) -> (Seq<char>, u16) {
    match reply {
        InsertReply::Inserted(_) => ("Order successfully created"@, CREATED),
        InsertReply::Failed(error) => if unique_violation(error) {
            ("Order already exists"@, CONFLICT)
        } else {
            ("Error"@, INTERNAL_SERVER_ERROR)
        },
        InsertReply::TimedOut => ("Database operation timed out"@, REQUEST_TIMEOUT),
    }
}

fn respond(message: &str, code: u16) -> (response: CustomResponse)
    ensures
        response@ == (message@, code),
{
    CustomResponse { message: String::from_str(message), code }
}

/// One step of the read path.
///
/// On a request, the cache is asked first. A hit is the response, and the
/// store is not asked; the order becomes the most recently used one. A miss
/// asks for a lookup of the same identifier and leaves the cache as it is.
///
/// On the reply to that lookup, an order that the store returned is cached
/// under its own identifier and is the response. Every other reply leaves
/// the cache as it is and becomes a status and a message: not found where
/// the store holds no such row, timeout where the store was too slow, server
/// error where the transaction failed or the document is not an order.
pub fn get_order_by_uid(state: &mut AppState, event: ReadEvent) -> (action: ReadAction)
    ensures
        final(state).capacity() == old(state).capacity(),
        well_formed(final(state).entries(), final(state).capacity()),
        match event {
            ReadEvent::Request(order_uid) => {
                &&& final(state).entries() == touch(old(state).entries(), order_uid@)
                &&& match lookup(old(state).entries(), order_uid@) {
                    Some(cached) => action matches ReadAction::Respond(Ok(Some(order)))
                        && order@ == cached,
                    None => action matches ReadAction::Lookup(wanted) && wanted@ == order_uid@,
                }
            },
            ReadEvent::Reply(LookupReply::Found(order)) => {
                &&& final(state).entries() == put_entries(
                    old(state).entries(),
                    old(state).capacity(),
                    order@.order_uid,
                    order@,
                )
                &&& action matches ReadAction::Respond(Ok(Some(found))) && found@ == order@
            },
            ReadEvent::Reply(reply) => {
                &&& final(state).entries() == old(state).entries()
                &&& action matches ReadAction::Respond(Err(response)) && Some(response@)
                    == read_failure(reply)
            },
        },
{
    proof {
        use_type_invariant(&state.cache);
    }
    match event {
        ReadEvent::Request(order_uid) => {
            match state.get(order_uid.as_str()) {
                Some(cached_order) => ReadAction::Respond(Ok(Some(cached_order))),
                None => ReadAction::Lookup(order_uid),
            }
        },
        ReadEvent::Reply(LookupReply::Found(order)) => {
            state.insert(order.order_uid.as_str(), order.clone());
            ReadAction::Respond(Ok(Some(order)))
        },
        ReadEvent::Reply(LookupReply::Absent) => ReadAction::Respond(
            Err(respond("Not fount", NOT_FOUND)),
        ),
        ReadEvent::Reply(LookupReply::Malformed) => ReadAction::Respond(
            Err(respond("Server error", INTERNAL_SERVER_ERROR)),
        ),
        ReadEvent::Reply(LookupReply::Failed(_)) => ReadAction::Respond(
            Err(respond("Server error", INTERNAL_SERVER_ERROR)),
        ),
        ReadEvent::Reply(LookupReply::TimedOut) => ReadAction::Respond(
            Err(respond("Database operation timed out", REQUEST_TIMEOUT)),
        ),
    }
}

/// One step of the write path.
///
/// On a request, the order is cached under its identifier at once, before
/// the store is asked, and the insertion of that order is asked for.
///
/// On the reply to that insertion, the cache stays as it is, whatever the
/// reply, and the reply becomes the response: created, conflict where the
/// store reports a violated uniqueness constraint, server error for every
/// other failure, timeout where the store was too slow.
pub fn add_order(state: &mut AppState, event: WriteEvent) -> (action: WriteAction)
    ensures
        final(state).capacity() == old(state).capacity(),
        well_formed(final(state).entries(), final(state).capacity()),
        match event {
            WriteEvent::Request(order) => {
                &&& final(state).entries() == put_entries(
                    old(state).entries(),
                    old(state).capacity(),
                    order@.order_uid,
                    order@,
                )
                &&& action matches WriteAction::Insert(submitted) && submitted@ == order@
            },
            WriteEvent::Reply(reply) => {
                &&& final(state).entries() == old(state).entries()
                &&& action matches WriteAction::Respond(response) && response@ == write_response(
                    reply,
                )
            },
        },
{
    proof {
        use_type_invariant(&state.cache);
    }
    match event {
        WriteEvent::Request(order) => {
            state.insert(order.order_uid.as_str(), order.clone());
            WriteAction::Insert(order)
        },
        WriteEvent::Reply(InsertReply::Inserted(_)) => WriteAction::Respond(
            respond("Order successfully created", CREATED),
        ),
        WriteEvent::Reply(InsertReply::Failed(error)) => {
            if is_unique_violation(&error) {
                WriteAction::Respond(respond("Order already exists", CONFLICT))
            } else {
                WriteAction::Respond(respond("Error", INTERNAL_SERVER_ERROR))
            }
        },
        WriteEvent::Reply(InsertReply::TimedOut) => WriteAction::Respond(
            respond("Database operation timed out", REQUEST_TIMEOUT),
        ),
    }
}

/// An order that was submitted is read back from the cache, whatever the
/// cache held before and whatever the store answers later: the request to
/// [`add_order`] puts it under its identifier, the reply leaves the cache as
/// it is, and a request to [`get_order_by_uid`] for that identifier then
/// finds it.
pub proof fn lemma_submitted_order_is_read_back(entries: Entries, capacity: nat, order: OrderView)
    requires
        well_formed(entries, capacity),
    ensures
        lookup(put_entries(entries, capacity, order.order_uid, order), order.order_uid) == Some(
            order,
        ),
{
    lemma_put_keeps_well_formed(entries, capacity, order.order_uid, order);
}

/// What a store that answers in time replies to a lookup of `order_uid` in
/// its table `rows`: the order of the row under that identifier, or that
/// there is no such row.
pub open spec fn answers_lookup(rows: Rows, order_uid: Seq<char>, reply: LookupReply) -> bool {
    match reply {
        LookupReply::Found(order) => rows.dom().contains(order_uid) && order@ == rows[order_uid],
        LookupReply::Absent => !rows.dom().contains(order_uid),
        _ => false,
    }
}

/// An order that the cache lacks and the table `rows` of the store holds is
/// cached by the fetch that finds it. The request for its identifier
/// misses and leaves the cache unchanged, so the store is asked; once the
/// store has returned the row, the order is in the cache, and a request for
/// the same identifier is answered from there with that order.
pub proof fn lemma_store_hit_is_cached(
    entries: Entries,
    capacity: nat,
    rows: Rows,
    order_uid: Seq<char>,
    reply: LookupReply,
)
    requires
        well_formed(entries, capacity),
        !holds(entries, order_uid),
        keyed_by_identifier(rows),
        rows.dom().contains(order_uid),
        answers_lookup(rows, order_uid, reply),
    ensures
        lookup(entries, order_uid) is None,
        touch(entries, order_uid) == entries,
        reply matches LookupReply::Found(order) && lookup(
            put_entries(entries, capacity, order@.order_uid, order@),
            order_uid,
        ) == Some(rows[order_uid]),
{
    lemma_put_keeps_well_formed(entries, capacity, order_uid, rows[order_uid]);
}

/// An order that neither the cache nor the table `rows` of the store holds
/// is reported as not found, which is no server error and no timeout, and
/// the cache stays without it.
pub proof fn lemma_absent_order_is_not_found(
    entries: Entries,
    rows: Rows,
    order_uid: Seq<char>,
    reply: LookupReply,
)
    requires
        !holds(entries, order_uid),
        !rows.dom().contains(order_uid),
        answers_lookup(rows, order_uid, reply),
    ensures
        lookup(entries, order_uid) is None,
        touch(entries, order_uid) == entries,
        read_failure(reply) == Some(("Not fount"@, NOT_FOUND)),
        NOT_FOUND != INTERNAL_SERVER_ERROR,
        NOT_FOUND != REQUEST_TIMEOUT,
{
}

/// An order submitted under an identifier that is new to the table `rows` of
/// the store is created: the transaction commits, the table then holds the
/// order under its identifier, and the response says so. The store is one
/// that answers and enforces its primary key; the transaction is the one
/// that [`crate::db::transaction_step`] runs.
pub proof fn lemma_new_submission_is_created(
    rows: Rows,
    order: OrderView,
    execute: Result<(), StoreError>,
    written: u64,
)
    requires
        !rows.dom().contains(order.order_uid),
        enforces_primary_key(rows, order, execute),
    ensures
        ({
            let (state, sent) = run(seq![Ok(()), execute, Ok(())]);
            let after = table_after_all(Table { committed: rows, open: None }, sent, order);
            &&& after.committed == rows.insert(order.order_uid, order)
            &&& after.open is None
            &&& state == TxState::Done(Ok(()))
        }),
        write_response(InsertReply::Inserted(written)) == ("Order successfully created"@, CREATED),
{
    lemma_insert_is_atomic(rows, order, execute);
}

/// An order submitted under an identifier that the table `rows` of the store
/// holds ends in a conflict, not in a server error, and leaves the table as
/// it was. The store is one that answers and enforces its primary key; the
/// transaction is the one that [`crate::db::transaction_step`] runs.
pub proof fn lemma_duplicate_submission_conflicts(
    rows: Rows,
    order: OrderView,
    execute: Result<(), StoreError>,
)
    requires
        rows.dom().contains(order.order_uid),
        enforces_primary_key(rows, order, execute),
    ensures
        ({
            let (state, sent) = run(seq![Ok(()), execute, Ok(())]);
            let after = table_after_all(Table { committed: rows, open: None }, sent, order);
            &&& after.committed == rows
            &&& after.open is None
            &&& state matches TxState::Done(Err(error)) && write_response(
                InsertReply::Failed(error),
            ) == ("Order already exists"@, CONFLICT)
        }),
        CONFLICT != INTERNAL_SERVER_ERROR,
{
    lemma_insert_is_atomic(rows, order, execute);
}

/// A store that runs out of time yields the timeout status on both paths, and
/// nothing else does: not an absent order, not a failure, not a success.
pub proof fn lemma_timeout_is_told_apart(looked_up: LookupReply, inserted: InsertReply)
    ensures
        (read_failure(looked_up) matches Some(response) && response.1 == REQUEST_TIMEOUT)
            <==> looked_up is TimedOut,
        write_response(inserted).1 == REQUEST_TIMEOUT <==> inserted is TimedOut,
        REQUEST_TIMEOUT != NOT_FOUND,
        REQUEST_TIMEOUT != INTERNAL_SERVER_ERROR,
{
}

} // verus!

//! Database client, version 1: the guest prepares and runs queries, and
//! opens, commits and rolls back transactions, on connections that stay
//! with the host.

use vstd::prelude::*;
use edgedb_errors::ErrorKind;
use crate::data::{copy_bytes, copy_text, copy_texts, text_view, texts_view};
use crate::server::abi::table::{exhausted, Table};
use crate::server::bug::{Bug, BugView, Context};

verus! {

/// An error of the database as the guest gets it.
#[derive(Debug)]
pub struct Error {
    pub code: u32,
    /// The first message, then what was added to it on the way.
    pub messages: Vec<String>,
    pub error: Option<String>,
    pub headers: Vec<(u16, Vec<u8>)>,
}

/// A list of numbered headers as mathematical values.
pub open spec fn fields_view(headers: Seq<(u16, Vec<u8>)>) -> Seq<(u16, Seq<u8>)> {
    Seq::new(headers.len(), |i: int| (headers[i].0, headers[i].1@))
}

/// An error as a mathematical value.
pub ghost struct ErrorView {
    pub code: u32,
    pub messages: Seq<Seq<char>>,
    pub error: Option<Seq<char>>,
    pub headers: Seq<(u16, Seq<u8>)>,
}

impl View for Error {
    type V = ErrorView;

    open spec fn view(&self) -> ErrorView {
        ErrorView {
            code: self.code,
            messages: texts_view(self.messages@),
            error: text_view(self.error),
            headers: fields_view(self.headers@),
        }
    }
}

/// An error of the database client as the host gets it, in plain values.
#[derive(Debug)]
pub struct DbError {
    pub code: u32,
    /// The first message, then the contexts in the order in which they were added.
    pub messages: Vec<String>,
    /// What the cause of the error says of itself.
    pub source: Option<String>,
    pub headers: Vec<(u16, Vec<u8>)>,
}

impl View for DbError {
    type V = ErrorView;

    open spec fn view(&self) -> ErrorView {
        ErrorView {
            code: self.code,
            messages: texts_view(self.messages@),
            error: text_view(self.source),
            headers: fields_view(self.headers@),
        }
    }
}

/// The code of an error of the client itself, under which the host's own
/// faults reach the guest.
pub const INTERNAL_ERROR: u32 = 0xFF00_0000;

/// Whether the database client tags errors of this code as worth another attempt.
pub uninterp spec fn has_retry_tag(code: u32) -> bool;

/// `edgedb_errors::Error::has_tag` with `SHOULD_RETRY`, on the error that
/// `Error::from_code` makes of `code`. The tags of an error are a table of
/// that crate over its code, so the answer is only named.
#[verifier::external_body]
pub(crate) fn should_retry(code: u32) -> (r: bool)
    ensures
        r == has_retry_tag(code),
{
    edgedb_errors::Error::from_code(code).has_tag(edgedb_errors::SHOULD_RETRY)
}

/// `edgedb_errors::ClientError::with_message`, read through `code`,
/// `initial_message`, `contexts`, `source` and `headers`: an error with
/// the code of client errors and `message` as its only message, without a
/// cause and without headers.
#[verifier::external_body]
fn client_error(message: String) -> (r: DbError)
    ensures
        r@ == (ErrorView {
            code: INTERNAL_ERROR,
            messages: seq![message@],
            error: None,
            headers: Seq::empty(),
        }),
{
    let e = edgedb_errors::ClientError::with_message(message);
    DbError {
        code: e.code(),
        messages: e.initial_message().into_iter().chain(e.contexts()).map(String::from).collect(),
        source: std::error::Error::source(&e).map(|s| s.to_string()),
        headers: e.headers().iter().map(|(k, v)| (*k, v.to_vec())).collect(),
    }
}

/// What the guest gets of an error of the database client: all of it.
pub open spec fn translated(host: ErrorView) -> ErrorView {
    host
}

/// What the guest's code makes of an error that it gets: the code and the
/// messages; cause and headers do not cross.
pub open spec fn received(abi: ErrorView) -> ErrorView {
    ErrorView { code: abi.code, messages: abi.messages, error: None, headers: Seq::empty() }
}

/// A copy of a list of numbered headers.
fn copy_fields(headers: &Vec<(u16, Vec<u8>)>) -> (r: Vec<(u16, Vec<u8>)>)
    ensures
        fields_view(r@) == fields_view(headers@),
{
    let mut r: Vec<(u16, Vec<u8>)> = Vec::with_capacity(headers.len());
    let mut i: usize = 0;
    while i < headers.len()
        invariant
            0 <= i <= headers.len(),
            r.len() == i,
            forall|j: int| 0 <= j < i ==> r@[j].0 == headers@[j].0 && r@[j].1@ == headers@[j].1@,
        decreases headers.len() - i,
    {
        let value = copy_bytes(&headers[i].1);
        r.push((headers[i].0, value));
        i = i + 1;
    }
    r
}

impl Error {
    /// The error of the database client as the guest gets it: the same
    /// code, the messages in their order, the cause as text, the headers.
    pub fn from_database(err: &DbError) -> (r: Error)
        ensures
            r@ == translated(err@),
            r.code == err.code,
    {
        Error {
            code: err.code,
            messages: copy_texts(&err.messages),
            error: match &err.source {
                Some(s) => Some(copy_text(s)),
                None => None,
            },
            headers: copy_fields(&err.headers),
        }
    }

    /// A fault of the host as the guest gets it: an error of the client
    /// whose only message is the report of the bug.
    pub fn from_bug(bug: &Bug) -> (r: Error)
        ensures
            r@ == (ErrorView {
                code: INTERNAL_ERROR,
                messages: seq![bug@.report()],
                error: None,
                headers: Seq::empty(),
            }),
    {
        let err = client_error(bug.to_string());
        Error::from_database(&err)
    }

    /// The error on the guest's side of the interface: the code and the
    /// messages; cause and headers do not cross.
    pub fn into_err(self) -> (r: DbError)
        ensures
            r@ == received(self@),
    {
        let r = DbError { code: self.code, messages: self.messages, source: None, headers: Vec::new() };
        assert(fields_view(r.headers@) =~= Seq::empty());
        r
    }
}

/// The code of an error of the database is the same on every side of the
/// interface, and with it the tag that asks for another attempt; the
/// messages keep their order.
pub proof fn lemma_error_code_is_kept(host: ErrorView)
    ensures
        translated(host).code == host.code,
        translated(host).messages == host.messages,
        received(translated(host)).code == host.code,
        received(translated(host)).messages == host.messages,
        has_retry_tag(received(translated(host)).code) == has_retry_tag(host.code),
{
}

/// The encoding in which results are asked for.
#[derive(Clone, Copy, Debug, PartialEq, Eq)]
pub enum IoFormat {
    Binary,
    Json,
    JsonElements,
}

/// How many results a query gives.
#[derive(Clone, Copy, Debug, PartialEq, Eq)]
pub enum Cardinality {
    NoResult,
    AtMostOne,
    One,
    Many,
    AtLeastOne,
}

/// What a query is allowed to do, on the guest's side of the interface.
#[derive(Clone, Copy, Debug, PartialEq, Eq)]
pub struct Capabilities {
    pub bits: u8,
}

/// The capability to change data: the one capability that a guest's
/// queries can have.
pub const MODIFICATIONS: u8 = 0b0000_0001;

/// The capability to change the session's configuration.
pub const SESSION_CONFIG: u8 = 0b0000_0010;

/// The capability to control transactions.
pub const TRANSACTION: u8 = 0b0000_0100;

/// The capability to change the schema.
pub const DDL: u8 = 0b0000_1000;

/// The capability to change the server's configuration.
pub const PERSISTENT_CONFIG: u8 = 0b0001_0000;

/// Every capability.
pub const ALL: u8 = 0b0001_1111;

/// Whether a set of bits holds capabilities and nothing else.
pub open spec fn known_bits(bits: u64) -> bool {
    bits & 0x1f == bits
}

impl Capabilities {
    /// The capabilities with these bits; `None` where a bit stands for no capability.
    pub fn from_bits(bits: u8) -> (r: Option<Capabilities>)
        ensures
            r == if bits & ALL == bits {
                Some(Capabilities { bits })
            } else {
                None
            },
    {
        if bits & ALL == bits {
            Some(Capabilities { bits })
        } else {
            None
        }
    }

    /// The bits of the capabilities.
    pub fn bits(&self) -> (r: u8)
        ensures
            r == self.bits,
    {
        self.bits
    }
}

/// `edgedb_protocol::common::Capabilities::from_bits`, read through
/// `bits`: the same bits where each stands for a capability, else nothing.
#[verifier::external_body]
fn protocol_capabilities(bits: u64) -> (r: Option<u64>)
    ensures
        r == if known_bits(bits) {
            Some(bits)
        } else {
            None
        },
{
    edgedb_protocol::common::Capabilities::from_bits(bits).map(|c| c.bits())
}

/// The bits of `edgedb_protocol::common::Capabilities::MODIFICATIONS`.
#[verifier::external_body]
fn protocol_modifications() -> (r: u64)
    ensures
        r == 1,
{
    edgedb_protocol::common::Capabilities::MODIFICATIONS.bits()
}

/// What the guest asks of the compiler of a query.
#[derive(Clone, Copy, Debug, PartialEq, Eq)]
pub struct CompilationFlags {
    pub implicit_limit: Option<u64>,
    pub implicit_typenames: bool,
    pub implicit_typeids: bool,
    pub allow_capabilities: Capabilities,
    pub explicit_objectids: bool,
    pub io_format: IoFormat,
    pub expected_cardinality: Cardinality,
}

/// What the host asks of the compiler of a query, in the database
/// client's terms.
#[derive(Clone, Copy, Debug, PartialEq, Eq)]
pub struct CompilationOptions {
    pub implicit_limit: Option<u64>,
    pub implicit_typenames: bool,
    pub implicit_typeids: bool,
    /// The bits of the capabilities in the database's protocol.
    pub allow_capabilities: u64,
    pub explicit_objectids: bool,
    pub io_format: IoFormat,
    pub expected_cardinality: Cardinality,
}

/// The capabilities that the host lets a guest's query have, of those
/// that the guest asked for: the capability to change data, if asked for.
pub open spec fn allowed(asked: u8) -> u64 {
    (asked as u64) & 1
}

/// Why capabilities of the guest have no place in the protocol.
pub open spec fn to_protocol_failed() -> Seq<char> {
    "converting capabilities from WebAssembly to protocol"@
}

/// Why capabilities of the protocol have no place on the guest's side.
pub open spec fn from_protocol_failed() -> Seq<char> {
    "converting capabilities from protocol to WebAssembly"@
}

/// Why the answer to a prepared query cannot be passed on.
pub open spec fn no_capabilities() -> Seq<char> {
    "no capabilities received"@
}

impl Capabilities {
    /// The capabilities in the database's protocol.
    pub fn try_into_protocol(self) -> (r: Result<u64, Bug>)
        ensures
            match r {
                Ok(bits) => known_bits(self.bits as u64) && bits == self.bits,
                Err(bug) => !known_bits(self.bits as u64) && bug@ == (BugView {
                    description: to_protocol_failed(),
                    source: None,
                }),
            },
    {
        protocol_capabilities(self.bits as u64).wrap_bug(
            "converting capabilities from WebAssembly to protocol",
        )
    }

    /// The capabilities of the database's protocol on the guest's side.
    pub fn try_from_protocol(bits: u64) -> (r: Result<Capabilities, Bug>)
        ensures
            match r {
                Ok(capabilities) => bits <= u8::MAX && (bits as u8) & ALL == bits as u8
                    && capabilities.bits == bits,
                Err(bug) => !(bits <= u8::MAX && (bits as u8) & ALL == bits as u8) && bug@ == (
                BugView { description: from_protocol_failed(), source: None }),
            },
    {
        let narrow: Option<u8> = if bits <= u8::MAX as u64 {
            Some(bits as u8)
        } else {
            None
        };
        let narrow = narrow.wrap_bug("converting capabilities from protocol to WebAssembly")?;
        Capabilities::from_bits(narrow).wrap_bug(
            "converting capabilities from protocol to WebAssembly",
        )
    }
}

impl CompilationFlags {
    /// The flags in the database client's terms, with the capabilities cut
    /// down to what a guest may have: whatever the guest asked for, its
    /// queries get no more than the capability to change data.
    pub fn try_into_protocol(&self) -> (r: Result<CompilationOptions, Bug>)
        ensures
            match r {
                Ok(options) => known_bits(self.allow_capabilities.bits as u64) && options == (
                CompilationOptions {
                    implicit_limit: self.implicit_limit,
                    implicit_typenames: self.implicit_typenames,
                    implicit_typeids: self.implicit_typeids,
                    allow_capabilities: allowed(self.allow_capabilities.bits),
                    explicit_objectids: self.explicit_objectids,
                    io_format: self.io_format,
                    expected_cardinality: self.expected_cardinality,
                }),
                Err(bug) => !known_bits(self.allow_capabilities.bits as u64) && bug@ == (BugView {
                    description: to_protocol_failed(),
                    source: None,
                }),
            },
    {
        let asked = self.allow_capabilities.try_into_protocol()?;
        Ok(
            CompilationOptions {
                implicit_limit: self.implicit_limit,
                implicit_typenames: self.implicit_typenames,
                implicit_typeids: self.implicit_typeids,
                allow_capabilities: asked & protocol_modifications(),
                explicit_objectids: self.explicit_objectids,
                io_format: self.io_format,
                expected_cardinality: self.expected_cardinality,
            },
        )
    }
}

/// What the guest asked for beyond the capability to change data is cut
/// away: the capabilities that the host passes on hold no other bit, and
/// hold that one exactly where the guest asked for it.
pub proof fn lemma_capabilities_are_masked(asked: u8)
    ensures
        allowed(asked) == 0 || allowed(asked) == 1,
        allowed(asked) == 1 <==> asked & MODIFICATIONS == MODIFICATIONS,
        allowed(asked) & !1u64 == 0,
{
    let wide = asked as u64;
    assert(wide & 1 == 0 || wide & 1 == 1) by (bit_vector);
    assert((wide & 1) & !1u64 == 0) by (bit_vector);
}

/// What the database says of a prepared query, as the guest gets it.
#[derive(Debug)]
pub struct PrepareComplete {
    pub capabilities: Capabilities,
    pub cardinality: Cardinality,
    pub input_typedesc_id: String,
    pub output_typedesc_id: String,
}

/// The description of a query's arguments and results.
#[derive(Debug)]
pub struct DataDescription {
    pub proto: (u16, u16),
    pub result_cardinality: Cardinality,
    pub input_typedesc_id: String,
    pub input_typedesc: Vec<u8>,
    pub output_typedesc_id: String,
    pub output_typedesc: Vec<u8>,
}

/// The rows that a query gave.
#[derive(Debug)]
pub struct Data {
    pub chunks: Vec<Vec<u8>>,
}

/// A list of byte strings as mathematical values.
pub open spec fn chunks_view(chunks: Seq<Vec<u8>>) -> Seq<Seq<u8>> {
    Seq::new(chunks.len(), |i: int| chunks[i]@)
}

/// The rows of all messages, message after message.
pub open spec fn rows_of(messages: Seq<Vec<Vec<u8>>>) -> Seq<Seq<u8>>
    decreases messages.len(),
{
    if messages.len() == 0 {
        Seq::empty()
    } else {
        rows_of(messages.drop_last()) + chunks_view(messages.last()@)
    }
}

impl PrepareComplete {
    /// The answer to a prepared query for the guest, from what the
    /// database said: the capabilities that the query needs, its
    /// cardinality, and the id of the descriptor of its input, which the
    /// answer carries in both of its descriptor ids.
    pub fn new(capabilities: Option<u64>, cardinality: Cardinality, input_typedesc_id: &str) -> (r:
        Result<PrepareComplete, Bug>)
        ensures
            match r {
                Ok(complete) => capabilities matches Some(bits) && bits <= u8::MAX && (bits as u8)
                    & ALL == bits as u8 && complete.capabilities.bits == bits
                    && complete.cardinality == cardinality && complete.input_typedesc_id@
                    == input_typedesc_id@ && complete.output_typedesc_id@ == input_typedesc_id@,
                Err(bug) => match capabilities {
                    None => bug@ == (BugView { description: no_capabilities(), source: None }),
                    Some(bits) => !(bits <= u8::MAX && (bits as u8) & ALL == bits as u8) && bug@
                        == (BugView { description: from_protocol_failed(), source: None }),
                },
            },
    {
        let bits = capabilities.wrap_bug("no capabilities received")?;
        let capabilities = Capabilities::try_from_protocol(bits)?;
        Ok(
            PrepareComplete {
                capabilities,
                cardinality,
                input_typedesc_id: input_typedesc_id.to_owned(),
                output_typedesc_id: input_typedesc_id.to_owned(),
            },
        )
    }
}

impl Data {
    /// The rows of a query's result, from the data messages of the
    /// database in the order in which they came.
    pub fn from_messages(messages: Vec<Vec<Vec<u8>>>) -> (r: Data)
        ensures
            chunks_view(r.chunks@) == rows_of(messages@),
    {
        let mut chunks: Vec<Vec<u8>> = Vec::new();
        let mut i: usize = 0;
        while i < messages.len()
            invariant
                0 <= i <= messages.len(),
                chunks_view(chunks@) == rows_of(messages@.take(i as int)),
            decreases messages.len() - i,
        {
            let message = &messages[i];
            let ghost before = chunks@;
            let mut j: usize = 0;
            while j < message.len()
                invariant
                    0 <= j <= message.len(),
                    chunks_view(chunks@) == chunks_view(before) + chunks_view(message@.take(j as int)),
                decreases message.len() - j,
            {
                let ghost so_far = chunks@;
                chunks.push(copy_bytes(&message[j]));
                assert(chunks_view(chunks@) =~= chunks_view(so_far) + seq![message@[j as int]@]);
                assert(chunks_view(message@.take(j + 1)) =~= chunks_view(message@.take(j as int))
                    + seq![message@[j as int]@]);
                j = j + 1;
            }
            assert(messages@.take(i + 1).drop_last() == messages@.take(i as int));
            i = i + 1;
        }
        assert(messages@.take(messages.len() as int) == messages@);
        Data { chunks }
    }
}

/// A guest's client: the pool that its queries go to.
#[derive(Clone, Copy, Debug, PartialEq, Eq)]
pub struct Client {
    pub pool: u64,
}

/// A prepared query: the connection on which it was prepared.
#[derive(Clone, Copy, Debug, PartialEq, Eq)]
pub struct Query {
    pub connection: u64,
}

/// An open transaction: the connection on which it runs.
#[derive(Clone, Copy, Debug, PartialEq, Eq)]
pub struct Transaction {
    pub connection: u64,
}

/// How a transaction ends.
#[derive(Clone, Copy, Debug, PartialEq, Eq)]
pub enum Outcome {
    Commit,
    Rollback,
}

/// The statement that opens a transaction.
pub const START_TRANSACTION: &'static str = "START TRANSACTION";

impl Outcome {
    /// The statement that ends a transaction in this way.
    pub fn statement(self) -> (s: &'static str)
        ensures
            s@ == match self {
                Outcome::Commit => "COMMIT"@,
                Outcome::Rollback => "ROLLBACK"@,
            },
    {
        match self {
            Outcome::Commit => "COMMIT",
            Outcome::Rollback => "ROLLBACK",
        }
    }
}

/// Why a handle gives nothing: no object is behind it.
pub open spec fn unknown_handle() -> Seq<char> {
    "no object behind this handle"@
}

/// Why an object gets no handle: the table is full.
pub open spec fn table_full() -> Seq<char> {
    "no handle left in the table"@
}

/// The bug of a handle without an object.
pub open spec fn missing() -> BugView {
    BugView { description: unknown_handle(), source: None }
}

/// What the bridge of one guest instance keeps for it: the pool of its
/// database, and the objects that the guest holds by handle.
pub struct State {
    pool: u64,
    clients: Table<Client>,
    queries: Table<Query>,
    transactions: Table<Transaction>,
}

/// The bridge's state as a mathematical value.
pub ghost struct StateView {
    pub pool: u64,
    pub clients: Map<u32, Client>,
    pub queries: Map<u32, Query>,
    pub transactions: Map<u32, Transaction>,
}

impl StateView {
    /// Whether a handle of the guest names `connection`: a query that was
    /// prepared on it, or a transaction that runs on it.
    pub open spec fn in_use(self, connection: u64) -> bool {
        ||| exists|handle: u32| #[trigger]
            self.queries.contains_key(handle) && self.queries[handle].connection == connection
        ||| exists|handle: u32| #[trigger]
            self.transactions.contains_key(handle) && self.transactions[handle].connection
                == connection
    }

    /// The end of the transaction behind `handle`: the state without the
    /// handle, and the connection on which the transaction ends. A handle
    /// without a transaction is a bug, and changes nothing.
    pub open spec fn finish(self, handle: u32) -> (StateView, Result<u64, BugView>) {
        if self.transactions.contains_key(handle) {
            (
                StateView { transactions: self.transactions.remove(handle), ..self },
                Ok(self.transactions[handle].connection),
            )
        } else {
            (self, Err(missing()))
        }
    }
}

impl View for State {
    type V = StateView;

    closed spec fn view(&self) -> StateView {
        StateView {
            pool: self.pool,
            clients: self.clients@,
            queries: self.queries@,
            transactions: self.transactions@,
        }
    }
}

/// The object behind a handle, or the bug of a handle without one.
fn found<T: Copy>(object: Option<&T>) -> (r: Result<T, Bug>)
    ensures
        match r {
            Ok(value) => object == Some(&value),
            Err(bug) => object is None && bug@ == missing(),
        },
{
    match object {
        Some(value) => Ok(*value),
        None => Err(Bug { description: "no object behind this handle".to_owned(), source: None }),
    }
}

/// The bug of a table without room.
pub open spec fn no_room() -> BugView {
    BugView { description: table_full(), source: None }
}

/// The handle of an object that was put into a table, or the bug of a full table.
fn placed<T>(handle: Result<u32, T>) -> (r: Result<u32, Bug>)
    ensures
        match r {
            Ok(h) => handle matches Ok(g) && g == h,
            Err(bug) => handle is Err && bug@ == no_room(),
        },
{
    match handle {
        Ok(h) => Ok(h),
        Err(_) => Err(Bug { description: "no handle left in the table".to_owned(), source: None }),
    }
}

impl State {
    /// The invariant of the type.
    pub closed spec fn wf(&self) -> bool {
        self.clients.wf() && self.queries.wf() && self.transactions.wf()
    }

    /// The state of a new instance whose queries go to `pool`: the guest
    /// holds nothing yet.
    pub fn new(pool: u64) -> (state: State)
        ensures
            state.wf(),
            state@ == (StateView {
                pool,
                clients: Map::empty(),
                queries: Map::empty(),
                transactions: Map::empty(),
            }),
    {
        State { pool, clients: Table::new(), queries: Table::new(), transactions: Table::new() }
    }

    /// A client for the guest, bound to the pool of its database.
    pub fn client_connect(&mut self) -> (r: Result<u32, Bug>)
        requires
            old(self).wf(),
        ensures
            final(self).wf(),
            match r {
                Ok(handle) => !exhausted(old(self)@.clients) && !old(self)@.clients.contains_key(
                    handle,
                ) && final(self)@ == (StateView {
                    clients: old(self)@.clients.insert(handle, Client { pool: old(self)@.pool }),
                    ..old(self)@
                }),
                Err(bug) => exhausted(old(self)@.clients) && bug@ == no_room() && final(self)@
                    == old(self)@,
            },
    {
        let pool = self.pool;
        placed(self.clients.insert(Client { pool }))
    }

    /// The pool behind a client's handle.
    pub fn client(&self, handle: u32) -> (r: Result<u64, Bug>)
        requires
            self.wf(),
        ensures
            match r {
                Ok(pool) => self@.clients.contains_key(handle) && pool == self@.clients[handle].pool,
                Err(bug) => !self@.clients.contains_key(handle) && bug@ == missing(),
            },
    {
        Ok(found(self.clients.get(handle))?.pool)
    }

    /// A handle for a query that was prepared on `connection`.
    pub fn prepared(&mut self, connection: u64) -> (r: Result<u32, Bug>)
        requires
            old(self).wf(),
        ensures
            final(self).wf(),
            match r {
                Ok(handle) => !exhausted(old(self)@.queries) && !old(self)@.queries.contains_key(
                    handle,
                ) && final(self)@ == (StateView {
                    queries: old(self)@.queries.insert(handle, Query { connection }),
                    ..old(self)@
                }),
                Err(bug) => exhausted(old(self)@.queries) && bug@ == no_room() && final(self)@
                    == old(self)@,
            },
    {
        placed(self.queries.insert(Query { connection }))
    }

    /// The connection behind a query's handle.
    pub fn query(&self, handle: u32) -> (r: Result<u64, Bug>)
        requires
            self.wf(),
        ensures
            match r {
                Ok(connection) => self@.queries.contains_key(handle) && connection
                    == self@.queries[handle].connection,
                Err(bug) => !self@.queries.contains_key(handle) && bug@ == missing(),
            },
    {
        Ok(found(self.queries.get(handle))?.connection)
    }

    /// A handle for a transaction that was started on `connection`.
    pub fn client_transaction(&mut self, connection: u64) -> (r: Result<u32, Bug>)
        requires
            old(self).wf(),
        ensures
            final(self).wf(),
            match r {
                Ok(handle) => !exhausted(old(self)@.transactions) && !old(
                    self,
                )@.transactions.contains_key(handle) && final(self)@ == (StateView {
                    transactions: old(self)@.transactions.insert(handle, Transaction { connection }),
                    ..old(self)@
                }),
                Err(bug) => exhausted(old(self)@.transactions) && bug@ == no_room() && final(self)@
                    == old(self)@,
            },
    {
        placed(self.transactions.insert(Transaction { connection }))
    }

    /// The connection of an open transaction, for a query that is
    /// prepared inside it.
    pub fn transaction(&self, handle: u32) -> (r: Result<u64, Bug>)
        requires
            self.wf(),
        ensures
            match r {
                Ok(connection) => self@.transactions.contains_key(handle) && connection
                    == self@.transactions[handle].connection,
                Err(bug) => !self@.transactions.contains_key(handle) && bug@ == missing(),
            },
    {
        Ok(found(self.transactions.get(handle))?.connection)
    }

    /// Ends the transaction behind `handle`: the handle is given up, and
    /// the statement of the outcome goes to the connection that is returned.
    pub fn transaction_finish(&mut self, handle: u32) -> (r: Result<u64, Bug>)
        requires
            old(self).wf(),
        ensures
            final(self).wf(),
            match r {
                Ok(connection) => (final(self)@, Ok::<u64, BugView>(connection)) == old(
                    self,
                )@.finish(handle),
                Err(bug) => (final(self)@, Err::<u64, BugView>(bug@)) == old(self)@.finish(handle),
            },
    {
        match self.transactions.remove(handle) {
            Some(transaction) => Ok(transaction.connection),
            None => {
                assert(self.transactions@ =~= old(self).transactions@);
                Err(Bug { description: "no object behind this handle".to_owned(), source: None })
            },
        }
    }

    /// Commits the transaction behind `handle`.
    pub fn transaction_commit(&mut self, handle: u32) -> (r: Result<(u64, &'static str), Bug>)
        requires
            old(self).wf(),
        ensures
            final(self).wf(),
            final(self)@ == old(self)@.finish(handle).0,
            match r {
                Ok((connection, statement)) => old(self)@.finish(handle).1 == Ok::<u64, BugView>(
                    connection,
                ) && statement@ == "COMMIT"@,
                Err(bug) => old(self)@.finish(handle).1 == Err::<u64, BugView>(bug@),
            },
    {
        let connection = self.transaction_finish(handle)?;
        Ok((connection, Outcome::Commit.statement()))
    }

    /// Rolls the transaction behind `handle` back.
    pub fn transaction_rollback(&mut self, handle: u32) -> (r: Result<(u64, &'static str), Bug>)
        requires
            old(self).wf(),
        ensures
            final(self).wf(),
            final(self)@ == old(self)@.finish(handle).0,
            match r {
                Ok((connection, statement)) => old(self)@.finish(handle).1 == Ok::<u64, BugView>(
                    connection,
                ) && statement@ == "ROLLBACK"@,
                Err(bug) => old(self)@.finish(handle).1 == Err::<u64, BugView>(bug@),
            },
    {
        let connection = self.transaction_finish(handle)?;
        Ok((connection, Outcome::Rollback.statement()))
    }

    /// Whether a handle of the guest still names `connection`. A
    /// connection that no handle names goes back to its pool.
    pub fn is_in_use(&self, connection: u64) -> (r: bool)
        requires
            self.wf(),
        ensures
            r == self@.in_use(connection),
    {
        let queries = self.queries.bound();
        let mut handle: u32 = 0;
        while handle < queries
            invariant
                self.wf(),
                0 <= handle <= queries,
                forall|h: u32| self.queries@.contains_key(h) ==> h < queries,
                forall|h: u32|
                    h < handle && #[trigger] self.queries@.contains_key(h) ==> self.queries@[h].connection
                        != connection,
            decreases queries - handle,
        {
            if let Some(query) = self.queries.get(handle) {
                if query.connection == connection {
                    assert(self@.queries.contains_key(handle));
                    return true;
                }
            }
            handle = handle + 1;
        }
        let transactions = self.transactions.bound();
        let mut handle: u32 = 0;
        while handle < transactions
            invariant
                self.wf(),
                0 <= handle <= transactions,
                forall|h: u32| self.transactions@.contains_key(h) ==> h < transactions,
                forall|h: u32| #[trigger]
                    self.queries@.contains_key(h) ==> self.queries@[h].connection != connection,
                forall|h: u32|
                    h < handle && #[trigger] self.transactions@.contains_key(h)
                        ==> self.transactions@[h].connection != connection,
            decreases transactions - handle,
        {
            if let Some(transaction) = self.transactions.get(handle) {
                if transaction.connection == connection {
                    assert(self@.transactions.contains_key(handle));
                    return true;
                }
            }
            handle = handle + 1;
        }
        false
    }

    /// Gives up a client's handle.
    pub fn drop_client(&mut self, handle: u32)
        requires
            old(self).wf(),
        ensures
            final(self).wf(),
            final(self)@ == (StateView { clients: old(self)@.clients.remove(handle), ..old(self)@ }),
    {
        self.clients.remove(handle);
    }

    /// Gives up a query's handle.
    pub fn drop_query(&mut self, handle: u32)
        requires
            old(self).wf(),
        ensures
            final(self).wf(),
            final(self)@ == (StateView { queries: old(self)@.queries.remove(handle), ..old(self)@ }),
    {
        self.queries.remove(handle);
    }

    /// Gives up a transaction's handle without ending the transaction.
    pub fn drop_transaction(&mut self, handle: u32)
        requires
            old(self).wf(),
        ensures
            final(self).wf(),
            final(self)@ == (StateView {
                transactions: old(self)@.transactions.remove(handle),
                ..old(self)@
            }),
    {
        self.transactions.remove(handle);
    }
}

/// A transaction ends once: after its end, be it a commit or a rollback,
/// every further end of the same handle is the bug of a handle without an
/// object, and changes nothing.
pub proof fn lemma_transaction_ends_once(state: StateView, handle: u32)
    ensures
        state.finish(handle).0.finish(handle) == (state.finish(handle).0, Err::<u64, BugView>(missing())),
        state.finish(handle).1 is Ok <==> state.transactions.contains_key(handle),
{
}

} // verus!

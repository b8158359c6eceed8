//! Workers: running guest instances, each bound to one database and module.

use vstd::prelude::*;
use crate::dict::Key;
use crate::server::abi::http_server_v1::{Response, ResponseView};
use crate::server::tenant::http::{FromWasm, Process};
use crate::text::{chars_of, starts_with};

verus! {

/// Identity of a worker: the database it serves and the module it runs.
#[derive(Debug)]
pub struct Name {
    pub database: String,
    pub wasm_name: String,
}

impl Name {
    /// The mount point of the worker as text.
    pub open spec fn display(self) -> Seq<char> {
        seq!['/', 'd', 'b', '/'] + self.database@ + seq!['/', 'w', 'a', 's', 'm', '/']
            + self.wasm_name@
    }

    /// `/db/{database}/wasm/{wasm_name}`.
    pub fn to_string(&self) -> (s: String)
        ensures
            s@ == self.display(),
    {
        proof {
            reveal_strlit("/db/");
            reveal_strlit("/wasm/");
        }
        let mut s = "/db/".to_owned();
        s.append(self.database.as_str());
        s.append("/wasm/");
        s.append(self.wasm_name.as_str());
        s
    }
}

impl View for Name {
    type V = (Seq<char>, Seq<char>);

    open spec fn view(&self) -> (Seq<char>, Seq<char>) {
        (self.database@, self.wasm_name@)
    }
}

impl Key for Name {
    fn same(&self, other: &Self) -> (r: bool) {
        self.database == other.database && self.wasm_name == other.wasm_name
    }
}

/// The export that is called before every init hook.
pub open spec fn pre_init_name() -> Seq<char> {
    "_edgedb_sdk_pre_init"@
}

/// The export that is called after every init hook.
pub open spec fn post_init_name() -> Seq<char> {
    "_edgedb_sdk_post_init"@
}

/// What the name of every init hook begins with.
pub open spec fn init_prefix() -> Seq<char> {
    "_edgedb_sdk_init_"@
}

/// The program's entry point, which is called when the init exports are done.
pub const ENTRY_POINT: &'static str = "_start";

/// The part that an export plays while a worker is set up.
#[derive(Clone, Copy, Debug, PartialEq, Eq)]
pub enum Role {
    PreInit,
    Init,
    PostInit,
    Other,
}

/// An export of a guest instance: its name, and whether it is a function.
#[derive(Debug)]
pub struct Export {
    pub name: String,
    pub is_func: bool,
}

/// The role of an export by its name.
pub open spec fn role_of(name: Seq<char>) -> Role {
    if name == pre_init_name() {
        Role::PreInit
    } else if name == post_init_name() {
        Role::PostInit
    } else if init_prefix().is_prefix_of(name) {
        Role::Init
    } else {
        Role::Other
    }
}

/// The one export with the role `role` among the first `upto`: the last
/// of that name, if it is a function.
pub open spec fn single(exports: Seq<Export>, role: Role, upto: int) -> Option<usize>
    decreases upto,
{
    if upto <= 0 {
        None
    } else if role_of(exports[upto - 1].name@) == role {
        if exports[upto - 1].is_func {
            Some((upto - 1) as usize)
        } else {
            None
        }
    } else {
        single(exports, role, upto - 1)
    }
}

/// The init hooks among the first `upto` exports, in the order of the
/// exports: those that begin with the prefix and are functions.
pub open spec fn hooks(exports: Seq<Export>, upto: int) -> Seq<usize>
    decreases upto,
{
    if upto <= 0 {
        Seq::empty()
    } else if role_of(exports[upto - 1].name@) == Role::Init && exports[upto - 1].is_func {
        hooks(exports, upto - 1).push((upto - 1) as usize)
    } else {
        hooks(exports, upto - 1)
    }
}

/// One call, or none.
pub open spec fn optional(call: Option<usize>) -> Seq<usize> {
    match call {
        Some(i) => seq![i],
        None => Seq::empty(),
    }
}

/// The exports to call while a worker is set up, by position, in the
/// order of the calls: the pre-init export, the init hooks, the post-init
/// export.
pub open spec fn init_order(exports: Seq<Export>) -> Seq<usize> {
    let n = exports.len() as int;
    optional(single(exports, Role::PreInit, n)) + hooks(exports, n) + optional(
        single(exports, Role::PostInit, n),
    )
}

/// The role of the export named `name`.
pub fn classify(name: &str) -> (r: Role)
    ensures
        r == role_of(name@),
{
    let chars = chars_of(name);
    let pre = chars_of("_edgedb_sdk_pre_init");
    let post = chars_of("_edgedb_sdk_post_init");
    let prefix = chars_of("_edgedb_sdk_init_");
    assert(chars@.subrange(0, chars@.len() as int) == chars@);
    if crate::text::range_is(&chars, 0, chars.len(), &pre) {
        Role::PreInit
    } else if crate::text::range_is(&chars, 0, chars.len(), &post) {
        Role::PostInit
    } else if starts_with(&chars, &prefix) {
        Role::Init
    } else {
        Role::Other
    }
}

/// The exports to call while a worker is set up, in the order of the calls.
pub fn call_init(exports: &Vec<Export>) -> (calls: Vec<usize>)
    ensures
        calls@ == init_order(exports@),
        forall|k: int| 0 <= k < calls.len() ==> calls@[k] < exports.len(),
{
    let mut pre_init: Option<usize> = None;
    let mut post_init: Option<usize> = None;
    let mut init_funcs: Vec<usize> = Vec::new();
    let mut i: usize = 0;
    while i < exports.len()
        invariant
            0 <= i <= exports.len(),
            pre_init == single(exports@, Role::PreInit, i as int),
            post_init == single(exports@, Role::PostInit, i as int),
            init_funcs@ == hooks(exports@, i as int),
            pre_init matches Some(k) ==> k < i,
            post_init matches Some(k) ==> k < i,
            forall|k: int| 0 <= k < init_funcs.len() ==> init_funcs@[k] < i,
        decreases exports.len() - i,
    {
        match classify(exports[i].name.as_str()) {
            Role::PreInit => {
                pre_init = if exports[i].is_func {
                    Some(i)
                } else {
                    None
                };
            },
            Role::PostInit => {
                post_init = if exports[i].is_func {
                    Some(i)
                } else {
                    None
                };
            },
            Role::Init => {
                if exports[i].is_func {
                    init_funcs.push(i);
                }
            },
            Role::Other => {},
        }
        i = i + 1;
    }
    let mut calls: Vec<usize> = Vec::new();
    if let Some(k) = pre_init {
        calls.push(k);
    }
    let mut j: usize = 0;
    while j < init_funcs.len()
        invariant
            0 <= j <= init_funcs.len(),
            calls@ == optional(pre_init) + init_funcs@.take(j as int),
            forall|k: int| 0 <= k < calls.len() ==> calls@[k] < exports.len(),
            forall|k: int| 0 <= k < init_funcs.len() ==> init_funcs@[k] < exports.len(),
        decreases init_funcs.len() - j,
    {
        calls.push(init_funcs[j]);
        j = j + 1;
    }
    if let Some(k) = post_init {
        calls.push(k);
    }
    calls
}

/// A worker as the host's logic sees it.
#[derive(Debug)]
pub struct Worker {
    /// Identity of the instance; no two workers share it.
    pub id: u64,
    pub name: Name,
    /// Identity of the module that the instance was made from.
    pub module: u64,
    /// The directory that the module was read from.
    pub directory: String,
    /// Whether the guest exports the HTTP interface.
    pub http_server_v1: bool,
    /// Whether a request has failed in the guest, so that the instance is
    /// not to be used again.
    pub poisoned: bool,
}

/// What a front end answers for the outcome of a guest call: the guest's
/// response where the transport can send it, else an internal server error.
pub open spec fn reply_of<P: Process>(outcome: Result<ResponseView, Seq<char>>) -> <P::Output as View>::V {
    match outcome {
        Ok(response) => match <P::Output as FromWasm>::converted(response) {
            Some(out) => out,
            None => P::internal_server_error(),
        },
        Err(_) => P::internal_server_error(),
    }
}

/// Whether the outcome of a guest call leaves the instance fit for the
/// next request.
pub open spec fn sound<P: Process>(outcome: Result<ResponseView, Seq<char>>) -> bool {
    match outcome {
        Ok(response) => <P::Output as FromWasm>::converted(response) is Some,
        Err(_) => false,
    }
}

/// The outcome of a guest call as a mathematical value.
pub open spec fn outcome_view(outcome: Result<Response, String>) -> Result<ResponseView, Seq<char>> {
    match outcome {
        Ok(response) => Ok(response@),
        Err(message) => Err(message@),
    }
}

impl Worker {
    /// A worker that has been set up and has served no request yet.
    pub fn new(id: u64, name: Name, module: u64, directory: String, http_server_v1: bool) -> (w:
        Worker)
        ensures
            w == (Worker { id, name, module, directory, http_server_v1, poisoned: false }),
    {
        Worker { id, name, module, directory, http_server_v1, poisoned: false }
    }

    /// The name under which the worker is registered.
    pub fn full_name(&self) -> (name: &Name)
        ensures
            *name == self.name,
    {
        &self.name
    }

    /// The module that the worker runs.
    pub fn module(&self) -> (module: u64)
        ensures
            module == self.module,
    {
        self.module
    }

    /// The answer to a request that the guest cannot be asked about: a
    /// worker without the HTTP interface answers every request with "not
    /// found". `None` where the guest is to be called.
    pub fn handle_http<P: Process>(&self) -> (r: Option<P::Output>)
        ensures
            self.http_server_v1 ==> r is None,
            !self.http_server_v1 ==> r is Some && r->0@ == P::not_found(),
    {
        if self.http_server_v1 {
            None
        } else {
            Some(P::err_not_found())
        }
    }

    /// The answer to a request for which the guest was called, with
    /// `outcome` as the result of the call, and whether the instance is fit
    /// for the next request. A failed call, and a response that the
    /// transport cannot send, are answered with an internal server error
    /// and leave the instance unfit.
    pub fn reply<P: Process>(&self, outcome: Result<Response, String>) -> (r: (P::Output, bool))
        ensures
            r.0@ == reply_of::<P>(outcome_view(outcome)),
            r.1 == sound::<P>(outcome_view(outcome)),
    {
        match outcome {
            Ok(response) => match <P::Output as FromWasm>::from_wasm(response) {
                Ok(out) => (out, true),
                Err(_) => (P::err_internal_server_error(), false),
            },
            Err(_) => (P::err_internal_server_error(), false),
        }
    }
}

/// Where `ticket` stands among the tickets, if it stands there.
pub open spec fn place(waiting: Seq<u64>, ticket: u64) -> int {
    choose|i: int| 0 <= i < waiting.len() && waiting[i] == ticket
}

/// The tickets of `waiting` without `ticket`, in their order.
pub open spec fn without(waiting: Seq<u64>, ticket: u64) -> Seq<u64> {
    if waiting.contains(ticket) {
        waiting.remove(place(waiting, ticket))
    } else {
        waiting
    }
}

/// Taking a ticket out leaves tickets that were there, each once.
pub proof fn lemma_without(waiting: Seq<u64>, ticket: u64)
    requires
        waiting.no_duplicates(),
    ensures
        without(waiting, ticket).no_duplicates(),
        !without(waiting, ticket).contains(ticket),
        forall|k: int|
            0 <= k < without(waiting, ticket).len() ==> waiting.contains(
                #[trigger] without(waiting, ticket)[k],
            ),
{
    if waiting.contains(ticket) {
        let i = place(waiting, ticket);
        let left = waiting.remove(i);
        assert forall|a: int, b: int| 0 <= a < b < left.len() implies left[a] != left[b] by {
            let a0 = if a < i { a } else { a + 1 };
            let b0 = if b < i { b } else { b + 1 };
            assert(waiting[a0] != waiting[b0]);
        }
        assert forall|k: int| 0 <= k < left.len() implies left[k] != ticket && waiting.contains(
            #[trigger] left[k],
        ) by {
            let k0 = if k < i { k } else { k + 1 };
            assert(waiting[k0] == left[k]);
            assert(waiting[k0] != waiting[i]);
        }
    }
}

/// The turnstile of a worker as a mathematical value: the request that is in
/// the guest, the requests that wait in the order in which they came,
/// and how many tickets have been handed out.
pub ghost struct TurnstileView {
    pub running: Option<u64>,
    pub waiting: Seq<u64>,
    pub issued: nat,
}

impl TurnstileView {
    /// Every ticket has been handed out, and none is held twice.
    pub open spec fn wf(self) -> bool {
        &&& self.waiting.no_duplicates()
        &&& forall|i: int| 0 <= i < self.waiting.len() ==> #[trigger] self.waiting[i] < self.issued
        &&& self.running matches Some(t) ==> t < self.issued && !self.waiting.contains(t)
    }

    /// Whether the request with `ticket` may enter the guest: the guest is
    /// free, and the request is the one that has waited longest.
    pub open spec fn may_start(self, ticket: u64) -> bool {
        self.running is None && self.waiting.len() > 0 && self.waiting[0] == ticket
    }

    /// The turnstile after a request has arrived, and its ticket.
    pub open spec fn arrive(self) -> (TurnstileView, Option<u64>) {
        if self.issued < u64::MAX {
            (
                TurnstileView {
                    waiting: self.waiting.push(self.issued as u64),
                    issued: self.issued + 1,
                    ..self
                },
                Some(self.issued as u64),
            )
        } else {
            (self, None)
        }
    }

    /// The turnstile after the request with `ticket` has asked to enter the guest.
    pub open spec fn start(self, ticket: u64) -> TurnstileView {
        if self.may_start(ticket) {
            TurnstileView { running: Some(ticket), waiting: self.waiting.drop_first(), ..self }
        } else {
            self
        }
    }

    /// The turnstile after the request with `ticket` has left the guest.
    pub open spec fn finish(self, ticket: u64) -> TurnstileView {
        if self.running == Some(ticket) {
            TurnstileView { running: None, ..self }
        } else {
            self
        }
    }

    /// The turnstile after the request with `ticket` has given up waiting.
    pub open spec fn abandon(self, ticket: u64) -> TurnstileView {
        TurnstileView { waiting: without(self.waiting, ticket), ..self }
    }
}

/// The turnstile of a worker: it lets one request into the guest at a time,
/// in the order in which the requests came.
pub struct Turnstile {
    running: Option<u64>,
    waiting: Vec<u64>,
    next_ticket: u64,
}

impl View for Turnstile {
    type V = TurnstileView;

    closed spec fn view(&self) -> TurnstileView {
        TurnstileView { running: self.running, waiting: self.waiting@, issued: self.next_ticket as nat }
    }
}

impl Turnstile {
    /// The invariant of the type.
    pub closed spec fn wf(&self) -> bool {
        self@.wf()
    }

    /// A turnstile at which nobody waits.
    pub fn new() -> (turnstile: Turnstile)
        ensures
            turnstile.wf(),
            turnstile@ == (TurnstileView { running: None, waiting: Seq::empty(), issued: 0 }),
    {
        Turnstile { running: None, waiting: Vec::new(), next_ticket: 0 }
    }

    /// A request arrives and gets its ticket, with which it waits for its
    /// turn. `None` where every ticket has been handed out.
    pub fn arrive(&mut self) -> (r: Option<u64>)
        requires
            old(self).wf(),
        ensures
            final(self).wf(),
            (final(self)@, r) == old(self)@.arrive(),
    {
        if self.next_ticket == u64::MAX {
            return None;
        }
        let ticket = self.next_ticket;
        self.waiting.push(ticket);
        self.next_ticket = ticket + 1;
        Some(ticket)
    }

    /// The request with `ticket` asks to enter the guest. It may where the
    /// guest is free and no request has waited longer.
    pub fn start(&mut self, ticket: u64) -> (r: bool)
        requires
            old(self).wf(),
        ensures
            final(self).wf(),
            r == old(self)@.may_start(ticket),
            final(self)@ == old(self)@.start(ticket),
    {
        if self.running.is_none() && self.waiting.len() > 0 && self.waiting[0] == ticket {
            self.waiting.remove(0);
            self.running = Some(ticket);
            proof {
                assert(self.waiting@.no_duplicates());
                assert(!self.waiting@.contains(ticket));
            }
            true
        } else {
            false
        }
    }

    /// The request with `ticket` has left the guest: the guest is free
    /// for the next one. Returns whether that request was in the guest.
    pub fn finish(&mut self, ticket: u64) -> (r: bool)
        requires
            old(self).wf(),
        ensures
            final(self).wf(),
            r == (old(self)@.running == Some(ticket)),
            final(self)@ == old(self)@.finish(ticket),
    {
        match self.running {
            Some(t) => {
                if t == ticket {
                    self.running = None;
                    true
                } else {
                    false
                }
            },
            None => false,
        }
    }

    /// Where `ticket` waits, if it waits.
    fn find(&self, ticket: u64) -> (r: Option<usize>)
        ensures
            match r {
                Some(i) => i < self.waiting.len() && self.waiting@[i as int] == ticket,
                None => !self.waiting@.contains(ticket),
            },
    {
        let mut i: usize = 0;
        while i < self.waiting.len()
            invariant
                0 <= i <= self.waiting.len(),
                forall|k: int| 0 <= k < i ==> self.waiting@[k] != ticket,
            decreases self.waiting.len() - i,
        {
            if self.waiting[i] == ticket {
                return Some(i);
            }
            i = i + 1;
        }
        None
    }

    /// The request with `ticket` gives up waiting; those behind it move up.
    pub fn abandon(&mut self, ticket: u64)
        requires
            old(self).wf(),
        ensures
            final(self).wf(),
            final(self)@ == old(self)@.abandon(ticket),
    {
        if let Some(i) = self.find(ticket) {
            proof {
                lemma_without(self.waiting@, ticket);
                lemma_turnstile_stays_in_order(self@, Turn::Abandon { ticket });
                assert(place(self.waiting@, ticket) == i);
            }
            self.waiting.remove(i);
        }
    }
}

/// Requests to one worker do not overlap in the guest: a request enters
/// only a free guest, and while it is in the guest no other request
/// enters, whatever else happens at the turnstile, until it has left.
pub proof fn lemma_one_request_in_the_guest(turnstile: TurnstileView, ticket: u64, other: u64)
    requires
        turnstile.wf(),
    ensures
        turnstile.may_start(ticket) ==> turnstile.running is None && turnstile.start(ticket).running == Some(ticket),
        turnstile.running == Some(ticket) ==> !turnstile.may_start(other),
        turnstile.running == Some(ticket) ==> turnstile.arrive().0.running == Some(ticket) && turnstile.start(
            other,
        ).running == Some(ticket) && turnstile.abandon(other).running == Some(ticket),
        turnstile.running == Some(ticket) && other != ticket ==> turnstile.finish(other).running == Some(
            ticket,
        ),
        turnstile.finish(ticket).running != Some(ticket),
{
}

/// Requests enter the guest in the order in which they came: a request
/// does not enter while another that came before it still waits.
pub proof fn lemma_first_come_first_served(turnstile: TurnstileView, first: int, second: int)
    requires
        turnstile.wf(),
        0 <= first < second < turnstile.waiting.len(),
    ensures
        !turnstile.may_start(turnstile.waiting[second]),
        turnstile.arrive().0.waiting.subrange(0, turnstile.waiting.len() as int) == turnstile.waiting,
{
}

/// What happens at a turnstile.
pub ghost enum Turn {
    Arrive,
    Start { ticket: u64 },
    Finish { ticket: u64 },
    Abandon { ticket: u64 },
}

impl TurnstileView {
    /// The turnstile after `turn`.
    pub open spec fn step(self, turn: Turn) -> TurnstileView {
        match turn {
            Turn::Arrive => self.arrive().0,
            Turn::Start { ticket } => self.start(ticket),
            Turn::Finish { ticket } => self.finish(ticket),
            Turn::Abandon { ticket } => self.abandon(ticket),
        }
    }
}

/// The turnstile after a history of turns, from one at which nobody waits.
pub open spec fn turned(history: Seq<Turn>) -> TurnstileView
    decreases history.len(),
{
    if history.len() == 0 {
        TurnstileView { running: None, waiting: Seq::empty(), issued: 0 }
    } else {
        turned(history.drop_last()).step(history.last())
    }
}

/// The requests that are in the guest after a history of turns: a
/// request is in the guest from the turn at which it was let in until the
/// turn at which it leaves.
pub open spec fn in_the_guest(history: Seq<Turn>) -> Set<u64>
    decreases history.len(),
{
    if history.len() == 0 {
        Set::empty()
    } else {
        let before = in_the_guest(history.drop_last());
        match history.last() {
            Turn::Start { ticket } => if turned(history.drop_last()).may_start(ticket) {
                before.insert(ticket)
            } else {
                before
            },
            Turn::Finish { ticket } => before.remove(ticket),
            _ => before,
        }
    }
}

/// Whatever the requests do, the turnstile stays in order.
pub proof fn lemma_turnstile_stays_in_order(turnstile: TurnstileView, turn: Turn)
    requires
        turnstile.wf(),
    ensures
        turnstile.step(turn).wf(),
{
    match turn {
        Turn::Arrive => {},
        Turn::Start { ticket } => {
            if turnstile.may_start(ticket) {
                let before = turnstile.waiting;
                let rest = before.drop_first();
                assert forall|i: int, j: int| 0 <= i < j < rest.len() implies rest[i] != rest[j] by {
                    assert(before[i + 1] != before[j + 1]);
                }
                assert forall|i: int| 0 <= i < rest.len() implies rest[i] != ticket by {
                    assert(before[i + 1] != before[0]);
                }
            }
        },
        Turn::Finish { ticket } => {},
        Turn::Abandon { ticket } => {
            lemma_without(turnstile.waiting, ticket);
            let left = without(turnstile.waiting, ticket);
            assert forall|i: int| 0 <= i < left.len() implies #[trigger] left[i] < turnstile.issued by {
                assert(turnstile.waiting.contains(left[i]));
            }
            if let Some(running) = turnstile.running {
                if left.contains(running) {
                    let k = choose|k: int| 0 <= k < left.len() && left[k] == running;
                    assert(turnstile.waiting.contains(left[k]));
                }
            }
        },
    }
}

/// Whatever the requests do, the requests in the guest are the one that
/// the turnstile has let in, if it has let one in.
pub proof fn lemma_guest_holds_whom_the_turnstile_let_in(history: Seq<Turn>)
    ensures
        turned(history).wf(),
        in_the_guest(history) == match turned(history).running {
            Some(ticket) => set![ticket],
            None => Set::empty(),
        },
    decreases history.len(),
{
    if history.len() > 0 {
        lemma_guest_holds_whom_the_turnstile_let_in(history.drop_last());
        lemma_turnstile_stays_in_order(turned(history.drop_last()), history.last());
    }
}

/// At most one request is in the guest of a worker at any time: two
/// requests that are in the guest are one and the same.
pub proof fn lemma_at_most_one_request_in_the_guest(history: Seq<Turn>, one: u64, other: u64)
    requires
        in_the_guest(history).contains(one),
        in_the_guest(history).contains(other),
    ensures
        one == other,
{
    lemma_guest_holds_whom_the_turnstile_let_in(history);
}

} // verus!

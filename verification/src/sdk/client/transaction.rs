//! Transactions that are tried again where the database asks for it.

use vstd::prelude::*;
use crate::server::abi::client_v1::{has_retry_tag, should_retry};

verus! {

/// How often the body of a transaction is run at most.
pub const MAX_ITERATIONS: u32 = 3;

/// The transaction that the body of [`transaction`] works on: which
/// attempt it is, and the handle of the transaction in the database once
/// the first query has opened it.
#[derive(Debug)]
pub struct Transaction<H> {
    pub iteration: u32,
    pub transaction: Option<H>,
}

impl<H> Transaction<H> {
    /// The transaction of the attempt `iteration`, not yet opened.
    pub fn new(iteration: u32) -> (r: Transaction<H>)
        ensures
            r == (Transaction::<H> { iteration, transaction: None }),
    {
        Transaction { iteration, transaction: None }
    }

    /// Whether the transaction has been opened, so that a query need not
    /// open it first.
    pub fn is_open(&self) -> (r: bool)
        ensures
            r == self.transaction is Some,
    {
        self.transaction.is_some()
    }

    /// Notes that the transaction has been opened under `handle`.
    pub fn opened(&mut self, handle: H)
        ensures
            *final(self) == (Transaction::<H> {
                iteration: old(self).iteration,
                transaction: Some(handle),
            }),
    {
        self.transaction = Some(handle);
    }

    /// The handle by which the transaction is committed or rolled back;
    /// the transaction counts as not open from then on.
    pub fn take(&mut self) -> (r: Option<H>)
        ensures
            r == old(self).transaction,
            *final(self) == (Transaction::<H> { iteration: old(self).iteration, transaction: None }),
    {
        self.transaction.take()
    }
}

/// Whether one of the errors with these codes asks for another attempt.
pub open spec fn any_retry_tag(codes: Seq<u32>) -> bool {
    exists|i: int| 0 <= i < codes.len() && has_retry_tag(#[trigger] codes[i])
}

/// Whether an error whose chain of causes holds errors of the database
/// with these codes asks for another attempt: one with the tag does.
pub fn is_retryable(codes: &Vec<u32>) -> (r: bool)
    ensures
        r == any_retry_tag(codes@),
{
    let mut i: usize = 0;
    while i < codes.len()
        invariant
            0 <= i <= codes.len(),
            forall|j: int| 0 <= j < i ==> !has_retry_tag(#[trigger] codes@[j]),
        decreases codes.len() - i,
    {
        if should_retry(codes[i]) {
            return true;
        }
        i = i + 1;
    }
    false
}

/// Whether another attempt follows on `attempts` failed ones, the last
/// of which failed with an error that asks for one or not.
pub open spec fn goes_on(attempts: u32, retryable: bool) -> bool {
    retryable && attempts < MAX_ITERATIONS
}

/// Whether another attempt follows on `attempts` failed ones.
pub fn retry(attempts: u32, retryable: bool) -> (r: bool)
    ensures
        r == goes_on(attempts, retryable),
{
    retryable && attempts < MAX_ITERATIONS
}

/// Whether run `i` of `body` may have failed with an error that asks for
/// another attempt, and the transaction then have been rolled back.
pub open spec fn retried<T, E, B, S, R>(body: B, settle: S, retryable: R, i: u32) -> bool where
    B: Fn(u32) -> Result<T, E>,
    S: Fn(bool) -> Result<(), E>,
    R: Fn(&E) -> bool,
 {
    exists|e: E| #[trigger]
        call_ensures(body, (i,), Err::<T, E>(e)) && call_ensures(retryable, (&e,), true)
            && call_ensures(settle, (false,), Ok::<(), E>(()))
}

/// Runs `body` until it succeeds, until it fails with an error for which
/// `retryable` does not hold, or until it has run `MAX_ITERATIONS` times.
/// After each run `settle` ends the transaction: with `true` it commits,
/// with `false` it rolls back; an error of `settle` ends the whole.
/// Returns the value of the last run, or the error that ended the whole,
/// and the number of runs.
pub fn transaction<T, E, B, S, R>(body: B, settle: S, retryable: R) -> (r: (Result<T, E>, u32))
    where
        B: Fn(u32) -> Result<T, E>,
        S: Fn(bool) -> Result<(), E>,
        R: Fn(&E) -> bool,

    requires
        forall|i: u32| call_requires(body, (i,)),
        forall|commit: bool| call_requires(settle, (commit,)),
        forall|e: &E| call_requires(retryable, (e,)),
    ensures
        1 <= r.1 <= MAX_ITERATIONS,
        match r.0 {
            Ok(value) => call_ensures(body, ((r.1 - 1) as u32,), Ok::<T, E>(value)) && call_ensures(
                settle,
                (true,),
                Ok::<(), E>(()),
            ),
            Err(e) => {
                ||| exists|value: T|
                    call_ensures(body, ((r.1 - 1) as u32,), Ok::<T, E>(value)) && call_ensures(
                        settle,
                        (true,),
                        Err::<(), E>(e),
                    )
                ||| exists|cause: E|
                    call_ensures(body, ((r.1 - 1) as u32,), Err::<T, E>(cause)) && call_ensures(
                        settle,
                        (false,),
                        Err::<(), E>(e),
                    )
                ||| call_ensures(body, ((r.1 - 1) as u32,), Err::<T, E>(e)) && call_ensures(
                    settle,
                    (false,),
                    Ok::<(), E>(()),
                ) && (call_ensures(retryable, (&e,), false) || r.1 == MAX_ITERATIONS)
            },
        },
        forall|i: u32| i + 1 < r.1 ==> #[trigger] retried(body, settle, retryable, i),
{
    let mut attempts: u32 = 0;
    loop
        invariant
            attempts < MAX_ITERATIONS,
            forall|i: u32| call_requires(body, (i,)),
            forall|commit: bool| call_requires(settle, (commit,)),
            forall|e: &E| call_requires(retryable, (e,)),
            forall|i: u32| i < attempts ==> #[trigger] retried(body, settle, retryable, i),
        decreases MAX_ITERATIONS - attempts,
    {
        let result = body(attempts);
        match result {
            Ok(value) => {
                let committed = settle(true);
                match committed {
                    Ok(done) => {
                        assert(call_ensures(settle, (true,), Ok::<(), E>(done)));
                        return (Ok(value), attempts + 1);
                    },
                    Err(e) => {
                        return (Err(e), attempts + 1);
                    },
                }
            },
            Err(e) => {
                let rolled_back = settle(false);
                match rolled_back {
                    Ok(done) => {
                        assert(call_ensures(settle, (false,), Ok::<(), E>(done)));
                    },
                    Err(failure) => {
                        return (Err(failure), attempts + 1);
                    },
                }
                let again = retryable(&e);
                if !retry(attempts + 1, again) {
                    return (Err(e), attempts + 1);
                }
                attempts = attempts + 1;
            },
        }
    }
}

} // verus!

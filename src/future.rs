//! Values that resolve later: ready values, a randomly chosen one, results,
//! and a value forwarded after a delay.
//!
//! Each producer states, through the future's view `r@`, the value it
//! resolves to when awaited. Delays are handed in as futures of `()`: a timer
//! can only be made inside a running executor, which the caller owns.
use vstd::prelude::*;
use vstd::future::FutureAdditionalSpecFns;
use std::convert::Infallible;
use std::future::Future;
use futures::future::Ready;

verus! {

/// What the ready producers resolve to.
pub const READY_VALUE: i32 = 42;

/// What the randomly chosen producer resolves to on its second branch.
pub const OTHER_VALUE: i32 = 1337;

/// The delay, in milliseconds, for the timer that callers hand to
/// `returns_delayed_future`. The library makes no timer itself.
pub const DELAY_MS: u64 = 500;

/// The delay, in milliseconds, for the timer that callers hand to `wait_a_sec`.
/// The library makes no timer itself.
pub const WAIT_MS: u64 = 1000;

#[verifier::external_type_specification]
#[verifier::external_body]
#[verifier::reject_recursive_types(T)]
pub struct ExReady<T>(Ready<T>);

/// Relies on futures::future::ready: the future yields `t` on its first poll.
pub assume_specification<T>[ futures::future::ready::<T> ](t: T) -> (r: Ready<T>)
    ensures
        r@ == t,
;

/// Relies on futures::future::ok: the future yields `Ok(t)` on its first poll.
pub assume_specification<T, E>[ futures::future::ok::<T, E> ](t: T) -> (r: Ready<Result<T, E>>)
    ensures
        r@ is Ok && r@->Ok_0 == t,
;

/// Relies on rand::random, here for a `bool`: any value may come back.
pub assume_specification<T>[ rand::random::<T> ]() -> (r: T)
    where
        rand::distributions::Standard: rand::distributions::Distribution<T>,
;

/// Relies on futures' FutureExt::map: `d` is run to completion before the
/// closure is called, and the closure's value `v` is what the future yields.
#[verifier::external_body]
fn map_to<D: Future, T>(d: D, v: T) -> (r: impl Future<Output = T>)
    ensures
        r@ == v,
        r.awaited() ==> d.awaited(),
{
    futures::future::FutureExt::map(d, move |_| v)
}

/// Relies on futures' FutureExt::flatten: `g` is run to completion first; the
/// future it yields is then awaited and its output is what the result yields.
#[verifier::external_body]
fn flatten_future<G: Future>(g: G) -> (r: impl Future<Output = <G::Output as Future>::Output>)
    where
        G::Output: Future,
    ensures
        r@ == g@@,
        r.awaited() ==> g.awaited(),
{
    futures::future::FutureExt::flatten(g)
}

/// The error of `returns_future_result_dyn_error`: a failure of any kind,
/// described by its message. No producer here ever yields one.
pub struct ErasedError {
    pub message: String,
}

/// A future that is ready at once with `READY_VALUE`.
pub fn returns_impl_future_i32() -> (r: impl Future<Output = i32>)
    ensures
        r@ == READY_VALUE,
{
    futures::future::ready(READY_VALUE)
}

/// A ready future whose value is chosen by `pick_first`: `READY_VALUE` when it
/// holds, `OTHER_VALUE` when not.
pub fn returns_dyn_future_with(pick_first: bool) -> (r: impl Future<Output = i32>)
    ensures
        r@ == (if pick_first { READY_VALUE } else { OTHER_VALUE }),
{
    let value: i32 = if pick_first { READY_VALUE } else { OTHER_VALUE };
    futures::future::ready(value)
}

/// A ready future whose value is `READY_VALUE` or `OTHER_VALUE`, chosen at random.
pub fn returns_dyn_future_i32() -> (r: impl Future<Output = i32>)
    ensures
        r@ == READY_VALUE || r@ == OTHER_VALUE,
{
    let pick_first: bool = rand::random();
    returns_dyn_future_with(pick_first)
}

/// A future that is ready at once with `Ok(READY_VALUE)`; its error type has no values.
pub fn returns_future_result() -> (r: impl Future<Output = Result<i32, Infallible>>)
    ensures
        r@ is Ok && r@->Ok_0 == READY_VALUE,
{
    futures::future::ok(READY_VALUE)
}

/// A future that is ready at once with `Ok(READY_VALUE)`, under an error type
/// that can stand for any failure.
pub fn returns_future_result_dyn_error() -> (r: impl Future<Output = Result<i32, ErasedError>>)
    ensures
        r@ is Ok && r@->Ok_0 == READY_VALUE,
{
    futures::future::ok(READY_VALUE)
}

/// Waits for `delay`, then yields whatever `f` yields: the result completes
/// only once `delay` has, and `f` is not polled before that.
pub fn wait_a_sec<D, F>(delay: D, f: F) -> (r: impl Future<Output = F::Output>)
    where
        D: Future<Output = ()>,
        F: Future,
    ensures
        r@ == f@,
        r.awaited() ==> delay.awaited(),
{
    flatten_future(map_to(delay, f))
}

/// Waits for `delay`, then yields `READY_VALUE`: the result completes only
/// once `delay` has.
pub fn returns_delayed_future<D>(delay: D) -> (r: impl Future<Output = i32>)
    where
        D: Future<Output = ()>,
    ensures
        r@ == READY_VALUE,
        r.awaited() ==> delay.awaited(),
{
    wait_a_sec(delay, futures::future::ready(READY_VALUE))
}

} // verus!

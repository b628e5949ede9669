//! The correlation client: the public-facing object that issues requests and
//! runs the background completer.
//!
//! The registry (and with it the allocator's counter) sits behind a
//! reader-writer lock whose invariant is the registry's well-formedness, and
//! is shared, through an `Arc`, with the completer thread.  The lock is held
//! only for the duration of an insert or remove, never while waiting for a
//! completion.

use crate::channel::{poll_shutdown, recv_value, single_slot_channel, ShutdownPoll};
use crate::registry::{Registry, Response, RpcError};
use std::sync::Arc;
use vstd::prelude::*;
use vstd::rwlock::{RwLock, RwLockPredicate};
use vstd::*;

verus! {

/// The lock invariant of the shared registry: every value stored in the lock
/// is well-formed, whichever thread put it there.
pub struct RegistryPred {}

impl RwLockPredicate<Registry> for RegistryPred {
    open spec fn inv(self, v: Registry) -> bool {
        v.wf()
    }
}

/// Milliseconds the completer waits between completion cycles.
pub const COMPLETION_INTERVAL_MILLIS: u64 = 100;

/// The background completer: each cycle waits one interval on the
/// shutdown channel, and on a timeout removes one in-flight entry, if any,
/// and delivers its response.  It stops when a shutdown signal arrives or the
/// signalling side is dropped with the client.  The cycle budget is
/// effectively unbounded; it is what makes the loop provably terminating.
fn run_completer(
    registry: Arc<RwLock<Registry, RegistryPred>>,
    shutdown_rx: flume::Receiver<()>,
    max_cycles: u64,
) {
    let mut remaining: u64 = max_cycles;
    while 0 < remaining
        decreases remaining,
    {
        remaining = remaining - 1;
        match poll_shutdown(&shutdown_rx, COMPLETION_INTERVAL_MILLIS) {
            ShutdownPoll::TimedOut => {
                let (mut reg, handle) = registry.acquire_write();
                let _ = reg.complete_one();
                handle.release_write(reg);
            },
            ShutdownPoll::Signalled => {
                return;
            },
            ShutdownPoll::Disconnected => {
                return;
            },
        }
    }
}

/// The correlation client.  It owns the shared registry, and the shutdown
/// side of the background completer once that has been started.
pub struct MyRpc {
    inflight_messages: Arc<RwLock<Registry, RegistryPred>>,
    background_thread: Option<thread::JoinHandle<()>>,
    shutdown_tx: Option<flume::Sender<()>>,
}

impl MyRpc {
    /// Whether the background completer has been started.
    pub closed spec fn background_started(self) -> bool {
        self.background_thread is Some
    }

    /// An idle client: an empty registry, the allocator at zero, and no
    /// background completer yet.
    pub fn new() -> (r: Self)
        ensures
            !r.background_started(),
    {
        MyRpc {
            inflight_messages: Arc::new(RwLock::new(Registry::new(), Ghost(RegistryPred {}))),
            background_thread: None,
            shutdown_tx: None,
        }
    }

    /// Starts the background completer at most once per client: calling it
    /// again while one is running changes nothing (idempotent start).
    pub fn start_background_processor(&mut self)
        ensures
            final(self).background_started(),
            old(self).background_started() ==> *final(self) == *old(self),
    {
        if self.background_thread.is_some() {
            return;
        }
        let (shutdown_tx, shutdown_rx) = single_slot_channel();
        let registry = self.inflight_messages.clone();
        let handle = thread::spawn(
            (move || {
                run_completer(registry, shutdown_rx, u64::MAX);
            }),
        );
        self.background_thread = Some(handle);
        self.shutdown_tx = Some(shutdown_tx);
    }

    /// Issues a request under the registry lock and
    /// hands back the allocated identifier with the receive end to wait on.
    /// The asynchronous entry points are built on this; `Err` is the refused
    /// registration of a still in-flight identifier.
    pub fn begin_request(&self) -> (r: Result<(u16, flume::Receiver<Response>), RpcError>)
        ensures
            r matches Err(e) ==> e == RpcError::DuplicateIdentifier,
    {
        let (mut reg, handle) = self.inflight_messages.acquire_write();
        let r = reg.begin_request();
        handle.release_write(reg);
        r
    }

    /// Issues two requests in one critical section: both entries are
    /// registered before either receive end is waited on.
    pub fn begin_request_pair(&self) -> (r: Result<
        ((u16, flume::Receiver<Response>), (u16, flume::Receiver<Response>)),
        RpcError,
    >)
        ensures
            r matches Ok(p) ==> p.0.0 != p.1.0,
            r matches Err(e) ==> e == RpcError::DuplicateIdentifier,
    {
        let (mut reg, handle) = self.inflight_messages.acquire_write();
        let r = reg.begin_request_pair();
        handle.release_write(reg);
        r
    }

    /// Sends a request and blocks the calling thread until its response
    /// arrives: the synchronous dual of request issuance.  With no background completer
    /// started the wait never ends: no timeout policy exists.
    pub fn request_sync(&mut self) -> (r: Result<Response, RpcError>)
        ensures
            *final(self) == *old(self),
            r matches Err(e) ==> e == RpcError::DeliveryFailure || e
                == RpcError::DuplicateIdentifier,
    {
        match self.begin_request() {
            Err(e) => Err(e),
            Ok((_id, rx)) => await_response(recv_value(rx)),
        }
    }

    /// Sends two requests, both in flight at once, and blocks until both
    /// responses arrive; a failure of either is the failure of the pair, and
    /// the surviving response, if any, is discarded.
    pub fn request_two_sync(&mut self) -> (r: Result<(Response, Response), RpcError>)
        ensures
            *final(self) == *old(self),
            r matches Err(e) ==> e == RpcError::DeliveryFailure || e
                == RpcError::DuplicateIdentifier,
    {
        match self.begin_request_pair() {
            Err(e) => Err(e),
            Ok((first, second)) => match await_response(recv_value(first.1)) {
                Err(e) => Err(e),
                Ok(v1) => match await_response(recv_value(second.1)) {
                    Err(e) => Err(e),
                    Ok(v2) => Ok((v1, v2)),
                },
            },
        }
    }
}

/// Maps the outcome of a wait on a completion channel to the engine's error
/// taxonomy: a channel closed without a value is a delivery failure.
pub fn await_response(outcome: Option<Response>) -> (r: Result<Response, RpcError>)
    ensures
        r matches Ok(v) ==> outcome == Some(v),
        r is Err <==> outcome is None,
        r matches Err(e) ==> e == RpcError::DeliveryFailure,
{
    match outcome {
        Some(v) => Ok(v),
        None => Err(RpcError::DeliveryFailure),
    }
}

} // verus!

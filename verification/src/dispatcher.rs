//! The dispatcher: the host-side half of the bridge. It owns the sending
//! end of the dispatch channel and the pending counter, and offers the
//! worker-side completion step that queues an outcome on the result channel.
//! The channels themselves come from crossbeam and are trusted at the
//! boundary; everything decided around them is verified.

use vstd::prelude::*;
use crate::http::HTTPRequest;
use crate::outcome::CallbackResult;
use crate::outcome::ResponseParts;
use crate::outcome::outcome_of;
use crate::pending::PendingCounter;

verus! {

#[verifier::external_type_specification]
#[verifier::external_body]
#[verifier::reject_recursive_types(T)]
pub struct ExSender<T>(crossbeam::channel::Sender<T>);

#[verifier::external_type_specification]
#[verifier::external_body]
#[verifier::reject_recursive_types(T)]
pub struct ExReceiver<T>(crossbeam::channel::Receiver<T>);

/// What one non-blocking poll of a channel produced.
#[derive(Debug, PartialEq, Eq)]
pub enum Polled<T> {
    /// A queued message, removed from the channel.
    Item(T),
    /// No message was queued; the sending side is still alive.
    Empty,
    /// No message was queued and every sender has been dropped.
    Disconnected,
}

/// Relies on crossbeam::channel::unbounded: creates a connected
/// channel pair of unlimited capacity.
#[verifier::external_body]
fn unbounded_channel<T>() -> (r: (
    crossbeam::channel::Sender<T>,
    crossbeam::channel::Receiver<T>,
))
{
    crossbeam::channel::unbounded()
}

/// Relies on crossbeam::channel::Sender::send: on an unbounded channel it
/// never blocks, and it fails exactly when the receiver has been dropped.
#[verifier::external_body]
fn channel_send<T>(tx: &crossbeam::channel::Sender<T>, value: T) -> (ok: bool) {
    tx.send(value).is_ok()
}

/// Relies on crossbeam::channel::Receiver::try_recv: it pops a queued
/// message if one is immediately available and otherwise reports an empty or
/// disconnected channel, never blocking either way.
#[verifier::external_body]
fn channel_try_recv<T>(rx: &crossbeam::channel::Receiver<T>) -> (r: Polled<T>) {
    match rx.try_recv() {
        Ok(v) => Polled::Item(v),
        Err(crossbeam::channel::TryRecvError::Empty) => Polled::Empty,
        Err(crossbeam::channel::TryRecvError::Disconnected) => Polled::Disconnected,
    }
}

/// Submission failed because the worker's receiving end is gone while
/// submissions are still arriving — a lifecycle defect, not a request error.
#[derive(Debug, PartialEq, Eq)]
pub enum SubmitError {
    ChannelDown,
}

/// The host-side dispatcher: the sending end of the dispatch channel and
/// the pending counter that drives the polling trigger.
pub struct Dispatcher {
    pub tx: crossbeam::channel::Sender<HTTPRequest>,
    pub counter: PendingCounter,
}

impl Dispatcher {
    /// Creates the dispatcher and the receiving end its worker will drain.
    /// Both ends exist before any worker starts, so a submission can never
    /// race a half-initialised channel.
    pub fn new() -> (r: (Dispatcher, crossbeam::channel::Receiver<HTTPRequest>))
        ensures
            r.0.counter.pending == 0,
            !r.0.counter.hook_installed,
            r.0.counter.wf(),
    {
        let (tx, rx) = unbounded_channel::<HTTPRequest>();
        (Dispatcher { tx, counter: PendingCounter::new() }, rx)
    }

    /// Hands a validated request to the worker without blocking.
    ///
    /// On success the pending counter accounts for the submission — a
    /// request with no callback gives its slot back at once, since no
    /// outcome will ever arrive for it — and the caller learns whether the
    /// polling trigger must be installed. If the worker has already torn
    /// down, the request is dropped and the counter is left untouched.
    pub fn submit(&mut self, request: HTTPRequest) -> (r: Result<bool, SubmitError>)
        requires
            old(self).counter.pending < usize::MAX,
        ensures
            old(self).counter.wf() ==> final(self).counter.wf(),
            match r {
                Ok(install) => {
                    let counted = request.success is Some || request.failed is Some;
                    &&& counted ==> final(self).counter.pending == old(self).counter.pending + 1
                        && final(self).counter.hook_installed
                    &&& !counted ==> final(self).counter == old(self).counter
                    &&& install == (counted && !old(self).counter.hook_installed)
                },
                Err(e) => e == SubmitError::ChannelDown && final(self).counter == old(
                    self,
                ).counter,
            },
    {
        let counted = request.success.is_some() || request.failed.is_some();
        if channel_send(&self.tx, request) {
            let install = self.counter.on_submit(counted);
            Ok(install)
        } else {
            Err(SubmitError::ChannelDown)
        }
    }
}

/// Creates the result channel: worker tasks queue outcomes on the sending
/// end, the host drains the receiving end from its polling trigger.
pub fn result_channel() -> (r: (
    crossbeam::channel::Sender<CallbackResult>,
    crossbeam::channel::Receiver<CallbackResult>,
))
{
    unbounded_channel::<CallbackResult>()
}

/// One non-blocking poll of the result channel, as the drain loop performs
/// it: whatever is immediately available, and nothing else.
pub fn poll_outcome(rx: &crossbeam::channel::Receiver<CallbackResult>) -> (r: Polled<
    CallbackResult,
>) {
    channel_try_recv(rx)
}

/// How a worker task's completion step ended.
#[derive(Debug, PartialEq, Eq)]
pub enum Completion {
    /// The outcome owed for the request was queued for the host.
    Delivered,
    /// The request owed no outcome: it registered no callback at all.
    NothingOwed,
    /// The host's receiving end is gone while a task is still finishing —
    /// a lifecycle defect; the outcome is lost.
    ChannelDown,
}

/// The completion step of one worker task: builds the outcome owed for the
/// finished request and queues it on the result channel.
///
/// Exactly one outcome is queued per request that registered a callback,
/// whatever the response was; a request that registered none owes nothing.
pub fn complete_request(
    tx: &crossbeam::channel::Sender<CallbackResult>,
    response: Result<ResponseParts, String>,
    success: Option<crate::http::LuaReference>,
    failed: Option<crate::http::LuaReference>,
) -> (r: Completion)
    ensures
        r == Completion::NothingOwed <==> outcome_of(response, success, failed) is None,
        r == Completion::NothingOwed <==> success is None && failed is None,
{
    match CallbackResult::from_response(response, success, failed) {
        None => Completion::NothingOwed,
        Some(outcome) => {
            if channel_send(tx, outcome) {
                Completion::Delivered
            } else {
                Completion::ChannelDown
            }
        },
    }
}

} // verus!

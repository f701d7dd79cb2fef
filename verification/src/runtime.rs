//! The life cycle of the runtime handles that Python holds: a system is attached
//! once, a node is started once, and a running actor's handle serves calls until
//! it is handed to the shutdown wait. Also the defaults of calls and the outcome
//! of stream callbacks.
use vstd::prelude::*;
use vstd::string::*;

use crate::errors::{join2, BindingError, ProtocolFault, PyErrorClass};
use crate::types::PayloadType;

verus! {

/// The handle's content once it has been taken: nothing.
pub open spec fn after_take<T>(slot: Option<T>) -> Option<T> {
    None
}

/// Taking the handle's content succeeds exactly when it is still there.
pub open spec fn take_allowed<T>(slot: Option<T>) -> bool {
    slot is Some
}

/// Python's handle of an actor system that has not been attached yet.
#[derive(Debug)]
pub struct ActrSystemPy<S> {
    inner: Option<S>,
}

impl<S> ActrSystemPy<S> {
    /// The system that the handle still holds, if any.
    pub closed spec fn slot(&self) -> Option<S> {
        self.inner
    }

    /// A handle holding a freshly created system.
    pub fn new(system: S) -> (r: Self)
        ensures
            r.slot() == Some(system),
    {
        ActrSystemPy { inner: Some(system) }
    }

    /// Takes the system out to attach a workload to it; a second attach fails.
    pub fn take_for_attach(&mut self) -> (r: Result<S, BindingError>)
        ensures
            final(self).slot() == after_take(old(self).slot()),
            r is Ok <==> take_allowed(old(self).slot()),
            r is Ok ==> old(self).slot() == Some(r->Ok_0),
            r matches Err(e) ==> e.class == PyErrorClass::RuntimeError
                && e.message@ == "ActrSystem already consumed (attach called twice)"@,
    {
        match self.inner.take() {
            Some(s) => Ok(s),
            None => Err(BindingError {
                class: PyErrorClass::RuntimeError,
                message: String::from_str("ActrSystem already consumed (attach called twice)"),
            }),
        }
    }
}

/// The error raised when attach cannot find Python's event loop.
pub fn event_loop_failure(detail: &str) -> (r: BindingError)
    ensures
        r.class == PyErrorClass::RuntimeError,
        r.message@ == "Failed to get event loop: "@ + detail@,
{
    BindingError { class: PyErrorClass::RuntimeError, message: join2("Failed to get event loop: ", detail) }
}

/// The two ways of starting a node.
#[derive(Clone, Copy, Debug, PartialEq, Eq, Structural)]
pub enum StartMode {
    Start,
    TryStart,
}

/// The error raised when a node is started a second time.
pub open spec fn node_consumed_text(mode: StartMode) -> Seq<char> {
    match mode {
        StartMode::Start => "ActrNode already consumed (start called twice)"@,
        StartMode::TryStart => "ActrNode already consumed (try_start called twice)"@,
    }
}

/// Python's handle of a node that has not been started yet.
#[derive(Debug)]
pub struct ActrNodePy<N> {
    inner: Option<N>,
}

impl<N> ActrNodePy<N> {
    /// The node that the handle still holds, if any.
    pub closed spec fn slot(&self) -> Option<N> {
        self.inner
    }

    /// A handle holding a node returned by attach.
    pub fn new(node: N) -> (r: Self)
        ensures
            r.slot() == Some(node),
    {
        ActrNodePy { inner: Some(node) }
    }

    /// Takes the node out to start it; a node starts at most once, whichever
    /// way it was started before.
    pub fn take_for_start(&mut self, mode: StartMode) -> (r: Result<N, BindingError>)
        ensures
            final(self).slot() == after_take(old(self).slot()),
            r is Ok <==> take_allowed(old(self).slot()),
            r is Ok ==> old(self).slot() == Some(r->Ok_0),
            r matches Err(e) ==> e.class == PyErrorClass::RuntimeError
                && e.message@ == node_consumed_text(mode),
    {
        match self.inner.take() {
            Some(n) => Ok(n),
            None => {
                let message = match mode {
                    StartMode::Start => String::from_str("ActrNode already consumed (start called twice)"),
                    StartMode::TryStart => String::from_str(
                        "ActrNode already consumed (try_start called twice)",
                    ),
                };
                Err(BindingError { class: PyErrorClass::RuntimeError, message })
            },
        }
    }
}

/// Python's handle of a running actor.
#[derive(Debug)]
pub struct ActrRefPy<R> {
    inner: Option<R>,
}

impl<R> ActrRefPy<R> {
    /// The running actor that the handle still holds, if any.
    pub closed spec fn slot(&self) -> Option<R> {
        self.inner
    }

    /// A handle holding a started actor.
    pub fn new(actr_ref: R) -> (r: Self)
        ensures
            r.slot() == Some(actr_ref),
    {
        ActrRefPy { inner: Some(actr_ref) }
    }

    /// The running actor, for a call, a message, its identity or a shutdown.
    pub fn current(&self) -> (r: Result<&R, BindingError>)
        ensures
            r is Ok <==> self.slot() is Some,
            r is Ok ==> self.slot() == Some(*r->Ok_0),
            r matches Err(e) ==> e.class == PyErrorClass::RuntimeError
                && e.message@ == "ActrRef has been consumed"@,
    {
        match &self.inner {
            Some(r) => Ok(r),
            None => Err(BindingError {
                class: PyErrorClass::RuntimeError,
                message: String::from_str("ActrRef has been consumed"),
            }),
        }
    }

    /// Takes the running actor out to wait for Ctrl-C and shut it down; the
    /// handle serves nothing afterwards.
    pub fn take_for_shutdown_wait(&mut self) -> (r: Result<R, BindingError>)
        ensures
            final(self).slot() == after_take(old(self).slot()),
            r is Ok <==> take_allowed(old(self).slot()),
            r is Ok ==> old(self).slot() == Some(r->Ok_0),
            r matches Err(e) ==> e.class == PyErrorClass::RuntimeError
                && e.message@ == "ActrRef already consumed"@,
    {
        match self.inner.take() {
            Some(r) => Ok(r),
            None => Err(BindingError {
                class: PyErrorClass::RuntimeError,
                message: String::from_str("ActrRef already consumed"),
            }),
        }
    }
}

/// A handle's content can be taken at most once: whatever it held, after one
/// take it holds nothing, and a further take is refused.
pub proof fn lemma_take_at_most_once<T>(slot: Option<T>)
    ensures
        after_take(slot) is None,
        !take_allowed(after_take(slot)),
        !take_allowed(after_take(after_take(slot))),
{
}

/// How long a call waits for its answer unless the caller says otherwise.
pub const DEFAULT_CALL_TIMEOUT_MS: i64 = 30000;

/// The lane of calls and messages unless the caller names another.
pub fn default_payload_type() -> (p: PayloadType)
    ensures
        p == PayloadType::RpcReliable,
{
    PayloadType::RpcReliable
}

/// The lane that stream chunks are sent on.
pub fn data_stream_payload_type() -> (p: PayloadType)
    ensures
        p == PayloadType::StreamReliable,
{
    PayloadType::StreamReliable
}

/// What happened in the last step of delivering a stream chunk to Python.
#[derive(Debug)]
pub enum StreamCallbackEvent {
    /// The chunk and the sender's identity were turned into Python objects, or not.
    Converted(Result<(), String>),
    /// The task that ran the Python callback finished, or could not be joined.
    Joined(Result<(), String>),
    /// The Python callback returned, or raised.
    Returned(Result<(), String>),
}

/// What the stream delivery does next.
#[derive(Debug)]
pub enum StreamCallbackAction {
    /// Run the Python callback on a blocking task and join it.
    RunCallback,
    /// Look at what the callback returned.
    InspectResult,
    /// The delivery is over with this outcome.
    Finish(Result<(), ProtocolFault>),
}

/// The next step of delivering a stream chunk to the Python callback.
pub fn stream_callback_next(event: StreamCallbackEvent) -> (a: StreamCallbackAction)
    ensures
        match event {
            StreamCallbackEvent::Converted(Ok(_)) => a is RunCallback,
            StreamCallbackEvent::Converted(Err(d)) => a matches StreamCallbackAction::Finish(Err(
                ProtocolFault::TransportError(m),
            )) && m@ == "Failed to convert to Python objects: "@ + d@,
            StreamCallbackEvent::Joined(Ok(_)) => a is InspectResult,
            StreamCallbackEvent::Joined(Err(d)) => a matches StreamCallbackAction::Finish(Err(
                ProtocolFault::TransportError(m),
            )) && m@ == "Task join failed: "@ + d@,
            StreamCallbackEvent::Returned(Ok(_)) => a matches StreamCallbackAction::Finish(Ok(_)),
            StreamCallbackEvent::Returned(Err(d)) => a matches StreamCallbackAction::Finish(Err(
                ProtocolFault::TransportError(m),
            )) && m@ == "Python callback error: "@ + d@,
        },
{
    match event {
        StreamCallbackEvent::Converted(Ok(_)) => StreamCallbackAction::RunCallback,
        StreamCallbackEvent::Converted(Err(d)) => StreamCallbackAction::Finish(
            Err(ProtocolFault::TransportError(join2("Failed to convert to Python objects: ", d.as_str()))),
        ),
        StreamCallbackEvent::Joined(Ok(_)) => StreamCallbackAction::InspectResult,
        StreamCallbackEvent::Joined(Err(d)) => StreamCallbackAction::Finish(
            Err(ProtocolFault::TransportError(join2("Task join failed: ", d.as_str()))),
        ),
        StreamCallbackEvent::Returned(Ok(_)) => StreamCallbackAction::Finish(Ok(())),
        StreamCallbackEvent::Returned(Err(d)) => StreamCallbackAction::Finish(
            Err(ProtocolFault::TransportError(join2("Python callback error: ", d.as_str()))),
        ),
    }
}

} // verus!

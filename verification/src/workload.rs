//! A workload written in Python, as the runtime drives it: the object with its
//! event loop, and the decisions of each step of its life-cycle hooks and of
//! message dispatch. The calls into Python are made by the caller of these step
//! functions, which hands back what happened.
use vstd::prelude::*;
use vstd::string::*;

use crate::errors::{join2, BindingError, ProtocolFault, PyErrorClass};

verus! {

/// A Python workload object and the event loop that its coroutines run on.
#[derive(Debug)]
pub struct PyWorkloadWrapper<O, L> {
    py_obj: O,
    event_loop: Option<L>,
}

impl<O, L> PyWorkloadWrapper<O, L> {
    /// The Python object.
    pub closed spec fn object(&self) -> O {
        self.py_obj
    }

    /// The event loop, once one has been set.
    pub closed spec fn loop_slot(&self) -> Option<L> {
        self.event_loop
    }

    /// Wraps a Python workload object; no event loop is set yet.
    pub fn new(obj: O) -> (r: Self)
        ensures
            r.object() == obj,
            r.loop_slot() is None,
    {
        PyWorkloadWrapper { py_obj: obj, event_loop: None }
    }

    /// Sets the event loop that the workload's coroutines run on.
    pub fn set_event_loop(&mut self, loop_obj: L)
        ensures
            final(self).object() == old(self).object(),
            final(self).loop_slot() == Some(loop_obj),
    {
        self.event_loop = Some(loop_obj);
    }

    pub fn py_obj(&self) -> (r: &O)
        ensures
            *r == self.object(),
    {
        &self.py_obj
    }

    pub fn event_loop(&self) -> (r: Option<&L>)
        ensures
            match self.loop_slot() {
                Some(l) => r matches Some(x) && *x == l,
                None => r is None,
            },
    {
        match &self.event_loop {
            Some(l) => Some(l),
            None => None,
        }
    }
}

/// What happened in the last step of asking the workload for its dispatcher.
#[derive(Debug)]
pub enum LookupEvent {
    /// Whether the object has a `get_dispatcher` attribute, or why that could not be told.
    AttributeChecked(Result<bool, String>),
    /// Whether calling `get_dispatcher()` returned.
    Called(bool),
    /// Whether its result could be kept as a Python object.
    Extracted(bool),
}

/// What the dispatcher lookup does next.
#[derive(Debug)]
pub enum LookupAction {
    CallGetter,
    ExtractObject,
    /// The lookup is over: whether a dispatcher was found.
    Finish(bool),
}

/// The next step of asking the workload for its dispatcher. Every failure on the
/// way counts as no dispatcher.
pub fn dispatcher_lookup_next(event: LookupEvent) -> (a: LookupAction)
    ensures
        match event {
            LookupEvent::AttributeChecked(Ok(true)) => a is CallGetter,
            LookupEvent::AttributeChecked(_) => a == LookupAction::Finish(false),
            LookupEvent::Called(true) => a is ExtractObject,
            LookupEvent::Called(false) => a == LookupAction::Finish(false),
            LookupEvent::Extracted(found) => a == LookupAction::Finish(found),
        },
{
    match event {
        LookupEvent::AttributeChecked(Ok(true)) => LookupAction::CallGetter,
        LookupEvent::AttributeChecked(_) => LookupAction::Finish(false),
        LookupEvent::Called(true) => LookupAction::ExtractObject,
        LookupEvent::Called(false) => LookupAction::Finish(false),
        LookupEvent::Extracted(found) => LookupAction::Finish(found),
    }
}

/// The payload of a request envelope: its bytes, or none at all.
pub fn envelope_payload(payload: Option<Vec<u8>>) -> (r: Vec<u8>)
    ensures
        match payload {
            Some(p) => r@ == p@,
            None => r@ == Seq::<u8>::empty(),
        },
{
    match payload {
        Some(p) => p,
        None => Vec::new(),
    }
}

/// What happened in the last step of dispatching a request to the workload.
#[derive(Debug)]
pub enum DispatchEvent {
    /// Whether the context is the runtime's own.
    ContextResolved(bool),
    /// Whether the workload provided a dispatcher.
    DispatcherLookedUp(bool),
    /// Whether the workload has an event loop.
    EventLoopChecked(bool),
    /// `dispatcher.dispatch(...)` ran: the bytes it returned (none if it
    /// returned something else), or why it failed.
    Called(Result<Option<Vec<u8>>, String>),
}

/// What the dispatch does next.
#[derive(Debug)]
pub enum DispatchAction {
    LookupDispatcher,
    CheckEventLoop,
    CallDispatcher,
    /// The dispatch is over: the response bytes, or the error.
    Finish(Result<Vec<u8>, ProtocolFault>),
}

/// The error when the workload offers no dispatcher for a request.
pub open spec fn missing_dispatcher_text(route_key: Seq<char>) -> Seq<char> {
    "Workload does not provide a dispatcher. Please implement get_dispatcher() method. route_key: "@
        + route_key
}

/// The next step of dispatching the request for `route_key` to the workload.
pub fn dispatch_next(route_key: &str, event: DispatchEvent) -> (a: DispatchAction)
    ensures
        match event {
            DispatchEvent::ContextResolved(true) => a is LookupDispatcher,
            DispatchEvent::ContextResolved(false) => a matches DispatchAction::Finish(Err(
                ProtocolFault::TransportError(m),
            )) && m@ == "Context is not RuntimeContext"@,
            DispatchEvent::DispatcherLookedUp(true) => a is CheckEventLoop,
            DispatchEvent::DispatcherLookedUp(false) => a matches DispatchAction::Finish(Err(
                ProtocolFault::TransportError(m),
            )) && m@ == missing_dispatcher_text(route_key@),
            DispatchEvent::EventLoopChecked(true) => a is CallDispatcher,
            DispatchEvent::EventLoopChecked(false) => a matches DispatchAction::Finish(Err(
                ProtocolFault::TransportError(m),
            )) && m@ == "Event loop not set. Make sure to call attach() from within an async context."@,
            DispatchEvent::Called(Err(d)) => a matches DispatchAction::Finish(Err(
                ProtocolFault::TransportError(m),
            )) && m@ == "Python dispatcher.dispatch call failed: "@ + d@,
            DispatchEvent::Called(Ok(None)) => a matches DispatchAction::Finish(Err(
                ProtocolFault::EncodeError(m),
            )) && m@ == "Python dispatcher.dispatch must return bytes"@,
            DispatchEvent::Called(Ok(Some(b))) => a matches DispatchAction::Finish(Ok(r)) && r@ == b@,
        },
        a matches DispatchAction::Finish(Ok(_)) <==> event matches DispatchEvent::Called(Ok(Some(_))),
{
    match event {
        DispatchEvent::ContextResolved(true) => DispatchAction::LookupDispatcher,
        DispatchEvent::ContextResolved(false) => DispatchAction::Finish(
            Err(ProtocolFault::TransportError(String::from_str("Context is not RuntimeContext"))),
        ),
        DispatchEvent::DispatcherLookedUp(true) => DispatchAction::CheckEventLoop,
        DispatchEvent::DispatcherLookedUp(false) => DispatchAction::Finish(
            Err(
                ProtocolFault::TransportError(
                    join2(
                        "Workload does not provide a dispatcher. Please implement get_dispatcher() method. route_key: ",
                        route_key,
                    ),
                ),
            ),
        ),
        DispatchEvent::EventLoopChecked(true) => DispatchAction::CallDispatcher,
        DispatchEvent::EventLoopChecked(false) => DispatchAction::Finish(
            Err(
                ProtocolFault::TransportError(
                    String::from_str(
                        "Event loop not set. Make sure to call attach() from within an async context.",
                    ),
                ),
            ),
        ),
        DispatchEvent::Called(Err(d)) => DispatchAction::Finish(
            Err(ProtocolFault::TransportError(join2("Python dispatcher.dispatch call failed: ", d.as_str()))),
        ),
        DispatchEvent::Called(Ok(None)) => DispatchAction::Finish(
            Err(ProtocolFault::EncodeError(String::from_str("Python dispatcher.dispatch must return bytes"))),
        ),
        DispatchEvent::Called(Ok(Some(b))) => DispatchAction::Finish(Ok(b)),
    }
}

/// The error raised inside a dispatch when the Python context object cannot be
/// made; the dispatch then fails with it as the reason.
pub fn context_creation_error(detail: &str) -> (r: BindingError)
    ensures
        r.class == PyErrorClass::ValueError,
        r.message@ == "Failed to create ContextPy: "@ + detail@,
{
    BindingError { class: PyErrorClass::ValueError, message: join2("Failed to create ContextPy: ", detail) }
}

/// The life-cycle hooks that a workload may implement.
#[derive(Clone, Copy, Debug, PartialEq, Eq, Structural)]
pub enum Hook {
    OnStart,
    OnStop,
}

/// The name of the hook's Python method.
pub open spec fn hook_name(h: Hook) -> Seq<char> {
    match h {
        Hook::OnStart => "on_start"@,
        Hook::OnStop => "on_stop"@,
    }
}

impl Hook {
    /// The name of the hook's Python method.
    pub fn method_name(self) -> (r: &'static str)
        ensures
            r@ == hook_name(self),
    {
        match self {
            Hook::OnStart => "on_start",
            Hook::OnStop => "on_stop",
        }
    }
}

/// What happened in the last step of running a hook.
#[derive(Debug)]
pub enum HookEvent {
    /// Whether the context is the runtime's own.
    ContextResolved(bool),
    /// The Python context object was made, or why not.
    ContextMade(Result<(), String>),
    /// Whether the workload has the hook method, or why that could not be told.
    AttributeChecked(Result<bool, String>),
    /// The hook was called and returned a coroutine, or why not.
    MethodCalled(Result<(), String>),
    /// The coroutine completed, or why not.
    Awaited(Result<(), String>),
}

/// What running the hook does next.
#[derive(Debug)]
pub enum HookAction {
    MakeContext,
    CheckAttribute,
    CallMethod,
    AwaitResult,
    /// The hook is over with this outcome.
    Finish(Result<(), ProtocolFault>),
}

/// The next step of running hook `hook` of a Python workload. A workload without
/// the hook method needs nothing done.
pub fn hook_next(hook: Hook, event: HookEvent) -> (a: HookAction)
    ensures
        match event {
            HookEvent::ContextResolved(true) => a is MakeContext,
            HookEvent::ContextResolved(false) => a matches HookAction::Finish(Err(
                ProtocolFault::TransportError(m),
            )) && m@ == "Context is not RuntimeContext"@,
            HookEvent::ContextMade(Ok(_)) => a is CheckAttribute,
            HookEvent::ContextMade(Err(d)) => a matches HookAction::Finish(Err(
                ProtocolFault::TransportError(m),
            )) && m@ == "Failed to create ContextPy: "@ + d@,
            HookEvent::AttributeChecked(Ok(true)) => a is CallMethod,
            HookEvent::AttributeChecked(Ok(false)) => a matches HookAction::Finish(Ok(_)),
            HookEvent::AttributeChecked(Err(d)) => a matches HookAction::Finish(Err(
                ProtocolFault::TransportError(m),
            )) && m@ == "Python hasattr failed: "@ + d@,
            HookEvent::MethodCalled(Ok(_)) => a is AwaitResult,
            HookEvent::MethodCalled(Err(d)) => a matches HookAction::Finish(Err(
                ProtocolFault::TransportError(m),
            )) && m@ == "Python "@ + hook_name(hook) + " call failed: "@ + d@,
            HookEvent::Awaited(Ok(_)) => a matches HookAction::Finish(Ok(_)),
            HookEvent::Awaited(Err(d)) => a matches HookAction::Finish(Err(
                ProtocolFault::TransportError(m),
            )) && m@ == "Python "@ + hook_name(hook) + " await failed: "@ + d@,
        },
        a is CallMethod <==> event matches HookEvent::AttributeChecked(Ok(true)),
        a matches HookAction::Finish(Err(f)) ==> f is TransportError,
{
    match event {
        HookEvent::ContextResolved(true) => HookAction::MakeContext,
        HookEvent::ContextResolved(false) => HookAction::Finish(
            Err(ProtocolFault::TransportError(String::from_str("Context is not RuntimeContext"))),
        ),
        HookEvent::ContextMade(Ok(_)) => HookAction::CheckAttribute,
        HookEvent::ContextMade(Err(d)) => HookAction::Finish(
            Err(ProtocolFault::TransportError(join2("Failed to create ContextPy: ", d.as_str()))),
        ),
        HookEvent::AttributeChecked(Ok(true)) => HookAction::CallMethod,
        HookEvent::AttributeChecked(Ok(false)) => HookAction::Finish(Ok(())),
        HookEvent::AttributeChecked(Err(d)) => HookAction::Finish(
            Err(ProtocolFault::TransportError(join2("Python hasattr failed: ", d.as_str()))),
        ),
        HookEvent::MethodCalled(Ok(_)) => HookAction::AwaitResult,
        HookEvent::MethodCalled(Err(d)) => {
            let mut m = join2("Python ", hook.method_name());
            m.append(" call failed: ");
            m.append(d.as_str());
            HookAction::Finish(Err(ProtocolFault::TransportError(m)))
        },
        HookEvent::Awaited(Ok(_)) => HookAction::Finish(Ok(())),
        HookEvent::Awaited(Err(d)) => {
            let mut m = join2("Python ", hook.method_name());
            m.append(" await failed: ");
            m.append(d.as_str());
            HookAction::Finish(Err(ProtocolFault::TransportError(m)))
        },
    }
}

} // verus!

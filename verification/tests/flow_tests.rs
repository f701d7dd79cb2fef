use actr_raw::conversions::{decoded_outcome, serialized_outcome, ProtoMessage};
use actr_raw::errors::{ProtocolFault, PyErrorClass};
use actr_raw::observability::{default_observability_config, resolve_observability_config, ObservabilityConfig};
use actr_raw::runtime::{
    data_stream_payload_type, default_payload_type, event_loop_failure, stream_callback_next,
    ActrNodePy, ActrRefPy, ActrSystemPy, StartMode, StreamCallbackAction, StreamCallbackEvent,
    DEFAULT_CALL_TIMEOUT_MS,
};
use actr_raw::types::PayloadType;
use actr_raw::workload::{
    context_creation_error, dispatch_next, dispatcher_lookup_next, envelope_payload, hook_next, DispatchAction,
    DispatchEvent, Hook, HookAction, HookEvent, LookupAction, LookupEvent, PyWorkloadWrapper,
};

#[test]
fn python_class_paths() {
    assert_eq!(ProtoMessage::ActrId.python_class_path(), ("generated.actr_pb2", "ActrId"));
    assert_eq!(ProtoMessage::ActrType.python_class_path(), ("generated.actr_pb2", "ActrType"));
    assert_eq!(
        ProtoMessage::DataStream.python_class_path(),
        ("generated.package_pb2", "DataStream")
    );
}

#[test]
fn conversion_failures_are_value_errors() {
    let e = serialized_outcome(ProtoMessage::ActrId, Err("no method".to_string())).unwrap_err();
    assert_eq!(e.class, PyErrorClass::ValueError);
    assert_eq!(e.message, "Failed to serialize ActrId: no method");
    let ok = serialized_outcome(ProtoMessage::ActrId, Ok(vec![8, 1])).unwrap();
    assert_eq!(ok, vec![8, 1]);
    let e = decoded_outcome::<u8>(ProtoMessage::DataStream, Err("truncated".to_string())).unwrap_err();
    assert_eq!(e.class, PyErrorClass::ValueError);
    assert_eq!(e.message, "Failed to decode DataStream: truncated");
    let e = decoded_outcome::<u8>(ProtoMessage::ActrType, Err("bad".to_string())).unwrap_err();
    assert_eq!(e.message, "Failed to decode ActrType: bad");
    assert_eq!(decoded_outcome::<u8>(ProtoMessage::ActrId, Ok(3)).unwrap(), 3);
}

#[test]
fn system_attaches_once() {
    let mut sys = ActrSystemPy::new(7u32);
    assert_eq!(sys.take_for_attach().unwrap(), 7);
    let e = sys.take_for_attach().unwrap_err();
    assert_eq!(e.class, PyErrorClass::RuntimeError);
    assert_eq!(e.message, "ActrSystem already consumed (attach called twice)");
    let e = event_loop_failure("no running loop");
    assert_eq!(e.class, PyErrorClass::RuntimeError);
    assert_eq!(e.message, "Failed to get event loop: no running loop");
}

#[test]
fn node_starts_once() {
    let mut node = ActrNodePy::new("n");
    assert_eq!(node.take_for_start(StartMode::TryStart).unwrap(), "n");
    let e = node.take_for_start(StartMode::Start).unwrap_err();
    assert_eq!(e.message, "ActrNode already consumed (start called twice)");
    let e = node.take_for_start(StartMode::TryStart).unwrap_err();
    assert_eq!(e.message, "ActrNode already consumed (try_start called twice)");
    assert_eq!(e.class, PyErrorClass::RuntimeError);
}

#[test]
fn actor_handle_serves_until_shutdown_wait() {
    let mut r = ActrRefPy::new(5i64);
    assert_eq!(*r.current().unwrap(), 5);
    assert_eq!(*r.current().unwrap(), 5);
    assert_eq!(r.take_for_shutdown_wait().unwrap(), 5);
    let e = r.current().unwrap_err();
    assert_eq!(e.class, PyErrorClass::RuntimeError);
    assert_eq!(e.message, "ActrRef has been consumed");
    let e = r.take_for_shutdown_wait().unwrap_err();
    assert_eq!(e.message, "ActrRef already consumed");
}

#[test]
fn call_defaults() {
    assert_eq!(DEFAULT_CALL_TIMEOUT_MS, 30000);
    assert_eq!(default_payload_type(), PayloadType::RpcReliable);
    assert_eq!(data_stream_payload_type(), PayloadType::StreamReliable);
}

fn transport_message<T>(r: Result<T, ProtocolFault>) -> String {
    match r {
        Err(ProtocolFault::TransportError(m)) => m,
        _ => panic!("expected a transport error"),
    }
}

#[test]
fn stream_callback_steps() {
    assert!(matches!(
        stream_callback_next(StreamCallbackEvent::Converted(Ok(()))),
        StreamCallbackAction::RunCallback
    ));
    assert!(matches!(
        stream_callback_next(StreamCallbackEvent::Joined(Ok(()))),
        StreamCallbackAction::InspectResult
    ));
    assert!(matches!(
        stream_callback_next(StreamCallbackEvent::Returned(Ok(()))),
        StreamCallbackAction::Finish(Ok(()))
    ));
    let msg = |ev| match stream_callback_next(ev) {
        StreamCallbackAction::Finish(r) => transport_message(r),
        _ => panic!("expected the end"),
    };
    assert_eq!(
        msg(StreamCallbackEvent::Converted(Err("x".into()))),
        "Failed to convert to Python objects: x"
    );
    assert_eq!(msg(StreamCallbackEvent::Joined(Err("panic".into()))), "Task join failed: panic");
    assert_eq!(
        msg(StreamCallbackEvent::Returned(Err("boom".into()))),
        "Python callback error: boom"
    );
}

#[test]
fn workload_wrapper_event_loop() {
    let mut w: PyWorkloadWrapper<&str, u8> = PyWorkloadWrapper::new("obj");
    assert!(w.event_loop().is_none());
    w.set_event_loop(3);
    assert_eq!(w.event_loop(), Some(&3));
    assert_eq!(*w.py_obj(), "obj");
}

#[test]
fn dispatcher_lookup_steps() {
    assert!(matches!(
        dispatcher_lookup_next(LookupEvent::AttributeChecked(Ok(true))),
        LookupAction::CallGetter
    ));
    assert!(matches!(
        dispatcher_lookup_next(LookupEvent::AttributeChecked(Ok(false))),
        LookupAction::Finish(false)
    ));
    assert!(matches!(
        dispatcher_lookup_next(LookupEvent::AttributeChecked(Err("e".into()))),
        LookupAction::Finish(false)
    ));
    assert!(matches!(dispatcher_lookup_next(LookupEvent::Called(true)), LookupAction::ExtractObject));
    assert!(matches!(dispatcher_lookup_next(LookupEvent::Called(false)), LookupAction::Finish(false)));
    assert!(matches!(dispatcher_lookup_next(LookupEvent::Extracted(true)), LookupAction::Finish(true)));
    assert!(matches!(dispatcher_lookup_next(LookupEvent::Extracted(false)), LookupAction::Finish(false)));
}

fn dispatch_error(a: DispatchAction) -> ProtocolFault {
    match a {
        DispatchAction::Finish(Err(f)) => f,
        _ => panic!("expected a failed end"),
    }
}

#[test]
fn dispatch_steps() {
    assert_eq!(envelope_payload(None), Vec::<u8>::new());
    assert_eq!(envelope_payload(Some(vec![4, 5])), vec![4, 5]);
    assert!(matches!(
        dispatch_next("r", DispatchEvent::ContextResolved(true)),
        DispatchAction::LookupDispatcher
    ));
    assert!(matches!(
        dispatch_next("r", DispatchEvent::DispatcherLookedUp(true)),
        DispatchAction::CheckEventLoop
    ));
    assert!(matches!(
        dispatch_next("r", DispatchEvent::EventLoopChecked(true)),
        DispatchAction::CallDispatcher
    ));
    match dispatch_next("r", DispatchEvent::Called(Ok(Some(vec![9])))) {
        DispatchAction::Finish(Ok(b)) => assert_eq!(b, vec![9]),
        _ => panic!("expected bytes"),
    }
    assert_eq!(
        transport_message::<()>(Err(dispatch_error(dispatch_next(
            "r",
            DispatchEvent::ContextResolved(false)
        )))),
        "Context is not RuntimeContext"
    );
    assert_eq!(
        transport_message::<()>(Err(dispatch_error(dispatch_next(
            "echo.Echo/Ping",
            DispatchEvent::DispatcherLookedUp(false)
        )))),
        "Workload does not provide a dispatcher. Please implement get_dispatcher() method. route_key: echo.Echo/Ping"
    );
    assert_eq!(
        transport_message::<()>(Err(dispatch_error(dispatch_next(
            "r",
            DispatchEvent::EventLoopChecked(false)
        )))),
        "Event loop not set. Make sure to call attach() from within an async context."
    );
    assert_eq!(
        transport_message::<()>(Err(dispatch_error(dispatch_next(
            "r",
            DispatchEvent::Called(Err("TypeError: x".into()))
        )))),
        "Python dispatcher.dispatch call failed: TypeError: x"
    );
    match dispatch_error(dispatch_next("r", DispatchEvent::Called(Ok(None)))) {
        ProtocolFault::EncodeError(m) => assert_eq!(m, "Python dispatcher.dispatch must return bytes"),
        _ => panic!("expected an encode error"),
    }
}

fn hook_error(a: HookAction) -> String {
    match a {
        HookAction::Finish(r) => transport_message(r),
        _ => panic!("expected a failed end"),
    }
}

#[test]
fn hook_steps() {
    for h in [Hook::OnStart, Hook::OnStop] {
        assert!(matches!(hook_next(h, HookEvent::ContextResolved(true)), HookAction::MakeContext));
        assert!(matches!(hook_next(h, HookEvent::ContextMade(Ok(()))), HookAction::CheckAttribute));
        assert!(matches!(hook_next(h, HookEvent::AttributeChecked(Ok(true))), HookAction::CallMethod));
        assert!(matches!(
            hook_next(h, HookEvent::AttributeChecked(Ok(false))),
            HookAction::Finish(Ok(()))
        ));
        assert!(matches!(hook_next(h, HookEvent::MethodCalled(Ok(()))), HookAction::AwaitResult));
        assert!(matches!(hook_next(h, HookEvent::Awaited(Ok(()))), HookAction::Finish(Ok(()))));
        assert_eq!(
            hook_error(hook_next(h, HookEvent::ContextResolved(false))),
            "Context is not RuntimeContext"
        );
        assert_eq!(
            hook_error(hook_next(h, HookEvent::ContextMade(Err("e".into())))),
            "Failed to create ContextPy: e"
        );
        assert_eq!(
            hook_error(hook_next(h, HookEvent::AttributeChecked(Err("e".into())))),
            "Python hasattr failed: e"
        );
    }
    assert_eq!(Hook::OnStart.method_name(), "on_start");
    assert_eq!(Hook::OnStop.method_name(), "on_stop");
    assert_eq!(
        hook_error(hook_next(Hook::OnStart, HookEvent::MethodCalled(Err("x".into())))),
        "Python on_start call failed: x"
    );
    assert_eq!(
        hook_error(hook_next(Hook::OnStop, HookEvent::MethodCalled(Err("x".into())))),
        "Python on_stop call failed: x"
    );
    assert_eq!(
        hook_error(hook_next(Hook::OnStart, HookEvent::Awaited(Err("y".into())))),
        "Python on_start await failed: y"
    );
    assert_eq!(
        hook_error(hook_next(Hook::OnStop, HookEvent::Awaited(Err("y".into())))),
        "Python on_stop await failed: y"
    );
}

#[test]
fn observability_defaults() {
    let c = default_observability_config(None);
    assert_eq!(c.filter_level, "info");
    assert!(!c.tracing_enabled);
    assert_eq!(c.tracing_endpoint, "");
    assert_eq!(c.tracing_service_name, "actr-runtime-py");
    let c = default_observability_config(Some("debug".to_string()));
    assert_eq!(c.filter_level, "debug");
    let given = ObservabilityConfig {
        filter_level: "warn".into(),
        tracing_enabled: true,
        tracing_endpoint: "http://collector:4317".into(),
        tracing_service_name: "svc".into(),
    };
    let c = resolve_observability_config(Some(given), Some("debug".to_string()));
    assert_eq!(c.filter_level, "warn");
    assert!(c.tracing_enabled);
    assert_eq!(c.tracing_endpoint, "http://collector:4317");
    assert_eq!(c.tracing_service_name, "svc");
    let c = resolve_observability_config(None, None);
    assert_eq!(c.filter_level, "info");
}

#[test]
fn context_creation_failure_is_a_value_error() {
    let e = context_creation_error("no memory");
    assert_eq!(e.class, PyErrorClass::ValueError);
    assert_eq!(e.message, "Failed to create ContextPy: no memory");
}

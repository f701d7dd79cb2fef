use actr_raw::errors::{
    map_protocol_error, runtime_error, value_error, ActrFault, ProtocolFault, PyErrorClass,
};

fn s(x: &str) -> String {
    x.to_string()
}

#[test]
fn transport_error_maps_to_transport_class_with_bare_message() {
    let e = map_protocol_error(ProtocolFault::TransportError(s("link down")));
    assert_eq!(e.class, PyErrorClass::ActrTransportError);
    assert_eq!(e.message, "link down");
}

#[test]
fn decode_family_maps_to_decode_class() {
    for f in [
        ProtocolFault::DecodeError(s("bad varint")),
        ProtocolFault::DeserializationError(s("bad varint")),
        ProtocolFault::EncodeError(s("bad varint")),
    ] {
        let e = map_protocol_error(f);
        assert_eq!(e.class, PyErrorClass::ActrDecodeError);
        assert_eq!(e.message, "bad varint");
    }
}

#[test]
fn unknown_route_maps_to_unknown_route_class() {
    let e = map_protocol_error(ProtocolFault::UnknownRoute(s("echo.Echo/Ping")));
    assert_eq!(e.class, PyErrorClass::ActrUnknownRoute);
    assert_eq!(e.message, "echo.Echo/Ping");
    let e = map_protocol_error(ProtocolFault::Actr(ActrFault::UnknownRoute {
        route_key: s("svc.M"),
    }));
    assert_eq!(e.class, PyErrorClass::ActrUnknownRoute);
    assert_eq!(e.message, "svc.M");
}

#[test]
fn gate_not_initialized_maps_to_its_class() {
    let e = map_protocol_error(ProtocolFault::Actr(ActrFault::GateNotInitialized {
        message: s("no gate"),
    }));
    assert_eq!(e.class, PyErrorClass::ActrGateNotInitialized);
    assert_eq!(e.message, "no gate");
}

#[test]
fn other_errors_map_to_runtime_class_with_rendered_text() {
    let e = map_protocol_error(ProtocolFault::Timeout);
    assert_eq!(e.class, PyErrorClass::ActrRuntimeError);
    assert_eq!(e.message, "Timeout");

    let e = map_protocol_error(ProtocolFault::SerializationError(s("x")));
    assert_eq!(e.class, PyErrorClass::ActrRuntimeError);
    assert_eq!(e.message, "Serialization error: x");

    let e = map_protocol_error(ProtocolFault::TargetNotFound(s("peer")));
    assert_eq!(e.message, "Target not found: peer");

    let e = map_protocol_error(ProtocolFault::Actr(ActrFault::PermissionDenied {
        message: s("acl"),
    }));
    assert_eq!(e.class, PyErrorClass::ActrRuntimeError);
    assert_eq!(e.message, "Actor identity error: Permission denied: acl");

    let e = map_protocol_error(ProtocolFault::Actr(ActrFault::DependencyNotFound {
        service_name: s("echo"),
        message: s("missing in lock"),
    }));
    assert_eq!(
        e.message,
        "Actor identity error: Dependency 'echo' not found: missing in lock"
    );
}

#[test]
fn rendered_texts_follow_the_framework() {
    assert_eq!(
        ActrFault::InvalidFormat(s("zz")).text(),
        "Invalid Actor ID format: 'zz'. Expected format: <serial_number>@<realm_id>:<manufacturer>+<name>"
    );
    assert_eq!(
        ActrFault::InvalidTypeFormat(s("q")).text(),
        "Invalid actor type format: 'q'. Expected format: <manufacturer>+<name>"
    );
    assert_eq!(
        ActrFault::NotImplemented { feature: s("media") }.text(),
        "Feature not yet implemented: media"
    );
    assert_eq!(ProtocolFault::Uri(s("no scheme")).text(), "URI parsing error: no scheme");
    assert_eq!(ProtocolFault::Name(s("too long")).text(), "Invalid name: too long");
    assert_eq!(
        ProtocolFault::InvalidStateTransition(s("a->b")).text(),
        "Invalid state transition: a->b"
    );
    assert_eq!(ProtocolFault::TransportError(s("t")).text(), "Transport error: t");
}

#[test]
fn plain_python_errors() {
    let e = value_error(s("bad"));
    assert_eq!(e.class, PyErrorClass::ValueError);
    assert_eq!(e.message, "bad");
    let e = runtime_error(s("worse"));
    assert_eq!(e.class, PyErrorClass::RuntimeError);
    assert_eq!(e.message, "worse");
}

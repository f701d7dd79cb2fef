use actr_raw::text::{push_decimal, push_hex};
use actr_raw::types::{
    ActrId, ActrIdPy, ActrType, ActrTypePy, DataStream, DataStreamPy, Dest, DestPy, PayloadType,
    Realm,
};

fn id(serial: u64, realm: u32, m: &str, n: &str) -> ActrId {
    ActrId {
        realm: Realm { realm_id: realm },
        serial_number: serial,
        actr_type: ActrType { manufacturer: m.to_string(), name: n.to_string() },
    }
}

#[test]
fn hex_and_decimal_rendering() {
    let cases: [(u64, &str, &str); 6] = [
        (0, "0", "0"),
        (9, "9", "9"),
        (15, "f", "15"),
        (16, "10", "16"),
        (255, "ff", "255"),
        (u64::MAX, "ffffffffffffffff", "18446744073709551615"),
    ];
    for (n, hex, dec) in cases {
        let mut h = String::from("x");
        push_hex(&mut h, n);
        assert_eq!(h, format!("x{hex}"));
        let mut d = String::new();
        push_decimal(&mut d, n);
        assert_eq!(d, dec);
        assert_eq!(h[1..], format!("{n:x}"));
    }
}

#[test]
fn actr_id_repr_matches_identity_format() {
    let p = ActrIdPy::from_rust(id(0x1a2b, 7, "acme", "echo"));
    assert_eq!(p.repr(), "1a2b@7:acme+echo");
    let p = ActrIdPy::from_rust(id(0, 4294967295, "m", "n"));
    assert_eq!(p.repr(), "0@4294967295:m+n");
}

#[test]
fn actr_type_accessors_and_repr() {
    let t = ActrTypePy::new("acme".to_string(), "echo".to_string());
    assert_eq!(t.manufacturer(), "acme");
    assert_eq!(t.name(), "echo");
    assert_eq!(t.repr(), "ActrType(manufacturer=acme, name=echo)");
    assert_eq!(t.inner().manufacturer, "acme");
    let u = ActrTypePy::from_rust(ActrType { manufacturer: "a".into(), name: "b".into() });
    assert_eq!(u.repr(), "ActrType(manufacturer=a, name=b)");
}

#[test]
fn destinations() {
    let s = DestPy::shell();
    assert!(s.is_shell() && !s.is_local() && !s.is_actor());
    assert!(s.as_actor_id().is_none());
    let l = DestPy::local();
    assert!(!l.is_shell() && l.is_local() && !l.is_actor());
    assert!(l.as_actor_id().is_none());
    let a = DestPy::actor(ActrIdPy::from_rust(id(42, 1, "acme", "srv")));
    assert!(!a.is_shell() && !a.is_local() && a.is_actor());
    let back = a.as_actor_id().unwrap();
    assert_eq!(back.repr(), "2a@1:acme+srv");
    assert_eq!(back.inner().serial_number, 42);
    assert!(matches!(a.inner(), Dest::Actor(i) if i.realm.realm_id == 1));
    let f = DestPy::from_rust(Dest::Local);
    assert!(f.is_local());
}

#[test]
fn data_stream_fields() {
    let d = DataStreamPy::new("s1".to_string(), 5, vec![1, 2, 3], Some(-7));
    assert_eq!(d.stream_id(), "s1");
    assert_eq!(d.sequence(), 5);
    assert_eq!(d.payload(), vec![1, 2, 3]);
    assert_eq!(d.timestamp_ms(), Some(-7));
    assert!(d.inner().metadata.is_empty());
    let e = DataStreamPy::new("s2".to_string(), 0, vec![], None);
    assert_eq!(e.payload(), Vec::<u8>::new());
    assert_eq!(e.timestamp_ms(), None);
    let r = DataStreamPy::from_rust(DataStream {
        stream_id: "r".into(),
        sequence: 9,
        payload: vec![0xff],
        metadata: vec![],
        timestamp_ms: Some(1),
    });
    assert_eq!(r.sequence(), 9);
    assert_eq!(r.payload(), vec![0xff]);
}

#[test]
fn payload_type_codes() {
    assert_eq!(PayloadType::RpcReliable.to_rust(), 0);
    assert_eq!(PayloadType::RpcSignal.to_rust(), 1);
    assert_eq!(PayloadType::StreamReliable.to_rust(), 2);
    assert_eq!(PayloadType::StreamLatencyFirst.to_rust(), 3);
}

#[test]
fn clones_keep_the_value() {
    let d = DestPy::actor(ActrIdPy::from_rust(id(3, 2, "a", "b")));
    let c = d.clone();
    assert_eq!(c.as_actor_id().unwrap().repr(), "3@2:a+b");
    let ds = DataStreamPy::from_rust(DataStream {
        stream_id: "s".into(),
        sequence: 1,
        payload: vec![7, 8],
        metadata: vec![actr_raw::types::MetadataEntry { key: "k".into(), value: "v".into() }],
        timestamp_ms: None,
    });
    let dc = ds.clone();
    assert_eq!(dc.payload(), vec![7, 8]);
    assert_eq!(dc.inner().metadata.len(), 1);
    assert_eq!(dc.inner().metadata[0].key, "k");
    assert_eq!(dc.inner().metadata[0].value, "v");
    let t = ActrTypePy::new("m".into(), "n".into()).clone();
    assert_eq!(t.repr(), "ActrType(manufacturer=m, name=n)");
}

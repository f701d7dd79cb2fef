//! The identity and message types that the bindings expose to Python, with the
//! destination selector and the payload lanes.
use vstd::prelude::*;
use vstd::string::*;

use crate::text::{
    all_decimal_digits, all_hex_digits, decimal_text, decimal_value, hex_text,
    hex_value, lemma_decimal_text_reads_back, lemma_hex_text_reads_back, push_decimal, push_hex,
};

verus! {

/// A realm: the trust domain an actor lives in.
#[derive(Debug)]
pub struct Realm {
    pub realm_id: u32,
}

/// An actor type: who makes it and what it is called.
#[derive(Debug)]
pub struct ActrType {
    pub manufacturer: String,
    pub name: String,
}

/// An actor identity: realm, serial number and type.
#[derive(Debug)]
pub struct ActrId {
    pub realm: Realm,
    pub serial_number: u64,
    pub actr_type: ActrType,
}

/// A key and value attached to a stream chunk.
#[derive(Debug)]
pub struct MetadataEntry {
    pub key: String,
    pub value: String,
}

/// One chunk of a data stream.
#[derive(Debug)]
pub struct DataStream {
    pub stream_id: String,
    pub sequence: u64,
    pub payload: Vec<u8>,
    pub metadata: Vec<MetadataEntry>,
    pub timestamp_ms: Option<i64>,
}

/// Where a message goes: the local shell, the local workload, or a remote actor.
#[derive(Debug)]
pub enum Dest {
    Shell,
    Local,
    Actor(ActrId),
}

/// The abstract value of an [`ActrType`].
pub struct ActrTypeView {
    pub manufacturer: Seq<char>,
    pub name: Seq<char>,
}

/// The abstract value of an [`ActrId`].
pub struct ActrIdView {
    pub realm_id: u32,
    pub serial_number: u64,
    pub actr_type: ActrTypeView,
}

/// The abstract value of a [`DataStream`]; metadata as key and value pairs.
pub struct DataStreamView {
    pub stream_id: Seq<char>,
    pub sequence: u64,
    pub payload: Seq<u8>,
    pub metadata: Seq<(Seq<char>, Seq<char>)>,
    pub timestamp_ms: Option<i64>,
}

/// The abstract value of a [`Dest`].
pub enum DestView {
    Shell,
    Local,
    Actor(ActrIdView),
}

impl View for ActrType {
    type V = ActrTypeView;

    open spec fn view(&self) -> ActrTypeView {
        ActrTypeView { manufacturer: self.manufacturer@, name: self.name@ }
    }
}

impl View for ActrId {
    type V = ActrIdView;

    open spec fn view(&self) -> ActrIdView {
        ActrIdView {
            realm_id: self.realm.realm_id,
            serial_number: self.serial_number,
            actr_type: self.actr_type@,
        }
    }
}

impl View for MetadataEntry {
    type V = (Seq<char>, Seq<char>);

    open spec fn view(&self) -> (Seq<char>, Seq<char>) {
        (self.key@, self.value@)
    }
}

impl View for DataStream {
    type V = DataStreamView;

    open spec fn view(&self) -> DataStreamView {
        DataStreamView {
            stream_id: self.stream_id@,
            sequence: self.sequence,
            payload: self.payload@,
            metadata: self.metadata@.map_values(|e: MetadataEntry| e@),
            timestamp_ms: self.timestamp_ms,
        }
    }
}

impl View for Dest {
    type V = DestView;

    open spec fn view(&self) -> DestView {
        match self {
            Dest::Shell => DestView::Shell,
            Dest::Local => DestView::Local,
            Dest::Actor(id) => DestView::Actor(id@),
        }
    }
}

impl Clone for ActrType {
    fn clone(&self) -> (r: Self)
        ensures
            r@ == self@,
    {
        ActrType { manufacturer: self.manufacturer.clone(), name: self.name.clone() }
    }
}

impl Clone for ActrId {
    fn clone(&self) -> (r: Self)
        ensures
            r@ == self@,
    {
        ActrId {
            realm: Realm { realm_id: self.realm.realm_id },
            serial_number: self.serial_number,
            actr_type: self.actr_type.clone(),
        }
    }
}

impl Clone for Dest {
    fn clone(&self) -> (r: Self)
        ensures
            r@ == self@,
    {
        match self {
            Dest::Shell => Dest::Shell,
            Dest::Local => Dest::Local,
            Dest::Actor(id) => Dest::Actor(id.clone()),
        }
    }
}

impl Clone for MetadataEntry {
    fn clone(&self) -> (r: Self)
        ensures
            r@ == self@,
    {
        MetadataEntry { key: self.key.clone(), value: self.value.clone() }
    }
}

impl Clone for DataStream {
    fn clone(&self) -> (r: Self)
        ensures
            r@ == self@,
    {
        let mut metadata: Vec<MetadataEntry> = Vec::new();
        let mut i: usize = 0;
        while i < self.metadata.len()
            invariant
                i <= self.metadata.len(),
                metadata@.len() == i,
                forall|j: int| 0 <= j < i ==> (#[trigger] metadata@[j])@ == self.metadata@[j]@,
            decreases self.metadata.len() - i,
        {
            metadata.push(self.metadata[i].clone());
            i = i + 1;
        }
        assert(metadata@.map_values(|e: MetadataEntry| e@) =~= self.metadata@.map_values(
            |e: MetadataEntry| e@,
        ));
        DataStream {
            stream_id: self.stream_id.clone(),
            sequence: self.sequence,
            payload: copy_bytes(&self.payload),
            metadata,
            timestamp_ms: self.timestamp_ms,
        }
    }
}

/// The text form of an identity: serial number in lower-case hexadecimal, `@`,
/// realm in decimal, `:`, then manufacturer `+` name.
pub open spec fn actr_id_repr(id: ActrIdView) -> Seq<char> {
    hex_text(id.serial_number as nat) + "@"@ + decimal_text(id.realm_id as nat) + ":"@
        + id.actr_type.manufacturer + "+"@ + id.actr_type.name
}

/// The text form of an actor type as Python shows it.
pub open spec fn actr_type_repr(t: ActrTypeView) -> Seq<char> {
    "ActrType(manufacturer="@ + t.manufacturer + ", name="@ + t.name + ")"@
}

/// The text form of an identity starts with the serial number in hexadecimal
/// and the realm in decimal, each reading back as its number, then the full
/// manufacturer and name: nothing of the identity is altered or dropped.
pub proof fn lemma_actr_id_repr_reads_back(id: ActrIdView)
    ensures
        ({
            let r = actr_id_repr(id);
            let h = hex_text(id.serial_number as nat).len() as int;
            let d = decimal_text(id.realm_id as nat).len() as int;
            let m = id.actr_type.manufacturer.len() as int;
            let n = id.actr_type.name.len() as int;
            &&& r.len() == h + d + m + n + 3
            &&& all_hex_digits(r.subrange(0, h))
            &&& hex_value(r.subrange(0, h)) == id.serial_number
            &&& r[h] == '@'
            &&& all_decimal_digits(r.subrange(h + 1, h + 1 + d))
            &&& decimal_value(r.subrange(h + 1, h + 1 + d)) == id.realm_id
            &&& r[h + 1 + d] == ':'
            &&& r.subrange(h + 2 + d, h + 2 + d + m) == id.actr_type.manufacturer
            &&& r[h + 2 + d + m] == '+'
            &&& r.subrange(h + 3 + d + m, r.len() as int) == id.actr_type.name
        }),
{
    reveal_strlit("@");
    reveal_strlit(":");
    reveal_strlit("+");
    lemma_hex_text_reads_back(id.serial_number as nat);
    lemma_decimal_text_reads_back(id.realm_id as nat);
    let r = actr_id_repr(id);
    let hx = hex_text(id.serial_number as nat);
    let dc = decimal_text(id.realm_id as nat);
    let h = hx.len() as int;
    let d = dc.len() as int;
    let m = id.actr_type.manufacturer.len() as int;
    assert(r.subrange(0, h) =~= hx);
    assert(r.subrange(h + 1, h + 1 + d) =~= dc);
    assert(r.subrange(h + 2 + d, h + 2 + d + m) =~= id.actr_type.manufacturer);
    assert(r.subrange(h + 3 + d + m, r.len() as int) =~= id.actr_type.name);
}

/// The text form of an actor type holds the full manufacturer and the full name
/// in their places, around fixed framing of thirty characters.
pub proof fn lemma_actr_type_repr_parts(t: ActrTypeView)
    ensures
        ({
            let r = actr_type_repr(t);
            let m = t.manufacturer.len() as int;
            let n = t.name.len() as int;
            &&& r.len() == 30 + m + n
            &&& r.subrange(22, 22 + m) == t.manufacturer
            &&& r.subrange(29 + m, 29 + m + n) == t.name
            &&& r[r.len() - 1] == ')'
        }),
{
    reveal_strlit("ActrType(manufacturer=");
    reveal_strlit(", name=");
    reveal_strlit(")");
    let r = actr_type_repr(t);
    let m = t.manufacturer.len() as int;
    let n = t.name.len() as int;
    assert(r.subrange(22, 22 + m) =~= t.manufacturer);
    assert(r.subrange(29 + m, 29 + m + n) =~= t.name);
}

/// Wrapper of a destination, as handed to and from Python.
#[derive(Debug)]
pub struct DestPy {
    inner: Dest,
}

impl View for DestPy {
    type V = DestView;

    closed spec fn view(&self) -> DestView {
        self.inner@
    }
}

/// Wrapper of an actor identity, as handed to and from Python.
#[derive(Debug)]
pub struct ActrIdPy {
    inner: ActrId,
}

impl View for ActrIdPy {
    type V = ActrIdView;

    closed spec fn view(&self) -> ActrIdView {
        self.inner@
    }
}

/// Wrapper of an actor type, as handed to and from Python.
#[derive(Debug)]
pub struct ActrTypePy {
    inner: ActrType,
}

impl View for ActrTypePy {
    type V = ActrTypeView;

    closed spec fn view(&self) -> ActrTypeView {
        self.inner@
    }
}

/// Wrapper of a data stream chunk, as handed to and from Python.
#[derive(Debug)]
pub struct DataStreamPy {
    inner: DataStream,
}

impl View for DataStreamPy {
    type V = DataStreamView;

    closed spec fn view(&self) -> DataStreamView {
        self.inner@
    }
}

impl Clone for ActrIdPy {
    fn clone(&self) -> (r: Self)
        ensures
            r@ == self@,
    {
        ActrIdPy { inner: self.inner.clone() }
    }
}

impl Clone for DestPy {
    fn clone(&self) -> (r: Self)
        ensures
            r@ == self@,
    {
        DestPy { inner: self.inner.clone() }
    }
}

impl Clone for DataStreamPy {
    fn clone(&self) -> (r: Self)
        ensures
            r@ == self@,
    {
        DataStreamPy { inner: self.inner.clone() }
    }
}

impl Clone for ActrTypePy {
    fn clone(&self) -> (r: Self)
        ensures
            r@ == self@,
    {
        ActrTypePy { inner: self.inner.clone() }
    }
}

impl DestPy {
    /// The local shell.
    pub fn shell() -> (r: Self)
        ensures
            r@ == DestView::Shell,
    {
        DestPy { inner: Dest::Shell }
    }

    /// The local workload.
    pub fn local() -> (r: Self)
        ensures
            r@ == DestView::Local,
    {
        DestPy { inner: Dest::Local }
    }

    /// The remote actor with the given identity.
    pub fn actor(actr_id: ActrIdPy) -> (r: Self)
        ensures
            r@ == DestView::Actor(actr_id@),
    {
        DestPy { inner: Dest::Actor(actr_id.inner) }
    }

    pub fn is_shell(&self) -> (b: bool)
        ensures
            b <==> self@ is Shell,
    {
        match &self.inner {
            Dest::Shell => true,
            _ => false,
        }
    }

    pub fn is_local(&self) -> (b: bool)
        ensures
            b <==> self@ is Local,
    {
        match &self.inner {
            Dest::Local => true,
            _ => false,
        }
    }

    pub fn is_actor(&self) -> (b: bool)
        ensures
            b <==> self@ is Actor,
    {
        match &self.inner {
            Dest::Actor(_) => true,
            _ => false,
        }
    }

    /// The remote actor's identity, if the destination is a remote actor.
    pub fn as_actor_id(&self) -> (r: Option<ActrIdPy>)
        ensures
            match self@ {
                DestView::Actor(id) => r matches Some(x) && x@ == id,
                _ => r is None,
            },
    {
        match &self.inner {
            Dest::Actor(id) => Some(ActrIdPy { inner: id.clone() }),
            _ => None,
        }
    }

    pub fn inner(&self) -> (r: &Dest)
        ensures
            r@ == self@,
    {
        &self.inner
    }

    pub fn from_rust(dest: Dest) -> (r: Self)
        ensures
            r@ == dest@,
    {
        DestPy { inner: dest }
    }
}

impl ActrIdPy {
    /// The text form of the identity (`<serial hex>@<realm>:<manufacturer>+<name>`).
    pub fn repr(&self) -> (r: String)
        ensures
            r@ == actr_id_repr(self@),
            r@ == hex_text(self@.serial_number as nat) + "@"@ + decimal_text(self@.realm_id as nat)
                + ":"@ + self@.actr_type.manufacturer + "+"@ + self@.actr_type.name,
    {
        let mut out = String::new();
        push_hex(&mut out, self.inner.serial_number);
        out.append("@");
        push_decimal(&mut out, self.inner.realm.realm_id as u64);
        out.append(":");
        out.append(self.inner.actr_type.manufacturer.as_str());
        out.append("+");
        out.append(self.inner.actr_type.name.as_str());
        out
    }

    pub fn inner(&self) -> (r: &ActrId)
        ensures
            r@ == self@,
    {
        &self.inner
    }

    pub fn from_rust(id: ActrId) -> (r: Self)
        ensures
            r@ == id@,
    {
        ActrIdPy { inner: id }
    }
}

impl ActrTypePy {
    /// The actor type made by `manufacturer` under `name`.
    pub fn new(manufacturer: String, name: String) -> (r: Self)
        ensures
            r@ == (ActrTypeView { manufacturer: manufacturer@, name: name@ }),
    {
        ActrTypePy { inner: ActrType { manufacturer, name } }
    }

    pub fn manufacturer(&self) -> (r: String)
        ensures
            r@ == self@.manufacturer,
    {
        self.inner.manufacturer.clone()
    }

    pub fn name(&self) -> (r: String)
        ensures
            r@ == self@.name,
    {
        self.inner.name.clone()
    }

    /// The text form of the actor type (`ActrType(manufacturer=.., name=..)`).
    pub fn repr(&self) -> (r: String)
        ensures
            r@ == actr_type_repr(self@),
            r@ == "ActrType(manufacturer="@ + self@.manufacturer + ", name="@ + self@.name + ")"@,
    {
        let mut out = String::from_str("ActrType(manufacturer=");
        out.append(self.inner.manufacturer.as_str());
        out.append(", name=");
        out.append(self.inner.name.as_str());
        out.append(")");
        out
    }

    pub fn inner(&self) -> (r: &ActrType)
        ensures
            r@ == self@,
    {
        &self.inner
    }

    pub fn from_rust(actr_type: ActrType) -> (r: Self)
        ensures
            r@ == actr_type@,
    {
        ActrTypePy { inner: actr_type }
    }
}

/// Copies a byte buffer.
fn copy_bytes(v: &Vec<u8>) -> (r: Vec<u8>)
    ensures
        r@ == v@,
{
    let mut r: Vec<u8> = Vec::new();
    let mut i: usize = 0;
    while i < v.len()
        invariant
            i <= v.len(),
            r@ == v@.subrange(0, i as int),
        decreases v.len() - i,
    {
        r.push(v[i]);
        i = i + 1;
        assert(r@ =~= v@.subrange(0, i as int));
    }
    assert(v@.subrange(0, v.len() as int) =~= v@);
    r
}

impl DataStreamPy {
    /// A chunk of stream `stream_id` at position `sequence`, with no metadata.
    pub fn new(stream_id: String, sequence: u64, payload: Vec<u8>, timestamp_ms: Option<i64>) -> (r: Self)
        ensures
            r@ == (DataStreamView {
                stream_id: stream_id@,
                sequence,
                payload: payload@,
                metadata: Seq::empty(),
                timestamp_ms,
            }),
    {
        let metadata: Vec<MetadataEntry> = Vec::new();
        let r = DataStreamPy {
            inner: DataStream { stream_id, sequence, payload, metadata, timestamp_ms },
        };
        assert(r@.metadata =~= Seq::<(Seq<char>, Seq<char>)>::empty());
        r
    }

    pub fn stream_id(&self) -> (r: String)
        ensures
            r@ == self@.stream_id,
    {
        self.inner.stream_id.clone()
    }

    pub fn sequence(&self) -> (r: u64)
        ensures
            r == self@.sequence,
    {
        self.inner.sequence
    }

    pub fn payload(&self) -> (r: Vec<u8>)
        ensures
            r@ == self@.payload,
    {
        copy_bytes(&self.inner.payload)
    }

    pub fn timestamp_ms(&self) -> (r: Option<i64>)
        ensures
            r == self@.timestamp_ms,
    {
        self.inner.timestamp_ms
    }

    pub fn inner(&self) -> (r: &DataStream)
        ensures
            r@ == self@,
    {
        &self.inner
    }

    pub fn from_rust(ds: DataStream) -> (r: Self)
        ensures
            r@ == ds@,
    {
        DataStreamPy { inner: ds }
    }
}

/// The transport lanes that a payload can take.
#[derive(Clone, Copy, Debug, PartialEq, Eq, Structural)]
pub enum PayloadType {
    RpcReliable,
    RpcSignal,
    StreamReliable,
    StreamLatencyFirst,
}

/// The lane's number in the wire protocol.
pub open spec fn payload_type_code(p: PayloadType) -> i32 {
    match p {
        PayloadType::RpcReliable => 0,
        PayloadType::RpcSignal => 1,
        PayloadType::StreamReliable => 2,
        PayloadType::StreamLatencyFirst => 3,
    }
}

impl PayloadType {
    /// The lane as the runtime numbers it.
    pub fn to_rust(self) -> (code: i32)
        ensures
            code == payload_type_code(self),
    {
        match self {
            PayloadType::RpcReliable => 0,
            PayloadType::RpcSignal => 1,
            PayloadType::StreamReliable => 2,
            PayloadType::StreamLatencyFirst => 3,
        }
    }
}

/// Distinct lanes are told apart on the wire: the numbering loses nothing.
pub proof fn lemma_payload_type_codes_distinct(a: PayloadType, b: PayloadType)
    ensures
        payload_type_code(a) == payload_type_code(b) <==> a == b,
        0 <= payload_type_code(a) < 4,
{
}

/// A destination is exactly one of shell, local workload and remote actor.
pub proof fn lemma_dest_kind_exclusive(d: DestView)
    ensures
        (d is Shell) as int + (d is Local) as int + (d is Actor) as int == 1,
{
}

} // verus!

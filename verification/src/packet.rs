//! Packet types and the fixed-size headers that frame every packet.

use crate::error::OssuaryError;
use vstd::endian::{endianness, Endian};
use vstd::prelude::*;

verus! {

/// The packet types used by the protocol.
#[derive(Clone, Copy, Debug, PartialEq, Eq, Structural)]
pub enum PacketType {
    /// Should never be encountered.
    Unknown,
    /// Handshake packet from client to server: session public key, session
    /// nonce and challenge of the client.
    ClientHandshake,
    /// Handshake packet from server to client: session public key and nonce
    /// of the server, and (encrypted) its challenge, authentication public
    /// key and signature of the client's challenge.
    ServerHandshake,
    /// Authentication packet from client to server: the client's
    /// authentication public key and signature of the server's challenge.
    ClientAuthentication,
    /// Tell the other side of the connection to disconnect permanently.
    Disconnect,
    /// Tell the other side to reset the connection; re-handshaking is allowed.
    Reset,
    /// Encrypted data packet.
    EncryptedData,
}

/// The 16-bit code that stands for a packet type on the wire.
pub open spec fn packet_type_code(t: PacketType) -> u16 {
    match t {
        PacketType::Unknown => 0x00,
        PacketType::ClientHandshake => 0x01,
        PacketType::ServerHandshake => 0x02,
        PacketType::ClientAuthentication => 0x03,
        PacketType::Disconnect => 0x10,
        PacketType::Reset => 0x11,
        PacketType::EncryptedData => 0x20,
    }
}

/// The packet type that a 16-bit code stands for; every code that names no
/// packet type stands for `Unknown`.
pub open spec fn packet_type_of_code(i: u16) -> PacketType {
    if i == 0x01 {
        PacketType::ClientHandshake
    } else if i == 0x02 {
        PacketType::ServerHandshake
    } else if i == 0x03 {
        PacketType::ClientAuthentication
    } else if i == 0x10 {
        PacketType::Disconnect
    } else if i == 0x11 {
        PacketType::Reset
    } else if i == 0x20 {
        PacketType::EncryptedData
    } else {
        PacketType::Unknown
    }
}

impl PacketType {
    /// Convert a 16-bit integer to a packet type.
    pub fn from_u16(i: u16) -> (t: PacketType)
        ensures
            t == packet_type_of_code(i),
    {
        match i {
            0x01 => PacketType::ClientHandshake,
            0x02 => PacketType::ServerHandshake,
            0x03 => PacketType::ClientAuthentication,
            0x10 => PacketType::Disconnect,
            0x11 => PacketType::Reset,
            0x20 => PacketType::EncryptedData,
            _ => PacketType::Unknown,
        }
    }

    /// The 16-bit code of this packet type.
    pub fn to_u16(&self) -> (c: u16)
        ensures
            c == packet_type_code(*self),
    {
        match self {
            PacketType::Unknown => 0x00,
            PacketType::ClientHandshake => 0x01,
            PacketType::ServerHandshake => 0x02,
            PacketType::ClientAuthentication => 0x03,
            PacketType::Disconnect => 0x10,
            PacketType::Reset => 0x11,
            PacketType::EncryptedData => 0x20,
        }
    }
}

/// Reading back the code of a packet type gives that packet type.
pub proof fn lemma_packet_type_code_roundtrip(t: PacketType)
    ensures
        packet_type_of_code(packet_type_code(t)) == t,
{
}

/// A code reads as `Unknown` exactly when it is the code of no packet type
/// other than `Unknown`; every other code is the code of the type it reads as.
pub proof fn lemma_packet_type_of_code(i: u16)
    ensures
        packet_type_of_code(i) != PacketType::Unknown ==> packet_type_code(packet_type_of_code(i)) == i,
        packet_type_of_code(i) == PacketType::Unknown <==> !(i == 0x01 || i == 0x02 || i == 0x03
            || i == 0x10 || i == 0x11 || i == 0x20),
{
}


/// The two bytes of a 16-bit integer in the byte order of the machine that
/// runs the code (`endianness()`), as a packed structure holds it in memory.
pub open spec fn u16_ne(v: u16) -> Seq<u8> {
    match endianness() {
        Endian::Little => seq![(v % 256) as u8, (v / 256) as u8],
        Endian::Big => seq![(v / 256) as u8, (v % 256) as u8],
    }
}

/// The 16-bit integer stored at `at` in `b` in the byte order of the machine
/// that runs the code.
pub open spec fn u16_from_ne(b: Seq<u8>, at: int) -> u16 {
    match endianness() {
        Endian::Little => (b[at] + 256 * b[at + 1]) as u16,
        Endian::Big => (256 * b[at] + b[at + 1]) as u16,
    }
}

/// Reading back the bytes of a 16-bit integer gives the integer.
pub proof fn lemma_u16_ne_roundtrip(v: u16, rest: Seq<u8>, front: Seq<u8>)
    ensures
        u16_from_ne(front + u16_ne(v) + rest, front.len() as int) == v,
{
    let b = front + u16_ne(v) + rest;
    assert(b[front.len() as int] == u16_ne(v)[0]);
    assert(b[front.len() as int + 1] == u16_ne(v)[1]);
}

/// The bytes of `v` in the machine's byte order, by `u16::to_ne_bytes`,
/// which std documents as using the target platform's native byte order.
#[verifier::external_body]
fn u16_to_ne_bytes(v: u16) -> (b: [u8; 2])
    ensures
        b@ == u16_ne(v),
{
    v.to_ne_bytes()
}

/// The integer whose bytes in the machine's byte order are `b`, by
/// `u16::from_ne_bytes`, which std documents as using the target platform's
/// native byte order.
#[verifier::external_body]
fn u16_from_ne_bytes(b: [u8; 2]) -> (v: u16)
    ensures
        v == u16_from_ne(b@, 0),
{
    u16::from_ne_bytes(b)
}

fn u16_push_ne(v: u16, out: &mut Vec<u8>)
    ensures
        final(out)@ == old(out)@ + u16_ne(v),
{
    let b = u16_to_ne_bytes(v);
    out.push(b[0]);
    out.push(b[1]);
    assert(final(out)@ =~= old(out)@ + u16_ne(v));
}

fn u16_read_ne(b: &[u8], at: usize) -> (v: u16)
    requires
        at + 2 <= b@.len(),
    ensures
        v == u16_from_ne(b@, at as int),
{
    let pair: [u8; 2] = [b[at], b[at + 1]];
    u16_from_ne_bytes(pair)
}

/// A structure with a fixed-size byte encoding, sent as a block of bytes at
/// the front of a packet or of its data.
pub trait WireStruct: Sized {
    /// The number of bytes of the encoding.
    spec fn wire_len() -> nat;

    /// The structure read from the first `wire_len()` bytes of `bytes`.
    spec fn from_wire(bytes: Seq<u8>) -> Self;

    /// The bytes of the structure.
    spec fn to_wire(&self) -> Seq<u8>;

    /// The number of bytes of the encoding.
    fn size() -> (n: usize)
        ensures
            n == Self::wire_len(),
    ;

    /// Read the structure from the front of `bytes`.
    fn decode(bytes: &[u8]) -> (v: Self)
        requires
            bytes@.len() >= Self::wire_len(),
        ensures
            v == Self::from_wire(bytes@.subrange(0, Self::wire_len() as int)),
    ;

    /// The bytes of the structure.
    fn encode(&self) -> (b: Vec<u8>)
        ensures
            b@ == self.to_wire(),
    ;

    /// The encoding has `wire_len()` bytes and reads back as the structure.
    proof fn lemma_wire_roundtrip(&self)
        ensures
            self.to_wire().len() == Self::wire_len(),
            Self::from_wire(self.to_wire()) == *self,
    ;
}

/// Header prepended to the front of all packets, regardless of encryption.
/// Its bytes are its fields in order, each in the byte order of the machine
/// that runs the code, as the packed structure lies in memory.
#[derive(Clone, Copy, Debug, PartialEq, Eq, Structural)]
pub struct PacketHeader {
    /// Length of the packet, not including this header.
    pub len: u16,
    /// Monotonically increasing message id.
    pub msg_id: u16,
    /// The type of the packet.
    pub packet_type: PacketType,
    /// Reserved for future use.
    pub reserved: u16,
}

/// Number of bytes of an encoded `PacketHeader`.
pub const PACKET_HEADER_LEN: usize = 8;

impl WireStruct for PacketHeader {
    open spec fn wire_len() -> nat {
        PACKET_HEADER_LEN as nat
    }

    open spec fn from_wire(bytes: Seq<u8>) -> Self {
        PacketHeader {
            len: u16_from_ne(bytes, 0),
            msg_id: u16_from_ne(bytes, 2),
            packet_type: packet_type_of_code(u16_from_ne(bytes, 4)),
            reserved: u16_from_ne(bytes, 6),
        }
    }

    open spec fn to_wire(&self) -> Seq<u8> {
        u16_ne(self.len) + u16_ne(self.msg_id) + u16_ne(packet_type_code(self.packet_type)) + u16_ne(
            self.reserved,
        )
    }

    fn size() -> (n: usize) {
        PACKET_HEADER_LEN
    }

    fn decode(bytes: &[u8]) -> (v: Self) {
        let ghost front = bytes@.subrange(0, 8);
        let len = u16_read_ne(bytes, 0);
        let msg_id = u16_read_ne(bytes, 2);
        let code = u16_read_ne(bytes, 4);
        let reserved = u16_read_ne(bytes, 6);
        let packet_type = PacketType::from_u16(code);
        let v = PacketHeader { len, msg_id, packet_type, reserved };
        assert(u16_from_ne(front, 0) == len);
        assert(u16_from_ne(front, 2) == msg_id);
        assert(u16_from_ne(front, 4) == code);
        assert(u16_from_ne(front, 6) == reserved);
        v
    }

    fn encode(&self) -> (b: Vec<u8>) {
        let mut b: Vec<u8> = Vec::new();
        u16_push_ne(self.len, &mut b);
        u16_push_ne(self.msg_id, &mut b);
        u16_push_ne(self.packet_type.to_u16(), &mut b);
        u16_push_ne(self.reserved, &mut b);
        assert(b@ =~= self.to_wire());
        b
    }

    proof fn lemma_wire_roundtrip(&self) {
        let a = u16_ne(self.len);
        let m = u16_ne(self.msg_id);
        let t = u16_ne(packet_type_code(self.packet_type));
        let r = u16_ne(self.reserved);
        let w = self.to_wire();
        assert(w =~= a + m + t + r);
        lemma_u16_ne_roundtrip(self.len, m + t + r, Seq::empty());
        assert(Seq::<u8>::empty() + a + (m + t + r) =~= w);
        lemma_u16_ne_roundtrip(self.msg_id, t + r, a);
        assert(a + m + (t + r) =~= w);
        lemma_u16_ne_roundtrip(packet_type_code(self.packet_type), r, a + m);
        assert(a + m + t + r =~= w);
        lemma_u16_ne_roundtrip(self.reserved, Seq::empty(), a + m + t);
        assert(a + m + t + r + Seq::<u8>::empty() =~= w);
        lemma_packet_type_code_roundtrip(self.packet_type);
    }
}

/// The bytes of the 16-bit integer stored at `at` in `b` are those bytes.
pub proof fn lemma_u16_from_ne_bytes(b: Seq<u8>, at: int)
    requires
        0 <= at,
        at + 2 <= b.len(),
    ensures
        u16_ne(u16_from_ne(b, at)) == b.subrange(at, at + 2),
{
    let v = u16_from_ne(b, at);
    assert(u16_ne(v) =~= b.subrange(at, at + 2));
}

/// Eight header bytes whose type code names a packet type (or is zero) are
/// written back unchanged: a header read from them encodes to them.
pub proof fn lemma_header_bytes_roundtrip(b: Seq<u8>)
    requires
        b.len() == PACKET_HEADER_LEN,
        packet_type_of_code(u16_from_ne(b, 4)) != PacketType::Unknown || u16_from_ne(b, 4) == 0,
    ensures
        PacketHeader::from_wire(b).to_wire() == b,
{
    lemma_u16_from_ne_bytes(b, 0);
    lemma_u16_from_ne_bytes(b, 2);
    lemma_u16_from_ne_bytes(b, 4);
    lemma_u16_from_ne_bytes(b, 6);
    lemma_packet_type_of_code(u16_from_ne(b, 4));
    assert(PacketHeader::from_wire(b).to_wire() =~= b);
}

/// Header prepended to the data of all encrypted data packets, encoded like
/// `PacketHeader`.
#[derive(Clone, Copy, Debug, PartialEq, Eq, Structural)]
pub struct EncryptedPacket {
    /// Length of the data, not including this header or the tag.
    pub data_len: u16,
    /// Length of the authentication tag following the data.
    pub tag_len: u16,
}

/// Number of bytes of an encoded `EncryptedPacket`.
pub const ENCRYPTED_PACKET_LEN: usize = 4;

impl WireStruct for EncryptedPacket {
    open spec fn wire_len() -> nat {
        ENCRYPTED_PACKET_LEN as nat
    }

    open spec fn from_wire(bytes: Seq<u8>) -> Self {
        EncryptedPacket { data_len: u16_from_ne(bytes, 0), tag_len: u16_from_ne(bytes, 2) }
    }

    open spec fn to_wire(&self) -> Seq<u8> {
        u16_ne(self.data_len) + u16_ne(self.tag_len)
    }

    fn size() -> (n: usize) {
        ENCRYPTED_PACKET_LEN
    }

    fn decode(bytes: &[u8]) -> (v: Self) {
        let ghost front = bytes@.subrange(0, 4);
        let data_len = u16_read_ne(bytes, 0);
        let tag_len = u16_read_ne(bytes, 2);
        assert(u16_from_ne(front, 0) == data_len);
        assert(u16_from_ne(front, 2) == tag_len);
        EncryptedPacket { data_len, tag_len }
    }

    fn encode(&self) -> (b: Vec<u8>) {
        let mut b: Vec<u8> = Vec::new();
        u16_push_ne(self.data_len, &mut b);
        u16_push_ne(self.tag_len, &mut b);
        assert(b@ =~= self.to_wire());
        b
    }

    proof fn lemma_wire_roundtrip(&self) {
        let d = u16_ne(self.data_len);
        let t = u16_ne(self.tag_len);
        let w = self.to_wire();
        lemma_u16_ne_roundtrip(self.data_len, t, Seq::empty());
        assert(Seq::<u8>::empty() + d + t =~= w);
        lemma_u16_ne_roundtrip(self.tag_len, Seq::empty(), d);
        assert(d + t + Seq::<u8>::empty() =~= w);
    }
}

/// The bytes of a header are its four fields in declared order, each as two
/// bytes in the machine's byte order: length, message id, type code, reserved,
/// whatever the packet type and the field values.
pub proof fn lemma_header_layout(h: PacketHeader)
    ensures
        h.to_wire().len() == 8,
        h.to_wire().subrange(0, 2) == u16_ne(h.len),
        h.to_wire().subrange(2, 4) == u16_ne(h.msg_id),
        h.to_wire().subrange(4, 6) == u16_ne(packet_type_code(h.packet_type)),
        h.to_wire().subrange(6, 8) == u16_ne(h.reserved),
{
    let w = h.to_wire();
    assert(w.subrange(0, 2) =~= u16_ne(h.len));
    assert(w.subrange(2, 4) =~= u16_ne(h.msg_id));
    assert(w.subrange(4, 6) =~= u16_ne(packet_type_code(h.packet_type)));
    assert(w.subrange(6, 8) =~= u16_ne(h.reserved));
}

/// A header read from a buffer of at least eight bytes takes each field from
/// its own place, in the machine's byte order: the length from bytes 0..2,
/// the message id from 2..4, the type from the code in 4..6 and the reserved
/// field from 6..8, whatever the values.
pub proof fn lemma_header_read_fields(b: Seq<u8>)
    requires
        b.len() >= PACKET_HEADER_LEN,
    ensures
        struct_from_bytes::<PacketHeader>(b) == Ok::<PacketHeader, OssuaryError>(
            PacketHeader {
                len: u16_from_ne(b, 0),
                msg_id: u16_from_ne(b, 2),
                packet_type: packet_type_of_code(u16_from_ne(b, 4)),
                reserved: u16_from_ne(b, 6),
            },
        ),
        u16_ne(u16_from_ne(b, 0)) == b.subrange(0, 2),
        u16_ne(u16_from_ne(b, 2)) == b.subrange(2, 4),
        u16_ne(u16_from_ne(b, 6)) == b.subrange(6, 8),
{
    let f = b.subrange(0, 8);
    assert(u16_from_ne(f, 0) == u16_from_ne(b, 0));
    assert(u16_from_ne(f, 2) == u16_from_ne(b, 2));
    assert(u16_from_ne(f, 4) == u16_from_ne(b, 4));
    assert(u16_from_ne(f, 6) == u16_from_ne(b, 6));
    lemma_u16_from_ne_bytes(b, 0);
    lemma_u16_from_ne_bytes(b, 2);
    lemma_u16_from_ne_bytes(b, 6);
}

/// The bytes of an encrypted-packet header are the data length and then the
/// tag length, each as two bytes in the machine's byte order, whatever the
/// values.
pub proof fn lemma_encrypted_layout(e: EncryptedPacket)
    ensures
        e.to_wire().len() == 4,
        e.to_wire().subrange(0, 2) == u16_ne(e.data_len),
        e.to_wire().subrange(2, 4) == u16_ne(e.tag_len),
{
    let w = e.to_wire();
    assert(w.subrange(0, 2) =~= u16_ne(e.data_len));
    assert(w.subrange(2, 4) =~= u16_ne(e.tag_len));
}

/// An encrypted-packet header read from a buffer of at least four bytes
/// takes the data length from bytes 0..2 and the tag length from bytes 2..4,
/// in the machine's byte order, whatever the values.
pub proof fn lemma_encrypted_read_fields(b: Seq<u8>)
    requires
        b.len() >= ENCRYPTED_PACKET_LEN,
    ensures
        struct_from_bytes::<EncryptedPacket>(b) == Ok::<EncryptedPacket, OssuaryError>(
            EncryptedPacket { data_len: u16_from_ne(b, 0), tag_len: u16_from_ne(b, 2) },
        ),
        u16_ne(u16_from_ne(b, 0)) == b.subrange(0, 2),
        u16_ne(u16_from_ne(b, 2)) == b.subrange(2, 4),
{
    let f = b.subrange(0, 4);
    assert(u16_from_ne(f, 0) == u16_from_ne(b, 0));
    assert(u16_from_ne(f, 2) == u16_from_ne(b, 2));
    lemma_u16_from_ne_bytes(b, 0);
    lemma_u16_from_ne_bytes(b, 2);
}

/// Reading an encrypted packet's data: a packet whose data holds at least
/// four bytes gives the header whose data length and tag length are its first
/// two and next two bytes in the machine's byte order, and, as the rest, every
/// byte after those four.
pub proof fn lemma_encrypted_packet_read(data: Seq<u8>)
    requires
        data.len() >= ENCRYPTED_PACKET_LEN,
    ensures
        struct_from_bytes::<EncryptedPacket>(data) == Ok::<EncryptedPacket, OssuaryError>(
            EncryptedPacket { data_len: u16_from_ne(data, 0), tag_len: u16_from_ne(data, 2) },
        ),
        EncryptedPacket::wire_len() == 4,
        data.subrange(EncryptedPacket::wire_len() as int, data.len() as int) == data.subrange(
            4,
            data.len() as int,
        ),
{
    lemma_encrypted_read_fields(data);
}

/// A complete network packet: its header and its data (for an encrypted
/// packet, the `EncryptedPacket` header, the ciphertext and the tag).
pub struct NetworkPacket {
    pub header: PacketHeader,
    pub data: Vec<u8>,
}

impl NetworkPacket {
    /// The type of the packet, as its header gives it.
    pub fn kind(&self) -> (t: PacketType)
        ensures
            t == self.header.packet_type,
    {
        self.header.packet_type
    }
}

/// What reading a structure from the front of `bytes` gives: the structure
/// when `bytes` holds at least its encoding's length, else `InvalidStruct`.
pub open spec fn struct_from_bytes<T: WireStruct>(bytes: Seq<u8>) -> Result<T, OssuaryError> {
    if bytes.len() < T::wire_len() {
        Err(OssuaryError::InvalidStruct)
    } else {
        Ok(T::from_wire(bytes.subrange(0, T::wire_len() as int)))
    }
}

/// The bytes of a structure.
pub fn struct_as_slice<T: WireStruct>(p: &T) -> (b: Vec<u8>)
    ensures
        b@ == p.to_wire(),
{
    p.encode()
}

/// Read a structure from the front of a byte buffer.
pub fn slice_as_struct<T: WireStruct>(p: &[u8]) -> (r: Result<T, OssuaryError>)
    ensures
        r == struct_from_bytes::<T>(p@),
{
    if p.len() < T::size() {
        return Err(OssuaryError::InvalidStruct);
    }
    Ok(T::decode(p))
}

/// Read a structure from the front of a packet's data.
pub fn interpret_packet<T: WireStruct>(pkt: &NetworkPacket) -> (r: Result<T, OssuaryError>)
    ensures
        r == struct_from_bytes::<T>(pkt.data@),
{
    slice_as_struct(pkt.data.as_slice())
}

/// Read a structure from the front of a packet's data, and also return the
/// bytes of the data that follow it.
pub fn interpret_packet_extra<'a, T: WireStruct>(pkt: &'a NetworkPacket) -> (r: Result<
    (T, &'a [u8]),
    OssuaryError,
>)
    ensures
        match r {
            Ok((s, rest)) => struct_from_bytes::<T>(pkt.data@) == Ok::<T, OssuaryError>(s)
                && rest@ == pkt.data@.subrange(T::wire_len() as int, pkt.data@.len() as int),
            Err(e) => struct_from_bytes::<T>(pkt.data@) == Err::<T, OssuaryError>(e),
        },
{
    let data = pkt.data.as_slice();
    let s: T = slice_as_struct(data)?;
    let n = T::size();
    Ok((s, vstd::slice::slice_subrange(data, n, data.len())))
}

/// Reading a structure back from its own bytes gives the structure: what
/// `struct_as_slice` writes, `slice_as_struct` reads back.
pub proof fn lemma_struct_bytes_roundtrip<T: WireStruct>(x: T)
    ensures
        struct_from_bytes::<T>(x.to_wire()) == Ok::<T, OssuaryError>(x),
{
    x.lemma_wire_roundtrip();
    assert(x.to_wire().subrange(0, T::wire_len() as int) =~= x.to_wire());
}

/// Framing: a packet whose data is a structure's bytes followed by more bytes
/// reads back as that structure followed by exactly those bytes.
pub proof fn lemma_packet_extra_roundtrip<T: WireStruct>(x: T, rest: Seq<u8>)
    ensures
        struct_from_bytes::<T>(x.to_wire() + rest) == Ok::<T, OssuaryError>(x),
        (x.to_wire() + rest).subrange(T::wire_len() as int, (x.to_wire() + rest).len() as int)
            == rest,
{
    x.lemma_wire_roundtrip();
    let w = x.to_wire() + rest;
    assert(w.subrange(0, T::wire_len() as int) =~= x.to_wire());
    assert(w.subrange(T::wire_len() as int, w.len() as int) =~= rest);
}

} // verus!

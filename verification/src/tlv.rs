//! The TLV record codec: a bounded-capacity record (type category, explicit
//! length, opaque payload) and its conversion to and from the on-wire byte
//! layout — a 2-byte big-endian type code, a 2-byte big-endian length, then
//! `length` payload bytes.

use vstd::prelude::*;

use crate::tlv_type::TlvType;

verus! {

/// Payloads are stored in a fixed-capacity vector of this many bytes; a
/// record declaring a longer payload is rejected with `CapacityError`.
pub const VALUE_CAPACITY: usize = 128;

/// Why an encode or decode call failed; every failure is returned, never
/// panicked.
#[derive(Debug, Clone, Copy, PartialEq, Eq, Structural)]
pub enum WireFormatError {
    /// The buffer is shorter than the 4-byte header, or shorter than the
    /// header plus the declared payload length.
    BufferTooShort,
    /// The declared payload length exceeds `VALUE_CAPACITY`, however many
    /// bytes the buffer itself holds.
    CapacityError,
}

#[verifier::external_type_specification]
#[verifier::external_body]
#[verifier::reject_recursive_types(T)]
pub struct ExArrayVec<T, const CAP: usize>(arrayvec::ArrayVec<T, CAP>);

#[verifier::external_type_specification]
#[verifier::external_body]
#[verifier::reject_recursive_types(T)]
pub struct ExCapacityError<T>(arrayvec::CapacityError<T>);

/// Relies on `arrayvec::ArrayVec::clone` only to exist, so that records can
/// be cloned; nothing is claimed of the copy.
pub assume_specification<T: Clone, const CAP: usize>[ <arrayvec::ArrayVec<T, CAP> as Clone>::clone ](
    v: &arrayvec::ArrayVec<T, CAP>,
) -> arrayvec::ArrayVec<T, CAP>
;

/// The bytes a payload vector holds, in order.
pub uninterp spec fn value_bytes(v: arrayvec::ArrayVec<u8, 128>) -> Seq<u8>;

/// Relies on `arrayvec::ArrayVec::new`: a freshly created vector is empty.
#[verifier::external_body]
fn value_new() -> (v: arrayvec::ArrayVec<u8, 128>)
    ensures
        value_bytes(v) == Seq::<u8>::empty(),
{
    arrayvec::ArrayVec::new()
}

/// Relies on `arrayvec::ArrayVec::try_push`: below capacity the element is
/// appended and `Ok` returned; at capacity the vector is unchanged and the
/// rejected element comes back inside the error.
#[verifier::external_body]
fn value_try_push(v: &mut arrayvec::ArrayVec<u8, 128>, byte: u8) -> (r: Result<
    (),
    arrayvec::CapacityError<u8>,
>)
    ensures
        value_bytes(*old(v)).len() < 128 ==> r is Ok && value_bytes(*final(v)) == value_bytes(
            *old(v),
        ).push(byte),
        value_bytes(*old(v)).len() >= 128 ==> r is Err && value_bytes(*final(v)) == value_bytes(
            *old(v),
        ),
{
    v.try_push(byte)
}

/// Relies on `arrayvec::ArrayVec::as_slice`: the slice holds exactly the
/// vector's elements, in order.
#[verifier::external_body]
fn value_as_slice(v: &arrayvec::ArrayVec<u8, 128>) -> (s: &[u8])
    ensures
        s@ == value_bytes(*v),
{
    v.as_slice()
}

/// The high byte of a 16-bit value as written on the wire (big-endian).
pub open spec fn u16_hi(x: u16) -> u8 {
    (x / 256) as u8
}

/// The low byte of a 16-bit value as written on the wire (big-endian).
pub open spec fn u16_lo(x: u16) -> u8 {
    (x % 256) as u8
}

/// The 16-bit value read big-endian from two wire bytes.
pub open spec fn u16_from_bytes(hi: u8, lo: u8) -> u16 {
    (hi * 256 + lo) as u16
}

/// Splitting a 16-bit value into its wire bytes and reading them back is the
/// identity.
pub proof fn lemma_u16_bytes_roundtrip(x: u16)
    ensures
        u16_from_bytes(u16_hi(x), u16_lo(x)) == x,
{
}

/// The mathematical model of a TLV record: its category, declared length and
/// payload bytes.
#[verifier::ext_equal]
pub ghost struct TlvModel {
    pub tlv_type: TlvType,
    pub length: u16,
    pub value: Seq<u8>,
}

impl TlvModel {
    /// A record is well formed when its declared length matches its payload
    /// size; decode only produces such records, and encode requires one.
    pub open spec fn wf(self) -> bool {
        self.value.len() == self.length as int
    }

    /// Bytes the record occupies on the wire: 4 header bytes plus the
    /// declared payload length.
    pub open spec fn spec_wire_size(self) -> int {
        4 + self.length as int
    }

    /// The record's exact wire image: big-endian type code, big-endian
    /// length, then the payload verbatim.
    pub open spec fn wire_bytes(self) -> Seq<u8> {
        seq![
            u16_hi(self.tlv_type.spec_to_primitive()),
            u16_lo(self.tlv_type.spec_to_primitive()),
            u16_hi(self.length),
            u16_lo(self.length),
        ] + self.value
    }
}

/// What decoding a byte sequence yields: `BufferTooShort` without a full
/// header or with fewer bytes than the declared length requires,
/// `CapacityError` for a declared length over `VALUE_CAPACITY`, and otherwise
/// the record read from the header and payload bytes.
pub open spec fn spec_decode(buffer: Seq<u8>) -> Result<TlvModel, WireFormatError> {
    if buffer.len() < 4 {
        Err(WireFormatError::BufferTooShort)
    } else {
        let length = u16_from_bytes(buffer[2], buffer[3]);
        if buffer.len() < 4 + length as int {
            Err(WireFormatError::BufferTooShort)
        } else if length as int > VALUE_CAPACITY as int {
            Err(WireFormatError::CapacityError)
        } else {
            Ok(
                TlvModel {
                    tlv_type: TlvType::spec_from_primitive(u16_from_bytes(buffer[0], buffer[1])),
                    length,
                    value: buffer.subrange(4, 4 + length as int),
                },
            )
        }
    }
}

/// The model of a decode result: the record's model on success, the error
/// itself on failure.
pub open spec fn decoded_model(r: Result<TLV, WireFormatError>) -> Result<
    TlvModel,
    WireFormatError,
> {
    match r {
        Ok(t) => Ok(t@),
        Err(e) => Err(e),
    }
}

/// A TLV extension record: a semantic type category, the declared payload
/// length in bytes, and the opaque payload itself, bounded by
/// `VALUE_CAPACITY`. The caller keeps `length` equal to the payload size;
/// decode always does.
#[derive(Debug, Clone, PartialEq, Eq)]
pub struct TLV {
    pub tlv_type: TlvType,
    pub length: u16,
    pub value: arrayvec::ArrayVec<u8, 128>,
}

impl View for TLV {
    type V = TlvModel;

    open spec fn view(&self) -> TlvModel {
        TlvModel {
            tlv_type: self.tlv_type,
            length: self.length,
            value: value_bytes(self.value),
        }
    }
}

impl Default for TLV {
    /// An empty record of the default category: zero length, no payload.
    fn default() -> (t: Self)
        ensures
            t@.tlv_type == TlvType::Management,
            t@.length == 0,
            t@.value == Seq::<u8>::empty(),
            t@.wf(),
    {
        TLV { tlv_type: TlvType::Management, length: 0, value: value_new() }
    }
}

impl TLV {
    /// Number of bytes this record occupies on the wire; always what
    /// `serialize` writes.
    pub fn wire_size(&self) -> (size: usize)
        ensures
            size == self@.spec_wire_size(),
    {
        4 + self.length as usize
    }

    /// Encodes the record into the start of `buffer`: the type's wire code
    /// big-endian at bytes 0..2, the length big-endian at bytes 2..4, then
    /// the payload verbatim. Bytes past the record's wire size are left
    /// untouched, and the call always succeeds on a buffer of sufficient
    /// size.
    pub fn serialize(&self, buffer: &mut [u8]) -> (r: Result<(), WireFormatError>)
        requires
            self@.wf(),
            old(buffer)@.len() >= self@.spec_wire_size(),
        ensures
            r is Ok,
            final(buffer)@.len() == old(buffer)@.len(),
            final(buffer)@.subrange(0, self@.spec_wire_size()) == self@.wire_bytes(),
            forall|i: int|
                self@.spec_wire_size() <= i < old(buffer)@.len() ==> final(buffer)@[i] == old(
                    buffer,
                )@[i],
    {
        let code = self.tlv_type.to_primitive();
        buffer[0] = (code / 256) as u8;
        buffer[1] = (code % 256) as u8;
        buffer[2] = (self.length / 256) as u8;
        buffer[3] = (self.length % 256) as u8;
        let payload = value_as_slice(&self.value);
        proof {
            assert(buffer@.subrange(0, 4) =~= self@.wire_bytes().subrange(0, 4));
        }
        let mut i: usize = 0;
        while i < payload.len()
            invariant
                i <= payload@.len(),
                payload@ == value_bytes(self.value),
                payload@.len() == self.length as int,
                buffer@.len() == old(buffer)@.len(),
                old(buffer)@.len() >= self@.spec_wire_size(),
                buffer@.subrange(0, 4 + i as int) == self@.wire_bytes().subrange(0, 4 + i as int),
                forall|j: int|
                    4 + payload@.len() <= j < buffer@.len() ==> buffer@[j] == old(buffer)@[j],
            decreases payload@.len() - i,
        {
            buffer[4 + i] = payload[i];
            i += 1;
            proof {
                assert(buffer@.subrange(0, 4 + i as int) =~= self@.wire_bytes().subrange(
                    0,
                    4 + i as int,
                ));
            }
        }
        proof {
            assert(buffer@.subrange(0, self@.spec_wire_size()) =~= self@.wire_bytes());
        }
        Ok(())
    }

    /// Decodes one record from the start of `buffer`, all-or-nothing: a
    /// buffer without a full 4-byte header, or with fewer payload bytes than
    /// the header declares, gives `BufferTooShort`; a declared length over
    /// `VALUE_CAPACITY` gives `CapacityError`; otherwise exactly the record
    /// whose header and payload open the buffer is returned.
    pub fn deserialize(buffer: &[u8]) -> (r: Result<TLV, WireFormatError>)
        ensures
            decoded_model(r) == spec_decode(buffer@),
            r matches Ok(t) ==> t@.wf(),
    {
        if buffer.len() < 4 {
            return Err(WireFormatError::BufferTooShort);
        }
        let length: u16 = (buffer[2] as u16) * 256 + (buffer[3] as u16);
        if buffer.len() < 4 + length as usize {
            return Err(WireFormatError::BufferTooShort);
        }
        let mut value = value_new();
        let mut i: usize = 0;
        while i < length as usize
            invariant
                i <= length as int,
                i <= 128,
                length == u16_from_bytes(buffer@[2], buffer@[3]),
                buffer@.len() >= 4 + length as int,
                value_bytes(value) == buffer@.subrange(4, 4 + i as int),
            decreases length as int - i,
        {
            if value_try_push(&mut value, buffer[4 + i]).is_err() {
                return Err(WireFormatError::CapacityError);
            }
            i += 1;
            proof {
                assert(value_bytes(value) =~= buffer@.subrange(4, 4 + i as int));
            }
        }
        let code = (buffer[0] as u16) * 256 + (buffer[1] as u16);
        let t = TLV { tlv_type: TlvType::from_primitive(code), length, value };
        proof {
            assert(t@ =~= spec_decode(buffer@)->Ok_0);
        }
        Ok(t)
    }
}

/// Round trip: a well-formed record whose payload fits the capacity bound
/// decodes unchanged from any buffer that opens with its wire image — in
/// particular from the exact bytes `serialize` writes, whatever follows them.
pub proof fn lemma_encode_decode_roundtrip(m: TlvModel, b: Seq<u8>)
    requires
        m.wf(),
        m.value.len() <= VALUE_CAPACITY as int,
        b.subrange(0, m.spec_wire_size()) == m.wire_bytes(),
        b.len() >= m.spec_wire_size(),
    ensures
        spec_decode(b) == Ok::<TlvModel, WireFormatError>(m),
{
    let w = m.wire_bytes();
    let ws = m.spec_wire_size();
    assert forall|k: int| 0 <= k < ws implies b[k] == w[k] by {
        assert(b.subrange(0, ws)[k] == b[k]);
    }
    lemma_u16_bytes_roundtrip(m.length);
    lemma_u16_bytes_roundtrip(m.tlv_type.spec_to_primitive());
    crate::tlv_type::lemma_to_from_primitive_roundtrip(m.tlv_type);
    assert(b.subrange(4, 4 + m.length as int) =~= m.value);
    assert(spec_decode(b)->Ok_0 =~= m);
}

} // verus!


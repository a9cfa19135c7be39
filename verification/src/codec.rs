//! The directional codec: a canonical 128-bit identifier value, the received
//! wire value it is decoded from, and the two conversion operations built on
//! the reorder transform, together with the column-type compatibility check
//! that gates them.

use crate::descriptor::{DataType, TypeDescriptor};
use crate::reorder::{lemma_reorder_involutive, reorder_bytes, reorder_seq};
use vstd::prelude::*;

verus! {

/// A 128-bit identifier in its canonical rendering: 16 bytes, every
/// multi-byte group in big-endian order. Any 16-byte sequence is a valid
/// identifier; no version or variant bits are checked.
#[derive(Clone, Copy, Debug, PartialEq, Eq)]
pub struct CanonicalId {
    bytes: [u8; 16],
}

impl View for CanonicalId {
    type V = Seq<u8>;

    closed spec fn view(&self) -> Seq<u8> {
        self.bytes@
    }
}

/// Whether an encode call must report its value as null to the caller's
/// null-tracking contract. A canonical identifier is always fully populated,
/// so the codec only ever answers `No`.
#[derive(Clone, Copy, Debug, PartialEq, Eq)]
pub enum IsNull {
    Yes,
    No,
}

/// Why a decode call failed. Decoding either yields a fully-formed
/// identifier or exactly one of these; no partial value is ever produced.
#[derive(Clone, Copy, Debug, PartialEq, Eq)]
pub enum DecodeError {
    /// The wire value's byte slice is not exactly 16 bytes long.
    MalformedLength,
    /// The column value itself could not be read (it was absent or null).
    ValueUnreadable,
}

/// A received column value: either the raw bytes of the column, or nothing
/// when the column was null or unreadable. Its byte accessor fails in the
/// latter case, and decode propagates that failure verbatim.
#[derive(Debug, PartialEq, Eq)]
pub struct WireValue {
    data: Option<Vec<u8>>,
}

impl View for WireValue {
    type V = Option<Seq<u8>>;

    closed spec fn view(&self) -> Option<Seq<u8>> {
        match self.data {
            Some(v) => Some(v@),
            None => None,
        }
    }
}

impl WireValue {
    /// A readable wire value holding the given column bytes.
    pub fn with_bytes(data: Vec<u8>) -> (r: WireValue)
        ensures
            r@ == Some(data@),
    {
        WireValue { data: Some(data) }
    }

    /// A wire value whose bytes cannot be read (absent or null column).
    pub fn unreadable() -> (r: WireValue)
        ensures
            r@ is None,
    {
        WireValue { data: None }
    }

    /// The byte accessor: the column bytes when the value is readable, and
    /// the unreadable-value error otherwise.
    pub fn as_bytes(&self) -> (r: Result<&Vec<u8>, DecodeError>)
        ensures
            self@ matches Some(b) ==> r matches Ok(v) && v@ == b,
            self@ is None ==> r == Err::<&Vec<u8>, DecodeError>(DecodeError::ValueUnreadable),
    {
        match &self.data {
            Some(v) => Ok(v),
            None => Err(DecodeError::ValueUnreadable),
        }
    }
}

impl CanonicalId {
    /// An identifier from its 16 canonical bytes.
    pub fn from_bytes(bytes: [u8; 16]) -> (r: CanonicalId)
        ensures
            r@ == bytes@,
    {
        CanonicalId { bytes }
    }

    /// The identifier's 16 canonical bytes.
    pub fn as_bytes(&self) -> (r: &[u8; 16])
        ensures
            r@ == self@,
    {
        &self.bytes
    }

    /// The column-type descriptor this codec targets: the fixed-length
    /// 16-byte globally-unique-identifier column type.
    pub fn type_descriptor() -> (r: TypeDescriptor)
        ensures
            r.tag is Guid,
            r.size == 16,
    {
        TypeDescriptor::new(DataType::Guid, 16)
    }

    /// Whether this codec may be used for a column of the given type: true
    /// exactly when the descriptor's tag is the globally-unique-identifier
    /// tag. The length is not re-checked; the tag fixes it at 16.
    pub fn is_compatible(ty: &TypeDescriptor) -> (r: bool)
        ensures
            r == (ty.tag is Guid),
    {
        matches!(ty.tag, DataType::Guid)
    }

    /// Serialize the identifier for transmission: append its 16 bytes, run
    /// through the reorder transform, to the output buffer. The buffer grows
    /// by exactly those 16 bytes, and the value is always reported as
    /// non-null. This operation cannot fail.
    pub fn encode(&self, buf: &mut Vec<u8>) -> (r: IsNull)
        ensures
            final(buf)@ == old(buf)@ + reorder_seq(self@),
            final(buf)@.len() == old(buf)@.len() + 16,
            r == IsNull::No,
    {
        let mut bytes: [u8; 16] = self.bytes;
        reorder_bytes(&mut bytes);
        let mut i: usize = 0;
        while i < 16
            invariant
                i <= 16,
                bytes@ == reorder_seq(self@),
                buf@ == old(buf)@ + bytes@.take(i as int),
            decreases 16 - i,
        {
            buf.push(bytes[i]);
            i += 1;
        }
        proof {
            assert(bytes@.take(16) =~= bytes@);
        }
        IsNull::No
    }

    /// Deserialize an identifier from a received wire value: take the
    /// column's bytes, insist on exactly 16 of them, and run them back
    /// through the reorder transform. An unreadable value or a slice of any
    /// other length yields the corresponding error and no identifier.
    pub fn decode(value: &WireValue) -> (r: Result<CanonicalId, DecodeError>)
        ensures
            value@ matches Some(b) ==> (b.len() == 16 ==> (r matches Ok(id) && id@
                == reorder_seq(b))),
            value@ matches Some(b) ==> (b.len() != 16 ==> r == Err::<CanonicalId, DecodeError>(
                DecodeError::MalformedLength,
            )),
            value@ is None ==> r == Err::<CanonicalId, DecodeError>(DecodeError::ValueUnreadable),
            r is Ok <==> (value@ matches Some(b) && b.len() == 16),
    {
        let data = match value.as_bytes() {
            Ok(v) => v,
            Err(e) => {
                return Err(e);
            },
        };
        if data.len() != 16 {
            return Err(DecodeError::MalformedLength);
        }
        let mut bytes: [u8; 16] = [0u8; 16];
        let mut i: usize = 0;
        while i < 16
            invariant
                i <= 16,
                data@.len() == 16,
                forall|j: int| 0 <= j < i ==> bytes@[j] == data@[j],
            decreases 16 - i,
        {
            bytes[i] = data[i];
            i += 1;
        }
        proof {
            assert(bytes@ =~= data@);
        }
        reorder_bytes(&mut bytes);
        Ok(CanonicalId { bytes })
    }
}

/// Round trip: decoding inverts encoding. `encode` appends exactly
/// `reorder_seq(id@)` to the output buffer, and `decode`, given a readable
/// wire value holding a 16-byte sequence `b`, returns an identifier whose
/// bytes are `reorder_seq(b)`; so an identifier whose bytes are
/// `reorder_seq(reorder_seq(id@))` — the one decode reconstructs from the
/// bytes encode appended — is `id` itself.
pub proof fn lemma_encode_decode_round_trip(id: CanonicalId, decoded: CanonicalId)
    requires
        decoded@ == reorder_seq(reorder_seq(id@)),
    ensures
        decoded == id,
{
    lemma_reorder_involutive(id@);
    assert(decoded.bytes =~= id.bytes);
}

} // verus!

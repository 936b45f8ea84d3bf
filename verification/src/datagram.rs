//! The datagram codec itself: decoding a raw datagram into a typed view
//! (stream identifier plus borrowed payload), and encoding such a view back
//! into the exact wire layout, with an exact size query for sizing the
//! destination buffer.

use crate::ids::InvalidQStreamId;
use crate::ids::QStreamId;
use crate::ids::is_valid_qstream_id;
use crate::varint::is_varint_value;
use crate::varint::lemma_varint_roundtrip;
use crate::varint::read_varint;
use crate::varint::spec_read_varint;
use crate::varint::varint_bytes;
use crate::varint::varint_len;
use crate::varint::varint_size;
use crate::varint::write_varint;
use vstd::prelude::*;
use vstd::slice::slice_subrange;

verus! {

/// Error from the datagram read operation.
#[derive(Clone, Copy, Debug, PartialEq, Eq)]
pub enum DatagramReadError {
    /// The raw datagram is too short to hold a complete identifier encoding.
    TooShort,
    /// The leading integer is not a valid qstream identifier.
    InvalidQStreamId,
}

/// Error from the datagram write operation: the destination buffer is
/// smaller than [`Datagram::write_size`] requires.
#[derive(Clone, Copy, Debug, PartialEq, Eq)]
pub struct EndOfBuffer;

/// The mathematical value of a datagram: the identifier it carries and the
/// bytes of its payload.
pub struct SpecDatagram {
    pub qstream_id: u64,
    pub payload: Seq<u8>,
}

/// The exact wire image of a datagram: the minimal varint encoding of the
/// identifier, followed by the payload verbatim.
pub open spec fn spec_encoding(id: u64, payload: Seq<u8>) -> Seq<u8> {
    varint_bytes(id) + payload
}

/// Number of bytes the wire image of `d` occupies.
pub open spec fn spec_write_size(d: SpecDatagram) -> nat {
    varint_len(d.qstream_id) + d.payload.len()
}

/// What decoding a raw datagram yields: `TooShort` when the buffer cannot
/// hold the identifier encoding its first byte declares, `InvalidQStreamId`
/// when the decoded integer is rejected by the identifier rule, and
/// otherwise the identifier together with every remaining byte as payload.
pub open spec fn spec_read(raw: Seq<u8>) -> Result<SpecDatagram, DatagramReadError> {
    match spec_read_varint(raw) {
        Option::None => Err(DatagramReadError::TooShort),
        Option::Some((v, l)) => {
            if is_valid_qstream_id(v) {
                Ok(SpecDatagram { qstream_id: v, payload: raw.skip(l as int) })
            } else {
                Err(DatagramReadError::InvalidQStreamId)
            }
        },
    }
}

/// An HTTP3 datagram: a validated stream identifier and a borrowed,
/// zero-copy view of the payload bytes.
pub struct Datagram<'a> {
    qstream_id: QStreamId,
    payload: &'a [u8],
}

impl View for Datagram<'_> {
    type V = SpecDatagram;

    closed spec fn view(&self) -> SpecDatagram {
        SpecDatagram { qstream_id: self.qstream_id@, payload: self.payload@ }
    }
}

impl<'a> Datagram<'a> {
    /// Creates a new [`Datagram`] with a given payload.
    pub fn new(qstream_id: QStreamId, payload: &'a [u8]) -> (r: Self)
        ensures
            r@ == (SpecDatagram { qstream_id: qstream_id@, payload: payload@ }),
    {
        Self { qstream_id, payload }
    }

    /// Reads a [`Datagram`] from a raw datagram buffer. The payload borrows
    /// the tail of `quic_datagram`; nothing is copied.
    pub fn read(quic_datagram: &'a [u8]) -> (r: Result<Self, DatagramReadError>)
        ensures
            match r {
                Ok(d) => spec_read(quic_datagram@) == Ok::<SpecDatagram, DatagramReadError>(d@),
                Err(e) => spec_read(quic_datagram@) == Err::<SpecDatagram, DatagramReadError>(e),
            },
    {
        match read_varint(quic_datagram) {
            None => Err(DatagramReadError::TooShort),
            Some((varint, l)) => {
                match QStreamId::try_from_varint(varint) {
                    Err(InvalidQStreamId) => Err(DatagramReadError::InvalidQStreamId),
                    Ok(qstream_id) => {
                        let payload = slice_subrange(quic_datagram, l, quic_datagram.len());
                        proof {
                            assert(quic_datagram@.subrange(
                                l as int,
                                quic_datagram@.len() as int,
                            ) =~= quic_datagram@.skip(l as int));
                        }
                        Ok(Self { qstream_id, payload })
                    },
                }
            },
        }
    }

    /// Writes this [`Datagram`] into `buffer` in wire layout.
    ///
    /// It returns [`Err`] if `buffer` does not have the capacity
    /// [`Self::write_size`] reports; `buffer` is then left untouched. On
    /// success, exactly the first [`Self::write_size`] bytes of `buffer` are
    /// written and every byte after them keeps its old value.
    pub fn write(&self, buffer: &mut [u8]) -> (r: Result<(), EndOfBuffer>)
        ensures
            match r {
                Ok(_) => {
                    &&& spec_write_size(self@) <= old(buffer)@.len()
                    &&& final(buffer)@.len() == old(buffer)@.len()
                    &&& final(buffer)@.subrange(0, spec_write_size(self@) as int)
                        == spec_encoding(self@.qstream_id, self@.payload)
                    &&& forall|i: int|
                        spec_write_size(self@) <= i < old(buffer)@.len() ==> final(buffer)@[i]
                            == old(buffer)@[i]
                },
                Err(_) => {
                    &&& old(buffer)@.len() < spec_write_size(self@)
                    &&& final(buffer)@ == old(buffer)@
                },
            },
    {
        let ghost buf0: Seq<u8> = buffer@;
        let id = self.qstream_id.into_varint();
        let vsize = varint_size(id);
        if buffer.len() < vsize || buffer.len() - vsize < self.payload.len() {
            return Err(EndOfBuffer);
        }
        let l = write_varint(buffer, id);
        let plen = self.payload.len();
        let mut i: usize = 0;
        while i < plen
            invariant
                i <= plen,
                l == varint_len(id),
                plen == self.payload@.len(),
                l + plen <= usize::MAX,
                l + plen <= buffer@.len(),
                buffer@.len() == buf0.len(),
                buffer@.subrange(0, l as int) == varint_bytes(id),
                forall|j: int| 0 <= j < i ==> buffer@[l + j] == self.payload@[j],
                forall|j: int| l + i <= j < buf0.len() ==> buffer@[j] == buf0[j],
            decreases plen - i,
        {
            buffer[l + i] = self.payload[i];
            i += 1;
        }
        proof {
            assert(buffer@.subrange(0, (l + plen) as int) =~= spec_encoding(
                self@.qstream_id,
                self@.payload,
            ));
        }
        Ok(())
    }

    /// Returns the exact capacity needed to write this [`Datagram`] into a
    /// buffer: the length of the identifier's varint encoding plus the
    /// payload length.
    pub fn write_size(&self) -> (n: usize)
        requires
            spec_write_size(self@) <= usize::MAX,
        ensures
            n == spec_write_size(self@),
    {
        varint_size(self.qstream_id.into_varint()) + self.payload.len()
    }

    /// Returns the associated [`QStreamId`].
    pub fn qstream_id(&self) -> (r: QStreamId)
        ensures
            r@ == self@.qstream_id,
    {
        self.qstream_id
    }

    /// Returns the payload.
    pub fn payload(&self) -> (r: &[u8])
        ensures
            r@ == self@.payload,
    {
        self.payload
    }
}

/// Round-trip law: decoding the wire image of any valid identifier and any
/// payload (the empty one included) succeeds and yields exactly that
/// identifier and that payload.
pub proof fn lemma_round_trip(id: u64, payload: Seq<u8>)
    requires
        is_valid_qstream_id(id),
    ensures
        spec_read(spec_encoding(id, payload)) == Ok::<SpecDatagram, DatagramReadError>(
            SpecDatagram { qstream_id: id, payload },
        ),
{
    lemma_varint_roundtrip(id, payload);
    assert((varint_bytes(id) + payload).skip(varint_len(id) as int) =~= payload);
}

/// Size law: the wire image of a datagram is exactly `spec_write_size` of it
/// bytes long.
pub proof fn lemma_write_size_exact(d: SpecDatagram)
    requires
        is_valid_qstream_id(d.qstream_id),
    ensures
        spec_encoding(d.qstream_id, d.payload).len() == spec_write_size(d),
{
    lemma_varint_roundtrip(d.qstream_id, d.payload);
}

/// Truncation law: decoding any strict prefix of a valid identifier
/// encoding fails with `TooShort`.
pub proof fn lemma_truncated_too_short(id: u64, raw: Seq<u8>)
    requires
        is_valid_qstream_id(id),
        raw.is_prefix_of(varint_bytes(id)),
        raw.len() < varint_bytes(id).len(),
    ensures
        spec_read(raw) == Err::<SpecDatagram, DatagramReadError>(DatagramReadError::TooShort),
{
    lemma_varint_roundtrip(id, Seq::empty());
    assert(varint_bytes(id) + Seq::<u8>::empty() =~= varint_bytes(id));
    if raw.len() > 0 {
        assert(raw[0] == varint_bytes(id)[0]);
    }
}

/// Empty-payload law: decoding an input that is exactly one valid identifier
/// encoding succeeds with an empty payload; it is not an error.
pub proof fn lemma_empty_payload(id: u64)
    requires
        is_valid_qstream_id(id),
    ensures
        spec_read(varint_bytes(id)) == Ok::<SpecDatagram, DatagramReadError>(
            SpecDatagram { qstream_id: id, payload: Seq::empty() },
        ),
{
    lemma_round_trip(id, Seq::empty());
    assert(spec_encoding(id, Seq::empty()) =~= varint_bytes(id));
}

/// Invalid-identifier law: decoding an input whose leading varint decodes
/// successfully but is rejected by the identifier rule fails with
/// `InvalidQStreamId`, whatever bytes follow the encoding.
pub proof fn lemma_invalid_identifier(id: u64, rest: Seq<u8>)
    requires
        is_varint_value(id),
        !is_valid_qstream_id(id),
    ensures
        spec_read(varint_bytes(id) + rest) == Err::<SpecDatagram, DatagramReadError>(
            DatagramReadError::InvalidQStreamId,
        ),
{
    lemma_varint_roundtrip(id, rest);
}

} // verus!

//! Validated stream identifiers. A qstream identifier names the logical
//! stream a datagram belongs to; it is accepted only when four times its
//! value still fits in a variable-length integer, so the identifier space is
//! `0 ..= (2^62 - 1) / 4`.

use crate::varint::is_varint_value;
use vstd::prelude::*;

verus! {

/// Largest value accepted as a qstream identifier: `(2^62 - 1) / 4`.
pub const QSTREAM_ID_MAX: u64 = 0x0fff_ffff_ffff_ffff;

/// The validation rule for qstream identifiers.
pub open spec fn is_valid_qstream_id(v: u64) -> bool {
    v <= QSTREAM_ID_MAX
}

/// Error for an integer outside the qstream identifier space.
#[derive(Clone, Copy, Debug, PartialEq, Eq)]
pub struct InvalidQStreamId;

/// A validated qstream identifier. Values of this type always satisfy
/// [`is_valid_qstream_id`]: the only constructor rejects anything else.
#[derive(Clone, Copy, Debug, PartialEq, Eq)]
pub struct QStreamId {
    id: u64,
}

impl View for QStreamId {
    type V = u64;

    closed spec fn view(&self) -> u64 {
        self.id
    }
}

impl QStreamId {
    #[verifier::type_invariant]
    spec fn type_inv(self) -> bool {
        is_valid_qstream_id(self.id)
    }

    /// Validates a decoded variable-length integer as a qstream identifier.
    pub fn try_from_varint(varint: u64) -> (r: Result<QStreamId, InvalidQStreamId>)
        ensures
            r is Ok <==> is_valid_qstream_id(varint),
            r matches Ok(q) ==> q@ == varint,
    {
        if varint <= QSTREAM_ID_MAX {
            Ok(QStreamId { id: varint })
        } else {
            Err(InvalidQStreamId)
        }
    }

    /// Returns the identifier as the integer its wire encoding carries.
    pub fn into_varint(self) -> (v: u64)
        ensures
            v == self@,
            is_valid_qstream_id(v),
            is_varint_value(v),
    {
        proof {
            use_type_invariant(&self);
        }
        self.id
    }
}

} // verus!

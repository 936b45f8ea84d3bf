//! Variable-length integer encoding, as used by the surrounding transport
//! protocol: a self-describing, minimal-length binary encoding of integers
//! up to `2^62 - 1`. The two topmost bits of the first byte give the total
//! length of the encoding (1, 2, 4 or 8 bytes); the remaining bits, read in
//! network byte order, give the value.

use vstd::prelude::*;

verus! {

/// Largest value a variable-length integer can carry: `2^62 - 1`.
pub const VARINT_MAX: u64 = 0x3fff_ffff_ffff_ffff;

/// Whether `v` lies in the space of encodable values.
pub open spec fn is_varint_value(v: u64) -> bool {
    v <= VARINT_MAX
}

/// Length in bytes of the minimal encoding of `v`.
pub open spec fn varint_len(v: u64) -> nat {
    if v < 0x40 {
        1
    } else if v < 0x4000 {
        2
    } else if v < 0x4000_0000 {
        4
    } else {
        8
    }
}

/// The minimal-length encoding of `v`, meaningful when `is_varint_value(v)`.
pub open spec fn varint_bytes(v: u64) -> Seq<u8> {
    if v < 0x40 {
        seq![v as u8]
    } else if v < 0x4000 {
        seq![(0x40 | (v >> 8)) as u8, (v & 0xff) as u8]
    } else if v < 0x4000_0000 {
        seq![
            (0x80 | (v >> 24)) as u8,
            ((v >> 16) & 0xff) as u8,
            ((v >> 8) & 0xff) as u8,
            (v & 0xff) as u8,
        ]
    } else {
        seq![
            (0xc0 | (v >> 56)) as u8,
            ((v >> 48) & 0xff) as u8,
            ((v >> 40) & 0xff) as u8,
            ((v >> 32) & 0xff) as u8,
            ((v >> 24) & 0xff) as u8,
            ((v >> 16) & 0xff) as u8,
            ((v >> 8) & 0xff) as u8,
            (v & 0xff) as u8,
        ]
    }
}

/// Total length, in bytes, that an encoding starting with the byte `b`
/// declares for itself.
pub open spec fn varint_declared_len(b: u8) -> nat {
    if b < 0x40 {
        1
    } else if b < 0x80 {
        2
    } else if b < 0xc0 {
        4
    } else {
        8
    }
}

/// Value of the encoding at the front of `s`, meaningful when `s` holds at
/// least `varint_declared_len(s[0])` bytes.
pub open spec fn varint_value_at(s: Seq<u8>) -> u64 {
    let l = varint_declared_len(s[0]);
    if l == 1 {
        (s[0] & 0x3f) as u64
    } else if l == 2 {
        (((s[0] & 0x3f) as u64) << 8) | (s[1] as u64)
    } else if l == 4 {
        (((s[0] & 0x3f) as u64) << 24) | ((s[1] as u64) << 16) | ((s[2] as u64) << 8) | (
        s[3] as u64)
    } else {
        (((s[0] & 0x3f) as u64) << 56) | ((s[1] as u64) << 48) | ((s[2] as u64) << 40) | ((
        s[3] as u64) << 32) | ((s[4] as u64) << 24) | ((s[5] as u64) << 16) | ((s[6] as u64) << 8)
            | (s[7] as u64)
    }
}

/// Result of reading one variable-length integer from the front of `s`:
/// `None` when `s` is too short to hold the encoding its first byte
/// declares, else the value together with the number of bytes consumed.
pub open spec fn spec_read_varint(s: Seq<u8>) -> Option<(u64, nat)> {
    if s.len() == 0 {
        None
    } else if s.len() < varint_declared_len(s[0]) {
        None
    } else {
        Some((varint_value_at(s), varint_declared_len(s[0])))
    }
}

/// The minimal encoding declares its own length: its first byte announces
/// exactly `varint_len(v)` bytes, and reading it back from the front of any
/// byte sequence that starts with it yields `v` again, consuming exactly the
/// encoding and nothing of what follows.
pub proof fn lemma_varint_roundtrip(v: u64, rest: Seq<u8>)
    requires
        is_varint_value(v),
    ensures
        varint_bytes(v).len() == varint_len(v),
        spec_read_varint(varint_bytes(v) + rest) == Some((v, varint_len(v))),
{
    let s = varint_bytes(v) + rest;
    if v < 0x40 {
        let b0 = v as u8;
        assert(s[0] == b0);
        assert(b0 < 0x40 && ((b0 & 0x3f) as u64) == v) by (bit_vector)
            requires
                b0 == v as u8,
                v < 0x40,
        ;
    } else if v < 0x4000 {
        let b0 = (0x40 | (v >> 8)) as u8;
        let b1 = (v & 0xff) as u8;
        assert(s[0] == b0 && s[1] == b1);
        assert(0x40 <= b0 < 0x80 && ((((b0 & 0x3f) as u64) << 8) | (b1 as u64)) == v)
            by (bit_vector)
            requires
                b0 == (0x40 | (v >> 8)) as u8,
                b1 == (v & 0xff) as u8,
                v < 0x4000,
        ;
    } else if v < 0x4000_0000 {
        let b0 = (0x80 | (v >> 24)) as u8;
        let b1 = ((v >> 16) & 0xff) as u8;
        let b2 = ((v >> 8) & 0xff) as u8;
        let b3 = (v & 0xff) as u8;
        assert(s[0] == b0 && s[1] == b1 && s[2] == b2 && s[3] == b3);
        assert(0x80 <= b0 < 0xc0 && ((((b0 & 0x3f) as u64) << 24) | ((b1 as u64) << 16) | ((
        b2 as u64) << 8) | (b3 as u64)) == v) by (bit_vector)
            requires
                b0 == (0x80 | (v >> 24)) as u8,
                b1 == ((v >> 16) & 0xff) as u8,
                b2 == ((v >> 8) & 0xff) as u8,
                b3 == (v & 0xff) as u8,
                v < 0x4000_0000,
        ;
    } else {
        let b0 = (0xc0 | (v >> 56)) as u8;
        let b1 = ((v >> 48) & 0xff) as u8;
        let b2 = ((v >> 40) & 0xff) as u8;
        let b3 = ((v >> 32) & 0xff) as u8;
        let b4 = ((v >> 24) & 0xff) as u8;
        let b5 = ((v >> 16) & 0xff) as u8;
        let b6 = ((v >> 8) & 0xff) as u8;
        let b7 = (v & 0xff) as u8;
        assert(s[0] == b0 && s[1] == b1 && s[2] == b2 && s[3] == b3 && s[4] == b4 && s[5] == b5
            && s[6] == b6 && s[7] == b7);
        assert(0xc0 <= b0 && ((((b0 & 0x3f) as u64) << 56) | ((b1 as u64) << 48) | ((b2 as u64)
            << 40) | ((b3 as u64) << 32) | ((b4 as u64) << 24) | ((b5 as u64) << 16) | ((
        b6 as u64) << 8) | (b7 as u64)) == v) by (bit_vector)
            requires
                b0 == (0xc0 | (v >> 56)) as u8,
                b1 == ((v >> 48) & 0xff) as u8,
                b2 == ((v >> 40) & 0xff) as u8,
                b3 == ((v >> 32) & 0xff) as u8,
                b4 == ((v >> 24) & 0xff) as u8,
                b5 == ((v >> 16) & 0xff) as u8,
                b6 == ((v >> 8) & 0xff) as u8,
                b7 == (v & 0xff) as u8,
                v <= 0x3fff_ffff_ffff_ffff,
        ;
    }
}

/// Returns the length in bytes of the minimal encoding of `v`.
pub fn varint_size(v: u64) -> (n: usize)
    ensures
        n == varint_len(v),
{
    if v < 0x40 {
        1
    } else if v < 0x4000 {
        2
    } else if v < 0x4000_0000 {
        4
    } else {
        8
    }
}

/// Writes the minimal encoding of `v` at the front of `buf` and returns its
/// length. Bytes past the encoding are left untouched.
pub fn write_varint(buf: &mut [u8], v: u64) -> (l: usize)
    requires
        is_varint_value(v),
        varint_len(v) <= old(buf)@.len(),
    ensures
        l == varint_len(v),
        final(buf)@.len() == old(buf)@.len(),
        final(buf)@.subrange(0, l as int) == varint_bytes(v),
        forall|i: int| l <= i < old(buf)@.len() ==> final(buf)@[i] == old(buf)@[i],
{
    if v < 0x40 {
        buf[0] = v as u8;
        assert(buf@.subrange(0, 1) =~= varint_bytes(v));
        1
    } else if v < 0x4000 {
        buf[0] = (0x40 | (v >> 8)) as u8;
        buf[1] = (v & 0xff) as u8;
        assert(buf@.subrange(0, 2) =~= varint_bytes(v));
        2
    } else if v < 0x4000_0000 {
        buf[0] = (0x80 | (v >> 24)) as u8;
        buf[1] = ((v >> 16) & 0xff) as u8;
        buf[2] = ((v >> 8) & 0xff) as u8;
        buf[3] = (v & 0xff) as u8;
        assert(buf@.subrange(0, 4) =~= varint_bytes(v));
        4
    } else {
        buf[0] = (0xc0 | (v >> 56)) as u8;
        buf[1] = ((v >> 48) & 0xff) as u8;
        buf[2] = ((v >> 40) & 0xff) as u8;
        buf[3] = ((v >> 32) & 0xff) as u8;
        buf[4] = ((v >> 24) & 0xff) as u8;
        buf[5] = ((v >> 16) & 0xff) as u8;
        buf[6] = ((v >> 8) & 0xff) as u8;
        buf[7] = (v & 0xff) as u8;
        assert(buf@.subrange(0, 8) =~= varint_bytes(v));
        8
    }
}

/// Reads one variable-length integer from the front of `buf`, returning the
/// decoded value and the number of bytes consumed, or `None` when `buf` is
/// too short to hold the encoding its first byte declares.
pub fn read_varint(buf: &[u8]) -> (r: Option<(u64, usize)>)
    ensures
        match r {
            Some((v, l)) => spec_read_varint(buf@) == Some((v, l as nat)),
            None => spec_read_varint(buf@) is None,
        },
{
    if buf.len() == 0 {
        return None;
    }
    let b0: u8 = *vstd::slice::slice_index_get(buf, 0);
    if b0 < 0x40 {
        Some((((b0 & 0x3f) as u64), 1))
    } else if b0 < 0x80 {
        if buf.len() < 2 {
            return None;
        }
        let b1: u8 = *vstd::slice::slice_index_get(buf, 1);
        Some(((((b0 & 0x3f) as u64) << 8) | (b1 as u64), 2))
    } else if b0 < 0xc0 {
        if buf.len() < 4 {
            return None;
        }
        let b1: u8 = *vstd::slice::slice_index_get(buf, 1);
        let b2: u8 = *vstd::slice::slice_index_get(buf, 2);
        let b3: u8 = *vstd::slice::slice_index_get(buf, 3);
        Some(
            (
                (((b0 & 0x3f) as u64) << 24) | ((b1 as u64) << 16) | ((b2 as u64) << 8) | (
                b3 as u64),
                4,
            ),
        )
    } else {
        if buf.len() < 8 {
            return None;
        }
        let b1: u8 = *vstd::slice::slice_index_get(buf, 1);
        let b2: u8 = *vstd::slice::slice_index_get(buf, 2);
        let b3: u8 = *vstd::slice::slice_index_get(buf, 3);
        let b4: u8 = *vstd::slice::slice_index_get(buf, 4);
        let b5: u8 = *vstd::slice::slice_index_get(buf, 5);
        let b6: u8 = *vstd::slice::slice_index_get(buf, 6);
        let b7: u8 = *vstd::slice::slice_index_get(buf, 7);
        Some(
            (
                (((b0 & 0x3f) as u64) << 56) | ((b1 as u64) << 48) | ((b2 as u64) << 40) | ((
                b3 as u64) << 32) | ((b4 as u64) << 24) | ((b5 as u64) << 16) | ((b6 as u64) << 8)
                    | (b7 as u64),
                8,
            ),
        )
    }
}

} // verus!

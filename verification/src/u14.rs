//! A 14-bit unsigned value, carried on the wire as two big-endian bytes
//! whose high bits must both be clear.

use vstd::prelude::*;

use crate::error::ParseError;

verus! {

/// A value in 0..=16383, split on the wire into a high and a low 7-bit byte.
#[derive(Copy, Clone, Debug, PartialEq, Eq, Structural)]
pub struct U14BE {
    pub host: u16,
}

/// The high wire byte of a 14-bit value.
pub open spec fn u14_hi(v: u16) -> u8 {
    (v / 128) as u8
}

/// The low wire byte of a 14-bit value.
pub open spec fn u14_lo(v: u16) -> u8 {
    (v % 128) as u8
}

/// The host value carried by a pair of 7-bit wire bytes.
pub open spec fn u14_value(b0: u8, b1: u8) -> u16
    recommends
        b0 < 0x80,
        b1 < 0x80,
{
    (b0 * 128 + b1) as u16
}

impl U14BE {
    /// Reads the two wire bytes, rejecting a pair with a high bit set.
    pub fn from_device(bytes: [u8; 2]) -> (r: Result<U14BE, ParseError>)
        ensures
            bytes[0] < 0x80 && bytes[1] < 0x80 ==> r == Ok::<U14BE, ParseError>(
                U14BE { host: u14_value(bytes[0], bytes[1]) },
            ),
            !(bytes[0] < 0x80 && bytes[1] < 0x80) ==> r == Err::<U14BE, ParseError>(
                ParseError::U14MsbSet(bytes[0], bytes[1]),
            ),
    {
        let b0 = bytes[0];
        let b1 = bytes[1];
        if ((b0 | b1) & 0x80) == 0x80 {
            proof {
                assert(((b0 | b1) & 0x80) == 0x80 <==> !(b0 < 0x80 && b1 < 0x80)) by (bit_vector);
            }
            Err(ParseError::U14MsbSet(b0, b1))
        } else {
            proof {
                assert(((b0 | b1) & 0x80) != 0x80 ==> b0 < 0x80 && b1 < 0x80) by (bit_vector);
            }
            let h: u16 = ((b0 as u16) << 7) | (b1 as u16);
            proof {
                assert(b0 < 0x80 && b1 < 0x80 ==> (((b0 as u16) << 7) | (b1 as u16))
                    == b0 as u16 * 128 + b1 as u16) by (bit_vector);
            }
            Ok(U14BE { host: h })
        }
    }

    /// Splits the host value into its two wire bytes, rejecting a value
    /// that does not fit in 14 bits.
    pub fn to_device(&self) -> (r: Result<[u8; 2], ParseError>)
        ensures
            self.host < 0x4000 ==> (r matches Ok(b) && b[0] == u14_hi(self.host) && b[1]
                == u14_lo(self.host)),
            self.host >= 0x4000 ==> r == Err::<[u8; 2], ParseError>(
                ParseError::U14Overflow(self.host),
            ),
    {
        let h = self.host;
        if h & 0xc000 != 0 {
            proof {
                assert(h & 0xc000 != 0 <==> h >= 0x4000) by (bit_vector);
            }
            Err(ParseError::U14Overflow(h))
        } else {
            proof {
                assert(h & 0xc000 == 0 ==> h < 0x4000) by (bit_vector);
                assert(((h & 0x3f80) >> 7) < 256 && (h & 0x007f) < 256) by (bit_vector);
                assert(h & 0xc000 == 0 ==> ((h & 0x3f80) >> 7) == h / 128 && (h & 0x007f) == h
                    % 128) by (bit_vector);
            }
            Ok([((h & 0x3f80) >> 7) as u8, (h & 0x007f) as u8])
        }
    }
}

/// The two wire bytes of a value below 0x4000 carry that value back:
/// reading what was written restores the host value.
pub proof fn lemma_u14_roundtrip(v: u16)
    requires
        v < 0x4000,
    ensures
        u14_hi(v) < 0x80,
        u14_lo(v) < 0x80,
        u14_value(u14_hi(v), u14_lo(v)) == v,
{
    assert(v / 128 < 0x80 && v % 128 < 0x80 && (v / 128) * 128 + v % 128 == v) by (bit_vector)
        requires
            v < 0x4000,
    ;
}

/// Writing the value read from two 7-bit bytes reproduces those bytes.
pub proof fn lemma_u14_bytes_roundtrip(b0: u8, b1: u8)
    requires
        b0 < 0x80,
        b1 < 0x80,
    ensures
        u14_value(b0, b1) < 0x4000,
        u14_hi(u14_value(b0, b1)) == b0,
        u14_lo(u14_value(b0, b1)) == b1,
{
    let v = (b0 * 128 + b1) as u16;
    assert(v < 0x4000 && v / 128 == b0 && v % 128 == b1) by (bit_vector)
        requires
            b0 < 0x80,
            b1 < 0x80,
            v == (b0 * 128 + b1) as u16,
    ;
}

} // verus!

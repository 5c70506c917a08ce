//! Variable-length integer codec: an unsigned magnitude in
//! `0 ..= 268435455` is encoded as 1 to 4 bytes, least-significant 7 bits
//! first, with the high bit of each byte marking a continuation.

use vstd::prelude::*;

verus! {

use crate::types::RangeError;

/// The largest magnitude a variable-length integer can carry: 2^28 - 1.
pub const MAX_VAR_INT: u32 = 268435455;

/// The byte sequence that encodes the magnitude `m`: the low 7 bits of `m`
/// in each byte, least significant first, with the high bit set on every
/// byte but the last.
pub open spec fn var_int_bytes(m: nat) -> Seq<u8>
    decreases m,
{
    if m < 128 {
        seq![m as u8]
    } else {
        seq![((m % 128) + 128) as u8] + var_int_bytes(m / 128)
    }
}

/// The magnitude that a byte sequence in the continuation-bit scheme
/// denotes: each byte contributes its low 7 bits, least significant first.
pub open spec fn var_int_value(bytes: Seq<u8>) -> nat
    decreases bytes.len(),
{
    if bytes.len() == 0 {
        0
    } else {
        ((bytes[0] % 128) as nat) + 128 * var_int_value(bytes.drop_first())
    }
}

/// A variable-length integer; the wrapped magnitude never exceeds
/// [`MAX_VAR_INT`], so it always encodes to at most 4 bytes.
pub struct VarInt(u32);

impl VarInt {
    #[verifier::type_invariant]
    spec fn inv(self) -> bool {
        self.0 <= MAX_VAR_INT
    }

    /// The wrapped magnitude.
    pub closed spec fn spec_value(self) -> u32 {
        self.0
    }

    /// Wraps `value`; fails when it exceeds [`MAX_VAR_INT`].
    pub fn try_new(value: u32) -> (r: Result<Self, RangeError>)
        ensures
            match r {
                Ok(v) => value <= MAX_VAR_INT && v.spec_value() == value,
                Err(_) => value > MAX_VAR_INT,
            },
    {
        if value <= MAX_VAR_INT {
            Ok(VarInt(value))
        } else {
            Err(RangeError)
        }
    }

    /// Wraps a byte count; fails when it exceeds [`MAX_VAR_INT`].
    pub fn try_from_usize(value: usize) -> (r: Result<Self, RangeError>)
        ensures
            match r {
                Ok(v) => value <= MAX_VAR_INT as usize && v.spec_value() == value as u32,
                Err(_) => value > MAX_VAR_INT as usize,
            },
    {
        if value <= MAX_VAR_INT as usize {
            Ok(VarInt(value as u32))
        } else {
            Err(RangeError)
        }
    }

    /// Appends the encoding of the wrapped magnitude to `writer`.
    pub fn write_to(&self, writer: &mut Vec<u8>)
        ensures
            final(writer)@ == old(writer)@ + var_int_bytes(self.spec_value() as nat),
    {
        let mut x: u32 = self.0;
        loop
            invariant_except_break
                writer@ + var_int_bytes(x as nat) == old(writer)@ + var_int_bytes(
                    self.0 as nat,
                ),
            ensures
                writer@ == old(writer)@ + var_int_bytes(self.0 as nat),
            decreases x,
        {
            let ghost x0: u32 = x;
            let mut encoded_byte: u8 = (x % 128) as u8;
            x = x / 128;
            if x > 0 {
                encoded_byte = encoded_byte + 128;
            }
            writer.push(encoded_byte);
            if x == 0 {
                proof {
                    assert(var_int_bytes(x0 as nat) =~= seq![x0 as u8]);
                    assert(writer@ =~= old(writer)@ + var_int_bytes(self.0 as nat));
                }
                break;
            }
            proof {
                assert(var_int_bytes(x0 as nat) =~= seq![encoded_byte]
                    + var_int_bytes((x0 / 128) as nat));
                assert(writer@ + var_int_bytes(x as nat) =~= old(writer)@ + var_int_bytes(
                    self.0 as nat,
                ));
            }
        }
    }
}

/// Decoding inverts encoding: for every magnitude the scheme supports,
/// the value denoted by its encoding is the magnitude itself.
pub proof fn lemma_var_int_round_trip(m: nat)
    requires
        m <= MAX_VAR_INT,
    ensures
        var_int_value(var_int_bytes(m)) == m,
    decreases m,
{
    if m < 128 {
        let bytes = var_int_bytes(m);
        assert(bytes =~= seq![m as u8]);
        assert(bytes.drop_first() =~= Seq::<u8>::empty());
        assert(var_int_value(bytes.drop_first()) == 0);
        assert(var_int_value(bytes) == (bytes[0] % 128) as nat + 128 * var_int_value(
            bytes.drop_first(),
        ));
        assert((bytes[0] % 128) as nat == m);
    } else {
        lemma_var_int_round_trip(m / 128);
        let bytes = var_int_bytes(m);
        let rest = var_int_bytes(m / 128);
        assert(bytes =~= seq![((m % 128) + 128) as u8] + rest);
        assert(bytes.drop_first() =~= rest);
        assert(var_int_value(bytes) == (bytes[0] % 128) as nat + 128 * var_int_value(
            bytes.drop_first(),
        ));
        assert((bytes[0] % 128) as nat == m % 128);
        assert(var_int_value(bytes) == m % 128 + 128 * (m / 128));
    }
}

/// The encoding's length is determined by the magnitude: 1 byte up to 127,
/// 2 up to 16383, 3 up to 2097151, and 4 up to the maximum.
pub proof fn lemma_var_int_byte_count(m: nat)
    ensures
        m < 128 ==> var_int_bytes(m).len() == 1,
        128 <= m < 16384 ==> var_int_bytes(m).len() == 2,
        16384 <= m < 2097152 ==> var_int_bytes(m).len() == 3,
        2097152 <= m <= 268435455 ==> var_int_bytes(m).len() == 4,
    decreases m,
{
    if m >= 128 {
        lemma_var_int_byte_count(m / 128);
    }
}

} // verus!

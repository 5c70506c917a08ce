//! Length-prefixed string codec: a borrowed UTF-8 text value of at most
//! 65535 bytes is encoded as a 2-byte big-endian length followed by the
//! raw bytes.

use vstd::prelude::*;

verus! {

use crate::types::RangeError;
use vstd::string::StringSliceAdditionalSpecFns;
use vstd::slice::slice_to_vec;

/// The largest byte length a length-prefixed string can carry.
pub const MAX_STR_LEN: usize = 65535;

/// The wire encoding of a text value whose UTF-8 bytes are `b`: a 2-byte
/// big-endian length prefix followed by the bytes themselves.
pub open spec fn str_encoding(b: Seq<u8>) -> Seq<u8>
    recommends
        b.len() <= 65535,
{
    seq![(b.len() / 256) as u8, (b.len() % 256) as u8] + b
}

/// A borrowed UTF-8 text value whose byte length never exceeds 65535, so
/// its length always fits the 2-byte prefix. The text is borrowed, never
/// copied or retained beyond the encode call.
pub struct Str<'a>(&'a str);

impl<'a> View for Str<'a> {
    type V = Seq<u8>;

    /// A text value is viewed as the sequence of its UTF-8 bytes.
    closed spec fn view(&self) -> Seq<u8> {
        self.0.spec_bytes()
    }
}

impl Str<'static> {
    /// Wraps a static string; the caller guarantees the length bound.
    pub fn from_static(s: &'static str) -> (r: Self)
        requires
            s.spec_bytes().len() <= 65535,
        ensures
            r@ == s.spec_bytes(),
    {
        Str(s)
    }
}

impl<'a> Str<'a> {
    #[verifier::type_invariant]
    spec fn inv(self) -> bool {
        self.0.spec_bytes().len() <= 65535
    }

    /// Wraps `s`; fails when its byte length exceeds [`MAX_STR_LEN`].
    pub fn try_new(s: &'a str) -> (r: Result<Self, RangeError>)
        ensures
            match r {
                Ok(v) => s.spec_bytes().len() <= 65535 && v@ == s.spec_bytes(),
                Err(_) => s.spec_bytes().len() > 65535,
            },
    {
        let bytes: &[u8] = s.as_bytes();
        if bytes.len() <= MAX_STR_LEN {
            Ok(Str(s))
        } else {
            Err(RangeError)
        }
    }

    /// The byte length of the text; it always fits in 16 bits.
    pub fn len(&self) -> (r: u16)
        ensures
            r as nat == self@.len(),
    {
        proof {
            use_type_invariant(self);
        }
        self.0.len() as u16
    }

    /// Appends the encoding of the text to `writer`: the 2-byte big-endian
    /// length, then the raw bytes.
    pub fn write_to(&self, writer: &mut Vec<u8>)
        ensures
            final(writer)@ == old(writer)@ + str_encoding(self@),
    {
        proof {
            use_type_invariant(self);
        }
        let len: u16 = self.len();
        writer.push((len / 256) as u8);
        writer.push((len % 256) as u8);
        let mut bytes: Vec<u8> = slice_to_vec(self.0.as_bytes());
        writer.append(&mut bytes);
        proof {
            assert(writer@ =~= old(writer)@ + str_encoding(self@));
        }
    }
}

} // verus!

//! The envelope that carries the randomness needed to retrieve a blinded
//! signature, with its base16 encoding.
use vstd::prelude::*;
use crate::base16::{
    decode, encode, hex_bytes, hex_text, is_hex_char, is_hex_text, lemma_hex_round_trip,
};

verus! {

/// The randomness that unblinds a signature issued on blinded values, held as
/// the `N`-byte canonical encoding of the pairing scheme's scalar.
#[derive(Clone, Copy, Debug, PartialEq, Eq)]
pub struct RandomnessWrapper<const N: usize> {
    pub randomness: [u8; N],
}

/// Failure to read an encoded randomness value.
#[derive(Clone, Copy, Debug, PartialEq, Eq, Structural)]
pub enum RandomnessError {
    /// The text is not base16, or not of the scheme's length.
    MalformedEncoding,
}

/// Whether `s` encodes randomness of `n` bytes.
pub open spec fn encodes_randomness(s: Seq<char>, n: nat) -> bool {
    is_hex_text(s) && hex_bytes(s).len() == n
}

impl<const N: usize> RandomnessWrapper<N> {
    /// The bytes of the randomness value.
    pub open spec fn bytes(&self) -> Seq<u8> {
        self.randomness@
    }

    /// The base16 text of the randomness, lowercase; decoding it gives the
    /// same bytes back.
    pub fn base16_encode(&self) -> (r: String)
        ensures
            r@ == hex_text(self.bytes()),
            encodes_randomness(r@, N as nat),
            hex_bytes(r@) == self.bytes(),
    {
        proof {
            lemma_hex_round_trip(self.bytes());
        }
        encode(self.randomness.as_slice())
    }

    /// Reads randomness from base16 text.
    pub fn base16_decode(text: &str) -> (r: Result<Self, RandomnessError>)
        ensures
            r is Ok <==> encodes_randomness(text@, N as nat),
            r is Ok ==> r->Ok_0.bytes() == hex_bytes(text@),
            r is Err ==> r->Err_0 == RandomnessError::MalformedEncoding,
    {
        let bytes = match decode(text) {
            Ok(b) => b,
            Err(_) => return Err(RandomnessError::MalformedEncoding),
        };
        if bytes.len() != N {
            return Err(RandomnessError::MalformedEncoding);
        }
        let mut randomness = [0u8; N];
        let mut i: usize = 0;
        while i < N
            invariant
                bytes@.len() == N,
                randomness@.len() == N,
                i <= N,
                forall|k: int| 0 <= k < i ==> randomness@[k] == bytes@[k],
            decreases N - i,
        {
            randomness[i] = bytes[i];
            i = i + 1;
        }
        assert(randomness@ =~= bytes@);
        Ok(RandomnessWrapper { randomness })
    }
}

/// Text with a character that is no hexadecimal digit, or well-formed base16
/// of another length than the scheme's, encodes no randomness value.
pub proof fn lemma_malformed_text(s: Seq<char>, n: nat)
    ensures
        (exists|j: int| 0 <= j < s.len() && !is_hex_char(#[trigger] s[j])) ==> !encodes_randomness(s, n),
        is_hex_text(s) && s.len() != 2 * n ==> !encodes_randomness(s, n),
{
}

/// Decoding the base16 text of a randomness value gives that same value back.
pub proof fn lemma_randomness_round_trip<const N: usize>(r: RandomnessWrapper<N>, d: RandomnessWrapper<N>)
    requires
        d.bytes() == hex_bytes(hex_text(r.bytes())),
    ensures
        encodes_randomness(hex_text(r.bytes()), N as nat),
        d == r,
{
    lemma_hex_round_trip(r.bytes());
    assert(d.randomness =~= r.randomness);
}

} // verus!

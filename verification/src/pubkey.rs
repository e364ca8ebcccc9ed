use std::str::FromStr;
use vstd::prelude::*;

verus! {

/// A 32-byte account address, held as plain bytes.
#[derive(Clone, Debug)]
pub struct Pubkey {
    pub bytes: Vec<u8>,
}

impl View for Pubkey {
    type V = Seq<u8>;

    open spec fn view(&self) -> Seq<u8> {
        self.bytes@
    }
}

impl Pubkey {
    pub fn new(bytes: Vec<u8>) -> (r: Pubkey)
        ensures
            r@ == bytes@,
    {
        Pubkey { bytes }
    }

    /// A fresh key holding the same bytes.
    pub fn duplicate(&self) -> (r: Pubkey)
        ensures
            r@ == self@,
    {
        let mut bytes: Vec<u8> = Vec::new();
        let mut i: usize = 0;
        while i < self.bytes.len()
            invariant
                i <= self.bytes@.len(),
                bytes@ == self.bytes@.subrange(0, i as int),
            decreases self.bytes@.len() - i,
        {
            bytes.push(self.bytes[i]);
            i = i + 1;
        }
        proof {
            assert(bytes@ =~= self.bytes@);
        }
        Pubkey { bytes }
    }

    /// Byte-wise equality of two keys.
    pub fn key_eq(&self, other: &Pubkey) -> (r: bool)
        ensures
            r == (self@ == other@),
    {
        if self.bytes.len() != other.bytes.len() {
            proof {
                assert(self@.len() != other@.len());
            }
            return false;
        }
        let mut i: usize = 0;
        while i < self.bytes.len()
            invariant
                i <= self.bytes@.len(),
                self.bytes@.len() == other.bytes@.len(),
                forall|j: int| 0 <= j < i ==> self.bytes@[j] == other.bytes@[j],
            decreases self.bytes@.len() - i,
        {
            if self.bytes[i] != other.bytes[i] {
                return false;
            }
            i = i + 1;
        }
        proof {
            assert(self@ =~= other@);
        }
        true
    }
}

/// The bytes that base58 decoding of a key string yields, or `None` where
/// the string is not the base58 form of a 32-byte key. The outcome is a
/// function of the characters alone.
pub uninterp spec fn base58_pubkey_of(s: Seq<char>) -> Option<Seq<u8>>;

/// Relies on `solana_pubkey::Pubkey::from_str`: parses the base58 form of
/// a 32-byte key; the outcome depends on the characters alone.
#[verifier::external_body]
pub(crate) fn pubkey_from_str(s: &str) -> (r: Option<Pubkey>)
    ensures
        r matches Some(p) ==> base58_pubkey_of(s@) == Some(p@) && p@.len() == 32,
        r is None ==> base58_pubkey_of(s@) is None,
{
    match solana_pubkey::Pubkey::from_str(s) {
        Ok(k) => Some(Pubkey { bytes: k.to_bytes().to_vec() }),
        Err(_) => None,
    }
}

} // verus!

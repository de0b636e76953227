//! Content addresses: 32-byte identifiers written as 64 hex digits.

use vstd::prelude::*;
use crate::hex_text::{
    bytes_to_hex, decode_hex, encode_hex, hex_to_bytes, is_hex_text, lemma_bytes_to_hex_is_hex_text,
    lemma_hex_round_trip, lemma_hex_text_in_utf8,
};

verus! {

/// A 32-byte identifier of stored content. Two addresses are the same when
/// their bytes are.
#[derive(Clone, Copy, Debug, PartialEq, Eq, Hash)]
pub struct ContentAddress {
    bytes: [u8; 32],
}

/// Why a string is not a content address.
#[derive(Clone, Copy, Debug, PartialEq, Eq)]
pub enum AddressError {
    /// The string is not hex text.
    InvalidEncoding,
    /// The string is hex text for `actual` bytes, and `actual` is not 32.
    InvalidLength { actual: usize },
}

impl View for ContentAddress {
    type V = Seq<u8>;

    closed spec fn view(&self) -> Seq<u8> {
        self.bytes@
    }
}

/// What decoding `text` gives: the address bytes, or the reason there are none.
pub open spec fn decoded(text: Seq<char>) -> Result<Seq<u8>, AddressError> {
    if !is_hex_text(text) {
        Err(AddressError::InvalidEncoding)
    } else if text.len() / 2 != 32 {
        Err(AddressError::InvalidLength { actual: (text.len() / 2) as usize })
    } else {
        Ok(hex_to_bytes(text))
    }
}

impl ContentAddress {
    /// Every address has exactly 32 bytes.
    pub proof fn lemma_len(self)
        ensures
            self@.len() == 32,
    {
    }

    /// The address with the given bytes.
    pub fn from_bytes(bytes: [u8; 32]) -> (address: ContentAddress)
        ensures
            address@ == bytes@,
    {
        ContentAddress { bytes }
    }

    /// The bytes of the address.
    pub fn to_bytes(&self) -> (bytes: [u8; 32])
        ensures
            bytes@ == self@,
    {
        self.bytes
    }

    /// Parses an address from hex text.
    ///
    /// Succeeds exactly on 64 hex digits. Text that is not hex gives
    /// `InvalidEncoding`; hex text for another number of bytes gives
    /// `InvalidLength` with that number.
    pub fn decode(hex_string: &str) -> (r: Result<ContentAddress, AddressError>)
        ensures
            match r {
                Ok(address) => decoded(hex_string@) == Ok::<Seq<u8>, AddressError>(address@),
                Err(e) => decoded(hex_string@) == Err::<Seq<u8>, AddressError>(e),
            },
    {
        proof {
            lemma_hex_text_in_utf8(hex_string@);
        }
        match decode_hex(hex_string.as_bytes()) {
            Err(_) => Err(AddressError::InvalidEncoding),
            Ok(raw) => {
                if raw.len() != 32 {
                    Err(AddressError::InvalidLength { actual: raw.len() })
                } else {
                    let mut bytes = [0u8; 32];
                    let mut i: usize = 0;
                    while i < 32
                        invariant
                            i <= 32,
                            raw.len() == 32,
                            forall|j: int| 0 <= j < i ==> bytes@[j] == raw@[j],
                        decreases 32 - i,
                    {
                        bytes[i] = raw[i];
                        i += 1;
                    }
                    assert(bytes@ =~= raw@);
                    Ok(ContentAddress { bytes })
                }
            },
        }
    }

    /// The address as 64 lower-case hex digits.
    pub fn encode(&self) -> (text: String)
        ensures
            text@ == bytes_to_hex(self@),
    {
        encode_hex(self.bytes.as_slice())
    }
}

/// Writing an address as hex and parsing that text gives the address back.
pub proof fn lemma_encode_then_decode(address: ContentAddress)
    ensures
        decoded(bytes_to_hex(address@)) == Ok::<Seq<u8>, AddressError>(address@),
{
    lemma_bytes_to_hex_is_hex_text(address@);
    lemma_hex_round_trip(address@);
}

/// Whatever parses has 64 characters, and its bytes survive being written as
/// hex and parsed again.
pub proof fn lemma_decode_round_trip(text: Seq<char>)
    requires
        decoded(text) is Ok,
    ensures
        text.len() == 64,
        is_hex_text(text),
        decoded(text).unwrap().len() == 32,
        decoded(bytes_to_hex(decoded(text).unwrap())) == decoded(text),
{
    let bytes = decoded(text).unwrap();
    lemma_bytes_to_hex_is_hex_text(bytes);
    lemma_hex_round_trip(bytes);
}

/// Text whose length is not 64 characters never parses.
pub proof fn lemma_wrong_length_is_rejected(text: Seq<char>)
    requires
        text.len() != 64,
    ensures
        decoded(text) is Err,
{
}

} // verus!

//! Account addresses: 20 bytes, read from and written as hexadecimal text.

use std::str::FromStr;
use vstd::prelude::*;
use vstd::string::*;
use crate::error::TransferError;
use crate::text::{truncate_middle, truncated};

verus! {

/// The 20 bytes that `text` denotes as an address, or `None` where the
/// address parser rejects it.
pub uninterp spec fn address_from_text(text: Seq<char>) -> Option<Seq<u8>>;

/// The checksummed hexadecimal text that displays the address `bytes`.
pub uninterp spec fn checksummed_text(bytes: Seq<u8>) -> Seq<char>;

/// The address of an account.
#[derive(Clone, Copy, Debug, PartialEq, Eq)]
pub struct Address {
    pub bytes: [u8; 20],
}

impl View for Address {
    type V = Seq<u8>;

    open spec fn view(&self) -> Seq<u8> {
        self.bytes@
    }
}

/// Parses `text` with `alloy::primitives::Address`'s `FromStr` and hands
/// out the bytes of the address it yields. The contract gives that result
/// its name, `address_from_text`: the parser reads nothing but its
/// argument. It adds what the hexadecimal decoder behind that parser shows:
/// it takes 20 bytes, so an accepted text has 40 digits, or 42 characters
/// with a `0x` in front.
#[verifier::external_body]
fn parse_address_bytes(text: &str) -> (parsed: Option<[u8; 20]>)
    ensures
        match parsed {
            Some(bytes) => address_from_text(text@) == Some(bytes@) && (text@.len() == 40
                || text@.len() == 42),
            None => address_from_text(text@) is None,
        },
{
    match alloy::primitives::Address::from_str(text) {
        Ok(address) => Some(address.0.0),
        Err(_) => None,
    }
}

/// Formats the address with `alloy::primitives::Address`'s `Display`, which
/// writes it in hexadecimal with the mixed-case checksum. The contract only
/// gives that text its name, `checksummed_text`: it is computed from the 20
/// bytes alone.
#[verifier::external_body]
fn format_address_bytes(bytes: &[u8; 20]) -> (text: String)
    ensures
        text@ == checksummed_text(bytes@),
{
    alloy::primitives::Address::from(*bytes).to_string()
}

impl Address {
    /// The address made of `bytes`.
    pub fn from_bytes(bytes: [u8; 20]) -> (address: Address)
        ensures
            address@ == bytes@,
            address.bytes == bytes,
    {
        Address { bytes }
    }

    /// The 20 bytes of the address.
    pub fn to_bytes(&self) -> (bytes: [u8; 20])
        ensures
            bytes@ == self@,
            bytes == self.bytes,
    {
        self.bytes
    }

    /// Accepts what the address parser made of a text: its bytes become
    /// the address, and a rejected text is an invalid address.
    pub fn from_parsed(parsed: Option<[u8; 20]>) -> (r: Result<Address, TransferError>)
        ensures
            r == match parsed {
                Some(bytes) => Ok::<Address, TransferError>(Address { bytes }),
                None => Err(TransferError::InvalidAddress),
            },
    {
        match parsed {
            Some(bytes) => Ok(Address { bytes }),
            None => Err(TransferError::InvalidAddress),
        }
    }

    /// Reads an address from its hexadecimal text.
    ///
    /// Fails with `InvalidAddress` exactly where the address parser rejects
    /// the text, as it does every text of a wrong length.
    pub fn from_str(text: &str) -> (r: Result<Address, TransferError>)
        ensures
            match r {
                Ok(address) => address_from_text(text@) == Some(address@),
                Err(e) => e == TransferError::InvalidAddress && address_from_text(text@) is None,
            },
            text@.len() != 40 && text@.len() != 42 ==> r is Err,
    {
        Address::from_parsed(parse_address_bytes(text))
    }

    /// The address as checksummed hexadecimal text.
    pub fn to_string(&self) -> (text: String)
        ensures
            text@ == checksummed_text(self@),
    {
        format_address_bytes(&self.bytes)
    }

    /// The address as it is displayed in a column of `max_len` characters:
    /// its text with the middle cut out where it is longer.
    pub fn to_display_string(&self, max_len: usize) -> (text: String)
        ensures
            text@ == truncated(checksummed_text(self@), max_len as nat),
    {
        let full = self.to_string();
        truncate_middle(full.as_str(), max_len)
    }
}

} // verus!

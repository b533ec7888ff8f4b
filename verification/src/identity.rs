//! The signing identity behind a transfer: its key material and the
//! address derived from it.

use std::str::FromStr;
use vstd::prelude::*;
use vstd::string::*;
use alloy::signers::local::PrivateKeySigner;
use crate::address::Address;
use crate::error::TransferError;

verus! {

/// The address of the signer that the hexadecimal private key `key` makes,
/// or `None` where the key is rejected.
pub uninterp spec fn signer_address(key: Seq<char>) -> Option<Seq<u8>>;

/// The owner of the funds: the key that signs for them and their address.
#[derive(Clone, Debug)]
pub struct Identity {
    pub key: String,
    pub address: Address,
}

/// Builds the signer with `PrivateKeySigner`'s `FromStr` and hands out the
/// bytes of the address the signer holds. The contract gives that result
/// its name, `signer_address`: the signer is made from the key text alone.
/// It adds what the hexadecimal decoder at the head of that parser shows:
/// it takes 32 bytes, so an accepted key has 64 digits, or 66 characters
/// with a `0x` in front.
#[verifier::external_body]
fn derive_address_bytes(key: &str) -> (derived: Option<[u8; 20]>)
    ensures
        match derived {
            Some(bytes) => signer_address(key@) == Some(bytes@) && (key@.len() == 64 || key@.len()
                == 66),
            None => signer_address(key@) is None,
        },
{
    match PrivateKeySigner::from_str(key) {
        Ok(signer) => Some(signer.address().0.0),
        Err(_) => None,
    }
}

impl Identity {
    /// Accepts what the signer made of a key: the derived bytes become the
    /// identity's address, and a rejected key is an invalid credential.
    pub fn from_derived(key: &str, derived: Option<[u8; 20]>) -> (r: Result<
        Identity,
        TransferError,
    >)
        ensures
            match derived {
                Some(bytes) => r is Ok && r->Ok_0.key@ == key@ && r->Ok_0.address == (Address {
                    bytes,
                }),
                None => r == Err::<Identity, TransferError>(TransferError::InvalidCredential),
            },
    {
        match derived {
            Some(bytes) => Ok(Identity { key: key.to_owned(), address: Address { bytes } }),
            None => Err(TransferError::InvalidCredential),
        }
    }

    /// Derives the identity from a hexadecimal private key.
    ///
    /// Fails with `InvalidCredential` exactly where the signer rejects the
    /// key, as it does every key of a wrong length.
    pub fn from_str(key: &str) -> (r: Result<Identity, TransferError>)
        ensures
            match r {
                Ok(identity) => identity.key@ == key@ && signer_address(key@) == Some(
                    identity.address@,
                ),
                Err(e) => e == TransferError::InvalidCredential && signer_address(key@) is None,
            },
            key@.len() != 64 && key@.len() != 66 ==> r is Err,
    {
        Identity::from_derived(key, derive_address_bytes(key))
    }

    /// The address that the identity signs for.
    pub fn address(&self) -> (address: Address)
        ensures
            address == self.address,
    {
        self.address
    }

    /// The key material that the identity was derived from.
    pub fn key(&self) -> (key: &str)
        ensures
            key@ == self.key@,
    {
        self.key.as_str()
    }
}

} // verus!

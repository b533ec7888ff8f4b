//! The value transfer that is handed to the network.

use vstd::prelude::*;
use crate::address::Address;
use crate::wei::Wei;

verus! {

/// A request to move `value` to the account `to`.
///
/// `nonce` and `gas_limit` are left unset by `transfer`: the provider
/// fills them in when the request is submitted.
#[derive(Clone, Copy, Debug, PartialEq, Eq)]
pub struct TransferRequest {
    pub to: Address,
    pub value: Wei,
    pub nonce: Option<u64>,
    pub gas_limit: Option<u64>,
}

impl TransferRequest {
    /// The request that moves `amount_wei` smallest units to `to`.
    pub open spec fn spec_transfer(to: Address, amount_wei: u64) -> TransferRequest {
        TransferRequest {
            to,
            value: Wei { w0: amount_wei, w1: 0, w2: 0, w3: 0 },
            nonce: None,
            gas_limit: None,
        }
    }

    /// Builds the request that moves `amount_wei` smallest units to `to`.
    ///
    /// Nothing but the destination and the value is set. Whether the
    /// sender can afford the transfer is found out on submission.
    pub fn transfer(to: Address, amount_wei: u64) -> (request: TransferRequest)
        ensures
            request == Self::spec_transfer(to, amount_wei),
            request.to == to,
            request.value@ == amount_wei,
            request.nonce is None,
            request.gas_limit is None,
    {
        TransferRequest { to, value: Wei::from_u64(amount_wei), nonce: None, gas_limit: None }
    }
}

} // verus!

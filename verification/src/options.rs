//! The options of a run, and the plan that is made of them before
//! anything is sent.

use vstd::prelude::*;
use vstd::string::*;
use crate::address::{address_from_text, Address};
use crate::chain::{RpcEndpoints, RpcEndpointsView, SupportedChain};
use crate::error::{ConfigurationFault, TransferError};
use crate::identity::{signer_address, Identity};
use crate::workflow::Transfer;

verus! {

/// The options of one run, as the configuration file gives them.
#[derive(Clone, Debug)]
pub struct AppOptions {
    pub wallet_private_key: String,
    pub to_address: String,
    pub amount_wei: u64,
    pub chain_id: SupportedChain,
}

/// `AppOptions` as the contracts see it.
pub struct AppOptionsView {
    pub wallet_private_key: Seq<char>,
    pub to_address: Seq<char>,
    pub amount_wei: u64,
    pub chain_id: SupportedChain,
}

impl View for AppOptions {
    type V = AppOptionsView;

    open spec fn view(&self) -> AppOptionsView {
        AppOptionsView {
            wallet_private_key: self.wallet_private_key@,
            to_address: self.to_address@,
            amount_wei: self.amount_wei,
            chain_id: self.chain_id,
        }
    }
}

/// All that a run needs before it first touches the network.
#[derive(Clone)]
pub struct TransferPlan {
    /// The endpoint of the selected network.
    pub endpoint: String,
    /// The owner of the funds.
    pub identity: Identity,
    /// The account that receives them.
    pub destination: Address,
    /// The amount to move, in the smallest unit.
    pub amount_wei: u64,
}

/// The error that stops the setup of a run, if any: the endpoint is judged
/// first, then the destination address, then the key.
pub open spec fn setup_failure(options: AppOptionsView, endpoints: RpcEndpointsView) -> Option<
    TransferError,
> {
    match options.chain_id.spec_rpc_url(endpoints) {
        Err(e) => Some(e),
        Ok(_) => if address_from_text(options.to_address) is None {
            Some(TransferError::InvalidAddress)
        } else if signer_address(options.wallet_private_key) is None {
            Some(TransferError::InvalidCredential)
        } else {
            None
        },
    }
}

impl TransferPlan {
    /// The transfer that the plan is for.
    pub open spec fn spec_transfer(&self) -> Transfer {
        Transfer {
            owner: self.identity.address,
            destination: self.destination,
            amount_wei: self.amount_wei,
        }
    }

    /// The transfer that the plan is for: from the owner's address to the
    /// destination.
    pub fn transfer(&self) -> (transfer: Transfer)
        ensures
            transfer == self.spec_transfer(),
    {
        Transfer {
            owner: self.identity.address,
            destination: self.destination,
            amount_wei: self.amount_wei,
        }
    }
}

impl AppOptions {
    /// The options made of the four fields, each kept as it is given.
    pub fn new(
        wallet_private_key: String,
        to_address: String,
        amount_wei: u64,
        chain_id: SupportedChain,
    ) -> (options: AppOptions)
        ensures
            options.wallet_private_key == wallet_private_key,
            options.to_address == to_address,
            options.amount_wei == amount_wei,
            options.chain_id == chain_id,
    {
        AppOptions { wallet_private_key, to_address, amount_wei, chain_id }
    }

    /// The options made of the four values of a configuration file: the
    /// three plain ones are kept as they are, and the network is the one
    /// that `chain_name` selects.
    ///
    /// Fails where `chain_name` is not the name of a supported network.
    pub fn from_fields(
        wallet_private_key: String,
        to_address: String,
        amount_wei: u64,
        chain_name: &str,
    ) -> (r: Result<AppOptions, TransferError>)
        ensures
            match r {
                Ok(options) => {
                    &&& SupportedChain::spec_from_str(chain_name@) == Some(options.chain_id)
                    &&& options.wallet_private_key == wallet_private_key
                    &&& options.to_address == to_address
                    &&& options.amount_wei == amount_wei
                },
                Err(e) => {
                    &&& SupportedChain::spec_from_str(chain_name@) is None
                    &&& e == TransferError::Configuration(ConfigurationFault::UnsupportedChain)
                },
            },
    {
        match SupportedChain::from_str(chain_name) {
            Ok(chain_id) => Ok(AppOptions { wallet_private_key, to_address, amount_wei, chain_id }),
            Err(e) => Err(e),
        }
    }

    /// Resolves everything that the options name, without any network
    /// call: the endpoint of the selected network, the destination address
    /// and the identity of the owner.
    ///
    /// The first of these that fails stops the setup with its error. An
    /// address or a key of a wrong length always fails it.
    pub fn prepare(&self, endpoints: &RpcEndpoints) -> (r: Result<TransferPlan, TransferError>)
        ensures
            match r {
                Ok(plan) => {
                    &&& setup_failure(self@, endpoints@) is None
                    &&& self.chain_id.spec_rpc_url(endpoints@) == Ok::<Seq<char>, TransferError>(
                        plan.endpoint@,
                    )
                    &&& address_from_text(self.to_address@) == Some(plan.destination@)
                    &&& signer_address(self.wallet_private_key@) == Some(plan.identity.address@)
                    &&& plan.identity.key@ == self.wallet_private_key@
                    &&& plan.amount_wei == self.amount_wei
                },
                Err(e) => setup_failure(self@, endpoints@) == Some(e),
            },
            self.to_address@.len() != 40 && self.to_address@.len() != 42 ==> r is Err,
            self.wallet_private_key@.len() != 64 && self.wallet_private_key@.len() != 66 ==> r
                is Err,
    {
        let endpoint = match self.chain_id.rpc_url(endpoints) {
            Ok(endpoint) => endpoint,
            Err(e) => { return Err(e); },
        };
        let destination = match Address::from_str(self.to_address.as_str()) {
            Ok(destination) => destination,
            Err(e) => { return Err(e); },
        };
        let identity = match Identity::from_str(self.wallet_private_key.as_str()) {
            Ok(identity) => identity,
            Err(e) => { return Err(e); },
        };
        Ok(TransferPlan { endpoint, identity, destination, amount_wei: self.amount_wei })
    }
}

} // verus!

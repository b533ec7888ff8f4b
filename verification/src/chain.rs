//! The supported networks and the endpoints configured for them.

use vstd::prelude::*;
use vstd::string::*;
use alloy::transports::http::reqwest::Url;
use crate::error::{ConfigurationFault, TransferError};
use crate::text::{optional_text, same_text, text_outcome};

verus! {

/// The networks a transfer can be sent on.
#[derive(Clone, Copy, Debug, PartialEq, Eq, Structural)]
pub enum SupportedChain {
    Sepolia,
    Mainnet,
}

/// The endpoints found in the environment, one slot for each network.
///
/// A slot is `None` where the variable of that network is not set.
#[derive(Clone, Debug)]
pub struct RpcEndpoints {
    /// The value of `SEPOLIA_RPC_URL`.
    pub sepolia: Option<String>,
    /// The value of `MAINNET_RPC_URL`.
    pub mainnet: Option<String>,
}

/// `RpcEndpoints` as the contracts see it.
pub struct RpcEndpointsView {
    pub sepolia: Option<Seq<char>>,
    pub mainnet: Option<Seq<char>>,
}

impl View for RpcEndpoints {
    type V = RpcEndpointsView;

    open spec fn view(&self) -> RpcEndpointsView {
        RpcEndpointsView {
            sepolia: optional_text(self.sepolia),
            mainnet: optional_text(self.mainnet),
        }
    }
}

/// Whether `text` is an absolute URL, as the URL parser judges it.
pub uninterp spec fn parses_as_url(text: Seq<char>) -> bool;

/// Runs `Url`'s `FromStr` parser, which is `Url::parse`, on `text` and
/// reports whether it accepted it. The contract only gives that verdict its
/// name, `parses_as_url`: the parser reads nothing but its argument.
#[verifier::external_body]
fn is_url(text: &str) -> (accepted: bool)
    ensures
        accepted == parses_as_url(text@),
{
    text.parse::<Url>().is_ok()
}

/// The name under which the chain with the identifier `id` is known, or
/// the identifier in decimal where it has none.
pub uninterp spec fn chain_label(id: u64) -> Seq<char>;

/// Looks the identifier up with `alloy_chains::Chain::from_id` and formats
/// the chain with its `Display`. The contract only gives that text its
/// name, `chain_label`: it is computed from the identifier alone.
#[verifier::external_body]
fn format_chain_id(id: u64) -> (label: String)
    ensures
        label@ == chain_label(id),
{
    alloy_chains::Chain::from_id(id).to_string()
}

/// The line that says, before the transaction is sent, on which chain
/// the run takes place.
pub open spec fn running_notice_text(chain_id: u64) -> Seq<char> {
    "Running transactions on "@ + chain_label(chain_id)
}

/// The line that says, before the transaction is sent, on which chain
/// the run takes place: the chain is the one that the endpoint reports.
pub fn running_notice(chain_id: u64) -> (line: String)
    ensures
        line@ == running_notice_text(chain_id),
{
    let label = format_chain_id(chain_id);
    let mut line = "Running transactions on ".to_owned();
    line.append(label.as_str());
    line
}

impl SupportedChain {
    /// The name a configuration selects this network by.
    pub open spec fn spec_name(self) -> Seq<char> {
        match self {
            SupportedChain::Sepolia => "sepolia"@,
            SupportedChain::Mainnet => "mainnet"@,
        }
    }

    /// The network that `name` selects, if any.
    pub open spec fn spec_from_str(name: Seq<char>) -> Option<SupportedChain> {
        if name == "sepolia"@ {
            Some(SupportedChain::Sepolia)
        } else if name == "mainnet"@ {
            Some(SupportedChain::Mainnet)
        } else {
            None
        }
    }

    /// The environment variable that holds this network's endpoint.
    pub open spec fn spec_env_key(self) -> Seq<char> {
        match self {
            SupportedChain::Sepolia => "SEPOLIA_RPC_URL"@,
            SupportedChain::Mainnet => "MAINNET_RPC_URL"@,
        }
    }

    /// The slot of `endpoints` that belongs to this network.
    pub open spec fn spec_configured(self, endpoints: RpcEndpointsView) -> Option<Seq<char>> {
        match self {
            SupportedChain::Sepolia => endpoints.sepolia,
            SupportedChain::Mainnet => endpoints.mainnet,
        }
    }

    /// The endpoint of this network, judged from what is configured for it
    /// and from whether that is a URL.
    pub open spec fn spec_checked_endpoint(
        configured: Option<Seq<char>>,
        well_formed: bool,
    ) -> Result<Seq<char>, TransferError> {
        match configured {
            None => Err(TransferError::Configuration(ConfigurationFault::MissingEndpoint)),
            Some(url) => if well_formed {
                Ok(url)
            } else {
                Err(TransferError::Configuration(ConfigurationFault::MalformedEndpoint))
            },
        }
    }

    /// The endpoint that `endpoints` yields for this network.
    pub open spec fn spec_rpc_url(self, endpoints: RpcEndpointsView) -> Result<
        Seq<char>,
        TransferError,
    > {
        match self.spec_configured(endpoints) {
            None => Self::spec_checked_endpoint(None, false),
            Some(url) => Self::spec_checked_endpoint(Some(url), parses_as_url(url)),
        }
    }

    /// Selects a network by its name: `sepolia` or `mainnet`.
    pub fn from_str(s: &str) -> (r: Result<SupportedChain, TransferError>)
        ensures
            r == match Self::spec_from_str(s@) {
                Some(chain) => Ok::<SupportedChain, TransferError>(chain),
                None => Err(TransferError::Configuration(ConfigurationFault::UnsupportedChain)),
            },
    {
        proof {
            reveal_strlit("sepolia");
            reveal_strlit("mainnet");
        }
        if same_text(s, "sepolia") {
            Ok(SupportedChain::Sepolia)
        } else if same_text(s, "mainnet") {
            Ok(SupportedChain::Mainnet)
        } else {
            Err(TransferError::Configuration(ConfigurationFault::UnsupportedChain))
        }
    }

    /// The name a configuration selects this network by.
    pub fn name(&self) -> (name: &'static str)
        ensures
            name@ == self.spec_name(),
            Self::spec_from_str(name@) == Some(*self),
    {
        proof {
            lemma_chain_name_round_trips(*self);
        }
        match self {
            SupportedChain::Sepolia => "sepolia",
            SupportedChain::Mainnet => "mainnet",
        }
    }

    /// The environment variable that holds this network's endpoint.
    pub fn env_key(&self) -> (key: &'static str)
        ensures
            key@ == self.spec_env_key(),
    {
        match self {
            SupportedChain::Sepolia => "SEPOLIA_RPC_URL",
            SupportedChain::Mainnet => "MAINNET_RPC_URL",
        }
    }

    /// Judges a configured endpoint once the URL parser has given its
    /// verdict on it: a missing endpoint and one that is no URL are
    /// configuration errors, any other is handed back unchanged.
    pub fn checked_endpoint(configured: Option<String>, well_formed: bool) -> (r: Result<
        String,
        TransferError,
    >)
        ensures
            text_outcome(r) == Self::spec_checked_endpoint(optional_text(configured), well_formed),
    {
        match configured {
            None => Err(TransferError::Configuration(ConfigurationFault::MissingEndpoint)),
            Some(url) => {
                if well_formed {
                    Ok(url)
                } else {
                    Err(TransferError::Configuration(ConfigurationFault::MalformedEndpoint))
                }
            },
        }
    }

    /// The endpoint configured for this network.
    ///
    /// Fails when none is configured for it, or when the configured value
    /// is not a URL. The slot of the other network is never looked at.
    pub fn rpc_url(&self, endpoints: &RpcEndpoints) -> (r: Result<String, TransferError>)
        ensures
            text_outcome(r) == self.spec_rpc_url(endpoints@),
    {
        let slot = match self {
            SupportedChain::Sepolia => &endpoints.sepolia,
            SupportedChain::Mainnet => &endpoints.mainnet,
        };
        match slot {
            None => Self::checked_endpoint(None, false),
            Some(url) => {
                let well_formed = is_url(url.as_str());
                Self::checked_endpoint(Some(url.clone()), well_formed)
            },
        }
    }
}

/// The name of a network selects that network again, and the two networks
/// have different names.
pub proof fn lemma_chain_name_round_trips(chain: SupportedChain)
    ensures
        SupportedChain::spec_from_str(chain.spec_name()) == Some(chain),
        SupportedChain::Sepolia.spec_name() != SupportedChain::Mainnet.spec_name(),
{
    reveal_strlit("sepolia");
    reveal_strlit("mainnet");
    assert("sepolia"@[0] == 's' && "mainnet"@[0] == 'm');
}

/// Resolving an endpoint is a function of the selected network and of the
/// value configured for that network alone: environments that agree on it
/// resolve alike, and a configured URL resolves to itself.
pub proof fn lemma_resolution_is_deterministic(
    chain: SupportedChain,
    first: RpcEndpointsView,
    second: RpcEndpointsView,
)
    requires
        chain.spec_configured(first) == chain.spec_configured(second),
    ensures
        chain.spec_rpc_url(first) == chain.spec_rpc_url(second),
        forall|url: Seq<char>|
            chain.spec_configured(first) == Some(url) && parses_as_url(url)
                ==> chain.spec_rpc_url(first) == Ok::<Seq<char>, TransferError>(url),
{
}

} // verus!

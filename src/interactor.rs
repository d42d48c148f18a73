use vstd::prelude::*;
use vstd::string::StringExecFns;
use crate::errors::{WarpDREError, is_argument_error};
use crate::gateway::{default_client, join_path, joined, parse_url, parsed_url, params_view};
use crate::types::{APP_NAME, APP_VERSION, CONTRACT_TX_ID, INPUT, SDK, SMARTWEAVE_ACTION};

verus! {

/// The ledger client that creates and signs transactions.
#[verifier::external_type_specification]
#[verifier::external_body]
pub struct ExArweave(arloader::Arweave);

/// The gateway that interactions are sent to unless told otherwise.
pub const DEFAULT_GATEWAY_URL: &'static str = "https://d1o5nlqr4okus2.cloudfront.net/gateway";
/// The gateway path that registers an interaction with the sequencer.
pub const REGISTER_PATH: &'static str = "sequencer/register";
/// The SDK version that interactions announce.
pub const SDK_VERSION: &'static str = "0.3.0";
/// The SDK name that interactions announce.
pub const SDK_NAME: &'static str = "Warp";

/// The tags of an interaction with `contract` whose input is `input`, as
/// (name, value) pairs, in order.
pub open spec fn interaction_tags(contract: Seq<char>, input: Seq<char>) -> Seq<(Seq<char>, Seq<char>)> {
    seq![
        (APP_NAME@, SMARTWEAVE_ACTION@),
        (APP_VERSION@, SDK_VERSION@),
        (SDK@, SDK_NAME@),
        (CONTRACT_TX_ID@, contract),
        (INPUT@, input),
    ]
}

/// How an interactor is set up: the gateway's URL, the HTTP client and the
/// contract that it interacts with.
pub struct InteractorOptions {
    url: String,
    client: reqwest::Client,
    contract_address: String,
}

/// Collects the settings of an [`InteractorOptions`]; the URL and the client
/// have defaults, the contract address must be set.
pub struct InteractorOptionsBuilder {
    url: Option<String>,
    client: Option<reqwest::Client>,
    contract_address: Option<String>,
}

impl InteractorOptions {
    /// The HTTP client.
    pub closed spec fn client_spec(&self) -> reqwest::Client {
        self.client
    }

    /// The serialized URL of the gateway.
    pub closed spec fn url_spec(&self) -> Seq<char> {
        self.url@
    }

    /// The contract address.
    pub closed spec fn contract_spec(&self) -> Seq<char> {
        self.contract_address@
    }

    /// A builder with nothing set.
    pub fn default_builder() -> (r: InteractorOptionsBuilder)
        ensures
            r.url_spec() is None,
            !r.has_client(),
            r.contract_spec() is None,
    {
        InteractorOptionsBuilder { url: None, client: None, contract_address: None }
    }
}

impl InteractorOptionsBuilder {
    /// The URL text that was set, if any.
    pub closed spec fn url_spec(&self) -> Option<Seq<char>> {
        match self.url {
            Some(u) => Some(u@),
            None => None,
        }
    }

    /// The HTTP client that was set, if any.
    pub closed spec fn client_spec(&self) -> Option<reqwest::Client> {
        self.client
    }

    /// Whether an HTTP client was set.
    pub open spec fn has_client(&self) -> bool {
        self.client_spec() is Some
    }

    /// The contract address that was set, if any.
    pub closed spec fn contract_spec(&self) -> Option<Seq<char>> {
        match self.contract_address {
            Some(c) => Some(c@),
            None => None,
        }
    }

    /// The URL text that `build` parses.
    pub open spec fn requested_url(&self) -> Seq<char> {
        match self.url_spec() {
            Some(u) => u,
            None => DEFAULT_GATEWAY_URL@,
        }
    }

    /// Sets the gateway's URL.
    pub fn url(self, url: &str) -> (r: Self)
        ensures
            r.url_spec() == Some(url@),
            r.client_spec() == self.client_spec(),
            r.contract_spec() == self.contract_spec(),
    {
        InteractorOptionsBuilder {
            url: Some(url.to_string()),
            client: self.client,
            contract_address: self.contract_address,
        }
    }

    /// Sets the HTTP client.
    pub fn client(self, client: reqwest::Client) -> (r: Self)
        ensures
            r.url_spec() == self.url_spec(),
            r.client_spec() == Some(client),
            r.contract_spec() == self.contract_spec(),
    {
        InteractorOptionsBuilder {
            url: self.url,
            client: Some(client),
            contract_address: self.contract_address,
        }
    }

    /// Sets the contract address.
    pub fn contract_address(self, contract_address: &str) -> (r: Self)
        ensures
            r.url_spec() == self.url_spec(),
            r.client_spec() == self.client_spec(),
            r.contract_spec() == Some(contract_address@),
    {
        InteractorOptionsBuilder {
            url: self.url,
            client: self.client,
            contract_address: Some(contract_address.to_string()),
        }
    }

    /// Makes the options: the URL is parsed, the contract address must have
    /// been set, and a default HTTP client is made where none was set.
    pub fn build(self) -> (r: Result<InteractorOptions, WarpDREError>)
        ensures
            parsed_url(self.requested_url()) is None ==> (r matches Err(e)
                && is_argument_error(e, "url is not valid"@)),
            (parsed_url(self.requested_url()) is Some && self.contract_spec() is None) ==> (
            r matches Err(e) && is_argument_error(e, "contract_address must be initialized"@)),
            r matches Ok(o) ==> parsed_url(self.requested_url()) == Some(o.url_spec())
                && self.contract_spec() == Some(o.contract_spec()),
            r matches Ok(o) ==> (self.has_client() ==> self.client_spec() == Some(o.client_spec())),
            (parsed_url(self.requested_url()) is Some && self.contract_spec() is Some
                && self.has_client()) ==> r is Ok,
            (r is Err && parsed_url(self.requested_url()) is Some && self.contract_spec() is Some)
                ==> !self.has_client(),
            (r is Err && parsed_url(self.requested_url()) is Some && self.contract_spec() is Some)
                ==> (r matches Err(e) && is_argument_error(e, "http client could not be built"@)),
    {
        let text = match &self.url {
            Some(u) => u.as_str(),
            None => DEFAULT_GATEWAY_URL,
        };
        let url = match parse_url(text) {
            Some(u) => u,
            None => {
                proof { reveal_strlit("url is not valid"); }
                return Err(WarpDREError::ArgumentError(String::from_str("url is not valid")));
            },
        };
        let contract_address = match self.contract_address {
            Some(c) => c,
            None => {
                proof { reveal_strlit("contract_address must be initialized"); }
                return Err(WarpDREError::ArgumentError(
                    String::from_str("contract_address must be initialized"),
                ));
            },
        };
        let client = match self.client {
            Some(c) => c,
            None => match default_client() {
                Some(c) => c,
                None => {
                    proof { reveal_strlit("http client could not be built"); }
                    return Err(WarpDREError::ArgumentError(
                        String::from_str("http client could not be built"),
                    ));
                },
            },
        };
        Ok(InteractorOptions { url, client, contract_address })
    }
}

/// Registers interactions with a contract through a gateway.
pub struct Interactor {
    client: reqwest::Client,
    gateway_url: String,
    contract_address: String,
    /// The ledger client that creates and signs the transactions.
    pub arweave: arloader::Arweave,
}

impl Interactor {
    /// The ledger client.
    pub closed spec fn arweave_spec(&self) -> arloader::Arweave {
        self.arweave
    }

    /// The HTTP client.
    pub closed spec fn client_spec(&self) -> reqwest::Client {
        self.client
    }

    /// The serialized URL of the gateway.
    pub closed spec fn url_spec(&self) -> Seq<char> {
        self.gateway_url@
    }

    /// The contract address.
    pub closed spec fn contract_spec(&self) -> Seq<char> {
        self.contract_address@
    }

    /// An interactor for the options' contract; the contract address must not
    /// be empty.
    pub fn new(lo: InteractorOptions, arweave: arloader::Arweave) -> (r: Result<Self, WarpDREError>)
        ensures
            lo.contract_spec().len() == 0 ==> (r matches Err(e)
                && is_argument_error(e, "contract address must be set"@)),
            lo.contract_spec().len() != 0 ==> (r matches Ok(i) && i.url_spec() == lo.url_spec()
                && i.contract_spec() == lo.contract_spec() && i.client_spec() == lo.client_spec()
                && i.arweave_spec() == arweave),
    {
        if lo.contract_address.as_str().is_empty() {
            proof { reveal_strlit("contract address must be set"); }
            return Err(WarpDREError::ArgumentError(String::from_str("contract address must be set")));
        }
        Ok(Interactor {
            client: lo.client,
            gateway_url: lo.url,
            contract_address: lo.contract_address,
            arweave,
        })
    }

    /// The HTTP client.
    pub fn client(&self) -> (r: &reqwest::Client)
        ensures
            *r == self.client_spec(),
    {
        &self.client
    }

    /// The contract address.
    pub fn contract_address(&self) -> (r: &str)
        ensures
            r@ == self.contract_spec(),
    {
        self.contract_address.as_str()
    }

    /// The address that registers an interaction with the sequencer.
    pub fn register_url(&self) -> (r: String)
        ensures
            r@ == joined(self.url_spec(), REGISTER_PATH@),
    {
        join_path(self.gateway_url.as_str(), REGISTER_PATH)
    }

    /// The tags of an interaction whose input is the JSON text `input`.
    pub fn create_tags(&self, input: &str) -> (r: Vec<(String, String)>)
        ensures
            params_view(r@) == interaction_tags(self.contract_spec(), input@),
    {
        let mut tags: Vec<(String, String)> = Vec::new();
        tags.push((APP_NAME.to_string(), SMARTWEAVE_ACTION.to_string()));
        tags.push((APP_VERSION.to_string(), SDK_VERSION.to_string()));
        tags.push((SDK.to_string(), SDK_NAME.to_string()));
        tags.push((CONTRACT_TX_ID.to_string(), self.contract_address.clone()));
        tags.push((INPUT.to_string(), input.to_string()));
        proof {
            assert(params_view(tags@) =~= interaction_tags(self.contract_spec(), input@));
        }
        tags
    }
}

} // verus!

use vstd::prelude::*;
use vstd::string::StringExecFns;
use crate::errors::{WarpDREError, is_argument_error};
use crate::gateway::{default_client, parse_url, parsed_url, param_index, params_view, set_param, names_unique};

verus! {

/// The node that a client talks to unless told otherwise.
pub const DEFAULT_DRE_URL: &'static str = "https://dre-1.warp.cc";
/// The path of a node's status report.
pub const STATUS_PATH: &'static str = "status";
/// The path of a contract's state.
pub const CONTRACT_PATH: &'static str = "contract";
/// The path of the list of cached contracts.
pub const CACHED_PATH: &'static str = "cached";
/// The path of the list of blacklisted contracts.
pub const BLACKLIST_PATH: &'static str = "blacklist";
/// The path of the list of failed evaluations.
pub const ERRORS_PATH: &'static str = "errors";
/// The query parameter that names a contract.
pub const ID_PARAM: &'static str = "id";


/// How a DRE client is set up: the node's URL and the HTTP client.
pub struct WarpDREOptions {
    url: String,
    client: reqwest::Client,
}

/// Collects the settings of a [`WarpDREOptions`]; unset ones take defaults.
pub struct WarpDREOptionsBuilder {
    url: Option<String>,
    client: Option<reqwest::Client>,
}

impl WarpDREOptions {
    /// The HTTP client.
    pub closed spec fn client_spec(&self) -> reqwest::Client {
        self.client
    }

    /// The serialized URL of the node.
    pub closed spec fn url_spec(&self) -> Seq<char> {
        self.url@
    }

    /// A builder with nothing set.
    pub fn default_builder() -> (r: WarpDREOptionsBuilder)
        ensures
            r.url_spec() is None,
            !r.has_client(),
    {
        WarpDREOptionsBuilder { url: None, client: None }
    }

    /// The serialized URL of the node.
    pub fn url(&self) -> (r: &str)
        ensures
            r@ == self.url_spec(),
    {
        self.url.as_str()
    }
}

impl WarpDREOptionsBuilder {
    /// The URL text that was set, if any.
    pub closed spec fn url_spec(&self) -> Option<Seq<char>> {
        match self.url {
            Some(u) => Some(u@),
            None => None,
        }
    }

    /// The HTTP client that was set, if any.
    pub closed spec fn client_spec(&self) -> Option<reqwest::Client> {
        self.client
    }

    /// Whether an HTTP client was set.
    pub open spec fn has_client(&self) -> bool {
        self.client_spec() is Some
    }

    /// The URL text that `build` parses.
    pub open spec fn requested_url(&self) -> Seq<char> {
        match self.url_spec() {
            Some(u) => u,
            None => DEFAULT_DRE_URL@,
        }
    }

    /// Sets the node's URL.
    pub fn url(self, url: &str) -> (r: Self)
        ensures
            r.url_spec() == Some(url@),
            r.client_spec() == self.client_spec(),
    {
        WarpDREOptionsBuilder { url: Some(url.to_string()), client: self.client }
    }

    /// Sets the HTTP client.
    pub fn client(self, client: reqwest::Client) -> (r: Self)
        ensures
            r.url_spec() == self.url_spec(),
            r.client_spec() == Some(client),
    {
        WarpDREOptionsBuilder { url: self.url, client: Some(client) }
    }

    /// Makes the options: the URL is parsed, and a default HTTP client is made
    /// where none was set.
    pub fn build(self) -> (r: Result<WarpDREOptions, WarpDREError>)
        ensures
            parsed_url(self.requested_url()) is None ==> (r matches Err(e)
                && is_argument_error(e, "url is not valid"@)),
            r matches Ok(o) ==> parsed_url(self.requested_url()) == Some(o.url_spec()),
            r matches Ok(o) ==> (self.has_client() ==> self.client_spec() == Some(o.client_spec())),
            (self.has_client() && parsed_url(self.requested_url()) is Some) ==> r is Ok,
            (r is Err && parsed_url(self.requested_url()) is Some) ==> !self.has_client(),
            (r is Err && parsed_url(self.requested_url()) is Some) ==> (r matches Err(e)
                && is_argument_error(e, "http client could not be built"@)),
    {
        let text = match &self.url {
            Some(u) => u.as_str(),
            None => DEFAULT_DRE_URL,
        };
        let url = match parse_url(text) {
            Some(u) => u,
            None => {
                proof { reveal_strlit("url is not valid"); }
                return Err(WarpDREError::ArgumentError(String::from_str("url is not valid")));
            },
        };
        let client = match self.client {
            Some(c) => c,
            None => match default_client() {
                Some(c) => c,
                None => {
                    proof { reveal_strlit("http client could not be built"); }
                    return Err(WarpDREError::ArgumentError(
                        String::from_str("http client could not be built"),
                    ));
                },
            },
        };
        Ok(WarpDREOptions { url, client })
    }
}

/// A client of a DRE node: the node's URL and the HTTP client that reaches it.
pub struct WarpDRE {
    client: reqwest::Client,
    url: String,
}

impl WarpDRE {
    /// The HTTP client.
    pub closed spec fn client_spec(&self) -> reqwest::Client {
        self.client
    }

    /// The serialized URL of the node.
    pub closed spec fn url_spec(&self) -> Seq<char> {
        self.url@
    }

    /// A client for the node that the options name.
    pub fn new(lo: WarpDREOptions) -> (r: Self)
        ensures
            r.url_spec() == lo.url_spec(),
            r.client_spec() == lo.client_spec(),
    {
        WarpDRE { client: lo.client, url: lo.url }
    }

    /// The HTTP client.
    pub fn client(&self) -> (r: &reqwest::Client)
        ensures
            *r == self.client_spec(),
    {
        &self.client
    }

    /// The serialized URL of the node.
    pub fn url(&self) -> (r: &str)
        ensures
            r@ == self.url_spec(),
    {
        self.url.as_str()
    }

    /// The address of one of the node's endpoints: the path follows the URL
    /// directly, as the URL's serialization ends with its own slash.
    pub fn endpoint(&self, path: &str) -> (r: String)
        ensures
            r@ == self.url_spec() + path@,
    {
        self.url.clone().concat(path)
    }

    /// The query of a contract request: the given parameters with `id` set to
    /// the contract.
    pub fn contract_params(contract_id: &str, query: Vec<(String, String)>) -> (r: Vec<(String, String)>)
        ensures
            param_index(query@, ID_PARAM@) matches Some(i) ==> params_view(r@) == params_view(
                query@,
            ).update(i, (ID_PARAM@, contract_id@)),
            param_index(query@, ID_PARAM@) is None ==> params_view(r@) == params_view(query@).push(
                (ID_PARAM@, contract_id@),
            ),
            names_unique(query@) ==> names_unique(r@),
            (param_index(r@, ID_PARAM@) matches Some(i) && r@[i].1@ == contract_id@),
    {
        let mut query = query;
        let ghost before = query@;
        set_param(&mut query, ID_PARAM.to_string(), contract_id.to_string());
        proof {
            if let Some(i) = param_index(before, ID_PARAM@) {
                assert(params_view(query@) =~= params_view(before).update(i, (ID_PARAM@, contract_id@)));
            } else {
                assert(params_view(query@) =~= params_view(before).push((ID_PARAM@, contract_id@)));
            }
        }
        query
    }
}

} // verus!

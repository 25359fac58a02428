//! The requests that the tool makes of the service: their addresses and the
//! credential they carry. Sending them is the caller's part.

use crate::auth::credentials::{Credentials, CredentialsView};
use crate::auth::record::option_view;
use crate::text::{decimal, u64_to_text};
use vstd::prelude::*;
use vstd::string::StringExecFns;

verus! {

/// Where a list stands among all that the service has.
#[derive(Debug, Clone, PartialEq, Eq)]
pub struct Pagination {
    pub total: u32,
    pub limit: u32,
    pub offset: u32,
    pub has_more: bool,
}

/// An API key, as the service lists it.
#[derive(Debug, Clone, PartialEq, Eq)]
pub struct ApiKeyRecord {
    pub id: String,
    pub name: String,
    pub created_at: String,
    pub last_used_at: Option<String>,
}

/// The service's address, the seconds a request may take, and the credential
/// that requests carry, if any.
#[derive(Debug, Clone, PartialEq, Eq)]
pub struct ApiClient {
    base_url: String,
    timeout_seconds: u64,
    credentials: Option<Credentials>,
}

/// The value of the header `Authorization` for a token.
pub open spec fn bearer(token: Seq<char>) -> Seq<char> {
    "Bearer "@ + token
}

impl ApiClient {
    /// The address of the service.
    pub closed spec fn spec_base_url(&self) -> Seq<char> {
        self.base_url@
    }

    /// The seconds a request may take.
    pub closed spec fn spec_timeout_seconds(&self) -> u64 {
        self.timeout_seconds
    }

    /// The credential that requests carry.
    pub closed spec fn spec_credentials(&self) -> Option<CredentialsView> {
        option_view(self.credentials)
    }

    /// A client without a credential.
    pub fn new(base_url: String, timeout_seconds: u64) -> (r: Self)
        ensures
            r.spec_base_url() == base_url@,
            r.spec_timeout_seconds() == timeout_seconds,
            r.spec_credentials() is None,
    {
        ApiClient { base_url, timeout_seconds, credentials: None }
    }

    /// The same client, with `credentials` for its requests.
    pub fn with_credentials(self, credentials: Credentials) -> (r: Self)
        ensures
            r.spec_base_url() == self.spec_base_url(),
            r.spec_timeout_seconds() == self.spec_timeout_seconds(),
            r.spec_credentials() == Some(credentials@),
    {
        ApiClient {
            base_url: self.base_url,
            timeout_seconds: self.timeout_seconds,
            credentials: Some(credentials),
        }
    }

    /// The seconds a request may take.
    pub fn timeout_seconds(&self) -> (r: u64)
        ensures
            r == self.spec_timeout_seconds(),
    {
        self.timeout_seconds
    }

    /// The value of the header `Authorization`: the token as a bearer, or
    /// none for a client without a credential.
    pub fn authorization(&self) -> (r: Option<String>)
        ensures
            match self.spec_credentials() {
                Some(c) => r matches Some(value) && value@ == bearer(c.api_token),
                None => r is None,
            },
    {
        match &self.credentials {
            Some(c) => {
                let mut value = "Bearer ".to_string();
                value.append(c.api_token.as_str());
                Some(value)
            },
            None => None,
        }
    }

    /// The address under the service's at `path`.
    pub fn url(&self, path: &str) -> (r: String)
        ensures
            r@ == self.spec_base_url() + path@,
    {
        let mut r = self.base_url.clone();
        r.append(path);
        r
    }

    /// Where an airdrop is requested.
    pub fn airdrop_url(&self) -> (r: String)
        ensures
            r@ == self.spec_base_url() + "/airdrop"@,
    {
        self.url("/airdrop")
    }

    /// Where past airdrops are listed, `limit` of them from `offset` on.
    pub fn airdrop_history_url(&self, limit: u32, offset: u32) -> (r: String)
        ensures
            r@ == self.spec_base_url() + "/airdrop/history?limit="@ + decimal(limit as nat)
                + "&offset="@ + decimal(offset as nat),
    {
        let mut r = self.url("/airdrop/history?limit=");
        r.append(u64_to_text(limit as u64).as_str());
        r.append("&offset=");
        r.append(u64_to_text(offset as u64).as_str());
        r
    }

    /// Where the usage of airdrops is reported.
    pub fn airdrop_usage_url(&self) -> (r: String)
        ensures
            r@ == self.spec_base_url() + "/airdrop/usage"@,
    {
        self.url("/airdrop/usage")
    }

    /// Where API keys are made and listed.
    pub fn api_keys_url(&self) -> (r: String)
        ensures
            r@ == self.spec_base_url() + "/auth/api-keys"@,
    {
        self.url("/auth/api-keys")
    }

    /// Where the API key `key_id` is revoked.
    pub fn api_key_url(&self, key_id: &str) -> (r: String)
        ensures
            r@ == self.spec_base_url() + "/auth/api-keys/"@ + key_id@,
    {
        let mut r = self.url("/auth/api-keys/");
        r.append(key_id);
        r
    }

    /// Where the usage of the API key `key_id` is reported.
    pub fn api_key_usage_url(&self, key_id: &str) -> (r: String)
        ensures
            r@ == self.spec_base_url() + "/auth/api-keys/"@ + key_id@ + "/usage"@,
    {
        let mut r = self.api_key_url(key_id);
        r.append("/usage");
        r
    }
}

} // verus!

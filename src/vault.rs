use vstd::prelude::*;
use vstd::string::StringExecFns;
use crate::error::{RpcError, RpcErrorView};
use crate::text::{chars_of, decimal, decimal_string, joined, trim, trim_bounds};
use crate::types::{chain_key, RpcCredentials, SupportedChain};

verus! {

/// An entry of the platform's secure store, as `keyring` opens it.
#[verifier::external_type_specification]
#[verifier::external_body]
pub struct ExEntry(keyring::Entry);

/// A failure that `keyring` reports.
#[verifier::external_type_specification]
#[verifier::external_body]
pub struct ExKeyringError(keyring::Error);

/// Relies on `keyring::Entry::new`: opens the platform store's entry for a service and an
/// account. Whether it succeeds depends on the platform store, so nothing is promised of it;
/// it panics only when the crate's own builder lock was poisoned by an earlier panic.
pub assume_specification[ keyring::Entry::new ](service: &str, user: &str) -> keyring::Result<
    keyring::Entry,
>;

/// Relies on `keyring::Entry::set_password`: writes the entry's secret in the platform store.
pub assume_specification[ keyring::Entry::set_password ](
    entry: &keyring::Entry,
    password: &str,
) -> keyring::Result<()>;

/// Relies on `keyring::Entry::get_password`: reads the entry's secret from the platform store.
pub assume_specification[ keyring::Entry::get_password ](entry: &keyring::Entry) -> keyring::Result<
    String,
>;

/// Relies on `keyring::Entry::delete_credential`: removes the entry from the platform store.
pub assume_specification[ keyring::Entry::delete_credential ](
    entry: &keyring::Entry,
) -> keyring::Result<()>;

/// The account under which a chain's record is kept.
pub open spec fn account_name_of(chain: SupportedChain) -> Seq<char> {
    "verusidx-"@ + chain_key(chain)
}

/// The failure reported when a step of the secret store fails with `detail`.
pub open spec fn store_failure_of(action: Seq<char>, detail: Seq<char>) -> RpcErrorView {
    RpcErrorView::Configuration(action + ": "@ + detail)
}

/// Whether `e` is the failure of opening the store's entry or of the step `action`, whatever
/// the store's own description of what went wrong.
pub open spec fn is_store_failure(e: RpcErrorView, action: Seq<char>) -> bool {
    match e {
        RpcErrorView::Configuration(m) => ("Failed to create keyring entry"@ + ": "@).is_prefix_of(
            m,
        ) || (action + ": "@).is_prefix_of(m),
        _ => false,
    }
}

/// The chains with a fixed identity, in the order they are listed.
pub open spec fn all_chains() -> Seq<SupportedChain> {
    seq![
        SupportedChain::Vrsc,
        SupportedChain::VrscTest,
        SupportedChain::Varrr,
        SupportedChain::Vdex,
        SupportedChain::Chips,
    ]
}

/// The chains of `all_chains()` from index `i` on whose flag in `present` is set.
pub open spec fn chains_where_from(present: Seq<bool>, i: int) -> Seq<SupportedChain>
    decreases 5 - i,
{
    if i < 0 || i >= 5 {
        Seq::empty()
    } else if i < present.len() && present[i] {
        seq![all_chains()[i]] + chains_where_from(present, i + 1)
    } else {
        chains_where_from(present, i + 1)
    }
}

/// Why a set of credentials is refused before it is stored, if it is.
pub open spec fn validation_failure_of(
    username: Seq<char>,
    password: Seq<char>,
    host: Seq<char>,
    port: u16,
) -> Option<RpcErrorView> {
    if trim(username).len() == 0 {
        Some(RpcErrorView::Configuration("Username cannot be empty"@))
    } else if trim(password).len() == 0 {
        Some(RpcErrorView::Configuration("Password cannot be empty"@))
    } else if trim(host).len() == 0 {
        Some(RpcErrorView::Configuration("Host cannot be empty"@))
    } else if port == 0 {
        Some(RpcErrorView::Configuration("Port must be between 1 and 65535"@))
    } else {
        None
    }
}

/// Why a set of credentials is refused for use in one session, if it is.
pub open spec fn session_failure_of(username: Seq<char>, password: Seq<char>, port: u16) -> Option<
    RpcErrorView,
> {
    if username.len() == 0 || password.len() == 0 {
        Some(RpcErrorView::Configuration("Invalid credentials: username and password required"@))
    } else if port == 0 {
        Some(RpcErrorView::Configuration("Invalid credentials: valid port required"@))
    } else {
        None
    }
}

/// The text of credentials with the password left out.
pub open spec fn sanitized_of(username: Seq<char>, host: Seq<char>, port: u16) -> Seq<char> {
    "RpcCredentials { username: "@ + username + ", password: [REDACTED], host: "@ + host
        + ", port: "@ + decimal(port as nat) + " }"@
}

/// The failure of a store step, from the store's own description of what went wrong.
pub fn store_failure(action: &str, detail: &str) -> (r: RpcError)
    ensures
        r@ == store_failure_of(action@, detail@),
{
    RpcError::Configuration(joined(action, ": ").concat(detail))
}

/// What a step of the secret store gives: its value when it succeeded, and otherwise the
/// configuration failure of that step, carrying the store's description of what went wrong.
pub fn store_outcome<T>(action: &str, outcome: Result<T, keyring::Error>) -> (r: Result<
    T,
    RpcError,
>)
    ensures
        outcome is Ok <==> r is Ok,
        outcome is Ok ==> r == Ok::<T, RpcError>(outcome->Ok_0),
        r matches Err(e) ==> (e@ matches RpcErrorView::Configuration(m) && (action@
            + ": "@).is_prefix_of(m)),
{
    match outcome {
        Ok(v) => Ok(v),
        Err(e) => {
            let detail = e.to_string();
            let r = store_failure(action, detail.as_str());
            assert((action@ + ": "@ + detail@).subrange(0, (action@ + ": "@).len() as int)
                =~= action@ + ": "@);
            Err(r)
        },
    }
}

fn is_blank(s: &String) -> (r: bool)
    ensures
        r == (trim(s@).len() == 0),
{
    let v = chars_of(s.as_str());
    let (a, b) = trim_bounds(&v, 0, v.len());
    assert(v@.subrange(0, v@.len() as int) =~= v@);
    a == b
}

/// The chains whose flag is set in `present`, in the fixed order; flags past the fifth are
/// ignored and missing ones count as unset.
pub fn select_stored_chains(present: &Vec<bool>) -> (r: Vec<SupportedChain>)
    ensures
        r@ == chains_where_from(present@, 0),
{
    let all = [
        SupportedChain::Vrsc,
        SupportedChain::VrscTest,
        SupportedChain::Varrr,
        SupportedChain::Vdex,
        SupportedChain::Chips,
    ];
    assert(all@ =~= all_chains());
    let mut out: Vec<SupportedChain> = Vec::new();
    let mut k: usize = 0;
    while k < 5
        invariant
            k <= 5,
            all@ == all_chains(),
            out@ + chains_where_from(present@, k as int) == chains_where_from(present@, 0),
        decreases 5 - k,
    {
        if k < present.len() && present[k] {
            let ghost rest = chains_where_from(present@, k + 1);
            assert(out@ + (seq![all_chains()[k as int]] + rest) =~= out@.push(all@[k as int])
                + rest);
            out.push(all[k]);
        }
        k = k + 1;
    }
    assert(out@ + chains_where_from(present@, 5) =~= out@);
    out
}

/// Keeps one secret record per chain in the platform's secure store, under one service name.
#[derive(Debug)]
pub struct CredentialManager {
    service_name: String,
}

impl CredentialManager {
    /// The service name that every record of this manager is kept under.
    pub closed spec fn service(&self) -> Seq<char> {
        self.service_name@
    }

    pub fn new() -> (r: CredentialManager)
        ensures
            r.service() == "VerusIDX"@,
    {
        CredentialManager { service_name: String::from_str("VerusIDX") }
    }

    /// The account under which a chain's record is kept: `verusidx-<chain>`.
    pub fn get_account_name(&self, chain: &SupportedChain) -> (r: String)
        ensures
            r@ == account_name_of(*chain),
    {
        joined("verusidx-", chain.to_string())
    }

    /// Writes a chain's encoded record to the store.
    pub fn store_record(&self, chain: &SupportedChain, record: &str) -> (r: Result<(), RpcError>)
        ensures
            r matches Err(e) ==> is_store_failure(e@, "Failed to store credentials"@),
    {
        let account = self.get_account_name(chain);
        let opened = keyring::Entry::new(self.service_name.as_str(), account.as_str());
        let entry = match store_outcome("Failed to create keyring entry", opened) {
            Ok(entry) => entry,
            Err(e) => {
                return Err(e);
            },
        };
        store_outcome("Failed to store credentials", entry.set_password(record))
    }

    /// Reads a chain's encoded record from the store; any failure, a missing record included,
    /// is a configuration failure.
    pub fn load_record(&self, chain: &SupportedChain) -> (r: Result<String, RpcError>)
        ensures
            r matches Err(e) ==> is_store_failure(e@, "Failed to load credentials"@),
    {
        let account = self.get_account_name(chain);
        let opened = keyring::Entry::new(self.service_name.as_str(), account.as_str());
        let entry = match store_outcome("Failed to create keyring entry", opened) {
            Ok(entry) => entry,
            Err(e) => {
                return Err(e);
            },
        };
        store_outcome("Failed to load credentials", entry.get_password())
    }

    /// Removes a chain's record from the store.
    pub fn clear_credentials(&self, chain: &SupportedChain) -> (r: Result<(), RpcError>)
        ensures
            r matches Err(e) ==> is_store_failure(e@, "Failed to clear credentials"@),
    {
        let account = self.get_account_name(chain);
        let opened = keyring::Entry::new(self.service_name.as_str(), account.as_str());
        let entry = match store_outcome("Failed to create keyring entry", opened) {
            Ok(entry) => entry,
            Err(e) => {
                return Err(e);
            },
        };
        store_outcome("Failed to clear credentials", entry.delete_credential())
    }

    /// Whether the store holds a readable record for a chain.
    pub fn has_credentials(&self, chain: &SupportedChain) -> (r: bool) {
        let account = self.get_account_name(chain);
        match keyring::Entry::new(self.service_name.as_str(), account.as_str()) {
            Ok(entry) => entry.get_password().is_ok(),
            Err(_) => false,
        }
    }

    /// The chains with a fixed identity that have a record in the store, in the fixed order.
    /// Sibling chains known only by their identifier cannot be listed this way.
    pub fn list_stored_chains(&self) -> (r: Vec<SupportedChain>)
        ensures
            exists|present: Seq<bool>| r@ == chains_where_from(present, 0),
    {
        let mut present: Vec<bool> = Vec::new();
        present.push(self.has_credentials(&SupportedChain::Vrsc));
        present.push(self.has_credentials(&SupportedChain::VrscTest));
        present.push(self.has_credentials(&SupportedChain::Varrr));
        present.push(self.has_credentials(&SupportedChain::Vdex));
        present.push(self.has_credentials(&SupportedChain::Chips));
        select_stored_chains(&present)
    }

    /// Checks credentials for use in this session only: a user name, a password and a
    /// non-zero port are required.
    pub fn cache_session_credentials(
        &self,
        _chain: &SupportedChain,
        credentials: &RpcCredentials,
    ) -> (r: Result<(), RpcError>)
        ensures
            match session_failure_of(
                credentials.username@,
                credentials.password@,
                credentials.port,
            ) {
                Some(f) => r matches Err(e) && e@ == f,
                None => r is Ok,
            },
    {
        if credentials.username.as_str().is_empty() || credentials.password.as_str().is_empty() {
            return Err(
                RpcError::configuration("Invalid credentials: username and password required"),
            );
        }
        if credentials.port == 0 {
            return Err(RpcError::configuration("Invalid credentials: valid port required"));
        }
        Ok(())
    }

    /// Checks credentials before they are stored: user name, password and host must hold more
    /// than white space, and the port must be in 1..=65535.
    pub fn validate_credentials(credentials: &RpcCredentials) -> (r: Result<(), RpcError>)
        ensures
            match validation_failure_of(
                credentials.username@,
                credentials.password@,
                credentials.host@,
                credentials.port,
            ) {
                Some(f) => r matches Err(e) && e@ == f,
                None => r is Ok,
            },
    {
        if is_blank(&credentials.username) {
            return Err(RpcError::configuration("Username cannot be empty"));
        }
        if is_blank(&credentials.password) {
            return Err(RpcError::configuration("Password cannot be empty"));
        }
        if is_blank(&credentials.host) {
            return Err(RpcError::configuration("Host cannot be empty"));
        }
        if credentials.port == 0 {
            return Err(RpcError::configuration("Port must be between 1 and 65535"));
        }
        Ok(())
    }

    /// The credentials as text for a log, with the password replaced by `[REDACTED]`.
    pub fn sanitize_for_logging(credentials: &RpcCredentials) -> (r: String)
        ensures
            r@ == sanitized_of(credentials.username@, credentials.host@, credentials.port),
    {
        let port = decimal_string(credentials.port as u64);
        joined("RpcCredentials { username: ", credentials.username.as_str()).concat(
            ", password: [REDACTED], host: ",
        ).concat(credentials.host.as_str()).concat(", port: ").concat(port.as_str()).concat(" }")
    }
}

impl Default for CredentialManager {
    fn default() -> (r: CredentialManager)
        ensures
            r.service() == "VerusIDX"@,
    {
        CredentialManager::new()
    }
}

} // verus!

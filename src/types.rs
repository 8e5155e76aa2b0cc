use vstd::prelude::*;
use crate::text::str_eq;

verus! {

/// What is needed to reach and authenticate to one daemon.
#[derive(Debug)]
pub struct RpcCredentials {
    pub username: String,
    pub password: String,
    pub host: String,
    pub port: u16,
}

/// The contents of `RpcCredentials`, as sequences of characters.
pub struct CredentialsView {
    pub username: Seq<char>,
    pub password: Seq<char>,
    pub host: Seq<char>,
    pub port: u16,
}

impl View for RpcCredentials {
    type V = CredentialsView;

    open spec fn view(&self) -> CredentialsView {
        CredentialsView {
            username: self.username@,
            password: self.password@,
            host: self.host@,
            port: self.port,
        }
    }
}

impl Clone for RpcCredentials {
    fn clone(&self) -> (r: Self)
        ensures
            r == *self,
    {
        RpcCredentials {
            username: self.username.clone(),
            password: self.password.clone(),
            host: self.host.clone(),
            port: self.port,
        }
    }
}

/// The chains with a fixed identity: the main chain, its test network and three named siblings.
#[derive(Debug, Clone, Copy, PartialEq, Eq, Structural)]
pub enum SupportedChain {
    Vrsc,
    VrscTest,
    Varrr,
    Vdex,
    Chips,
}

/// The lower-case key of a chain with a fixed identity.
pub open spec fn chain_key(c: SupportedChain) -> Seq<char> {
    match c {
        SupportedChain::Vrsc => "vrsc"@,
        SupportedChain::VrscTest => "vrsctest"@,
        SupportedChain::Varrr => "varrr"@,
        SupportedChain::Vdex => "vdex"@,
        SupportedChain::Chips => "chips"@,
    }
}

/// The chain whose key is `key`, if there is one.
pub open spec fn chain_of_key(key: Seq<char>) -> Option<SupportedChain> {
    if key == "vrsc"@ {
        Some(SupportedChain::Vrsc)
    } else if key == "vrsctest"@ {
        Some(SupportedChain::VrscTest)
    } else if key == "varrr"@ {
        Some(SupportedChain::Varrr)
    } else if key == "vdex"@ {
        Some(SupportedChain::Vdex)
    } else if key == "chips"@ {
        Some(SupportedChain::Chips)
    } else {
        None
    }
}

impl SupportedChain {
    /// The lower-case key of this chain.
    pub fn to_string(&self) -> (r: &'static str)
        ensures
            r@ == chain_key(*self),
    {
        match self {
            SupportedChain::Vrsc => "vrsc",
            SupportedChain::VrscTest => "vrsctest",
            SupportedChain::Varrr => "varrr",
            SupportedChain::Vdex => "vdex",
            SupportedChain::Chips => "chips",
        }
    }

    /// The chain whose key is exactly `key`, if there is one.
    pub fn from_key(key: &str) -> (r: Option<SupportedChain>)
        ensures
            r == chain_of_key(key@),
    {
        if str_eq(key, "vrsc") {
            Some(SupportedChain::Vrsc)
        } else if str_eq(key, "vrsctest") {
            Some(SupportedChain::VrscTest)
        } else if str_eq(key, "varrr") {
            Some(SupportedChain::Varrr)
        } else if str_eq(key, "vdex") {
            Some(SupportedChain::Vdex)
        } else if str_eq(key, "chips") {
            Some(SupportedChain::Chips)
        } else {
            None
        }
    }
}

/// One chain found on this machine: its identity, the name shown for it, how to reach it,
/// and whether the last probe reached it.
#[derive(Debug)]
pub struct ChainConfig {
    pub name: String,
    pub display_name: String,
    pub credentials: RpcCredentials,
    pub is_active: bool,
}

/// The contents of `ChainConfig`, as sequences of characters.
pub struct ChainView {
    pub name: Seq<char>,
    pub display_name: Seq<char>,
    pub credentials: CredentialsView,
    pub is_active: bool,
}

impl View for ChainConfig {
    type V = ChainView;

    open spec fn view(&self) -> ChainView {
        ChainView {
            name: self.name@,
            display_name: self.display_name@,
            credentials: self.credentials@,
            is_active: self.is_active,
        }
    }
}

impl Clone for ChainConfig {
    fn clone(&self) -> (r: Self)
        ensures
            r == *self,
    {
        ChainConfig {
            name: self.name.clone(),
            display_name: self.display_name.clone(),
            credentials: self.credentials.clone(),
            is_active: self.is_active,
        }
    }
}

/// A JSON-RPC 1.0 request as it goes on the wire.
#[derive(Debug)]
pub struct JsonRpcRequest<P> {
    pub jsonrpc: String,
    pub method: String,
    pub params: P,
    pub id: String,
}

/// A JSON-RPC response that carries its protocol tag.
#[derive(Debug)]
pub struct JsonRpcResponse<T> {
    pub jsonrpc: String,
    pub result: Option<T>,
    pub error: Option<JsonRpcError>,
    pub id: String,
}

/// The response shape the daemon sends: no protocol tag, an optional result and an optional
/// error object.
#[derive(Debug)]
pub struct VerusJsonRpcResponse<T> {
    pub result: Option<T>,
    pub error: Option<JsonRpcError>,
    pub id: String,
}

/// The error object in a daemon's response.
#[derive(Debug)]
pub struct JsonRpcError {
    pub code: i32,
    pub message: String,
}

} // verus!

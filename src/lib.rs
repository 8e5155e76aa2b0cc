//! Finding, authenticating to and talking JSON-RPC with locally running chain daemons: the
//! configuration files that describe them, the transport's decisions, the error taxonomy and
//! the secure store for credentials.

pub mod config;
pub mod discovery;
pub mod error;
pub mod paths;
pub mod text;
pub mod transport;
pub mod types;
pub mod vault;

pub use config::{default_port_for_file, parse_config};
pub use discovery::{
    apply_fallback_names, apply_names, get_fallback_display_name, sibling_chains,
    ChainDiscovery, ConnectRefusal, CurrencyEntry, DiscoveryDraft, DiscoveryScan, SiblingConfig,
};
pub use error::RpcError;
pub use paths::{config_file_name, BaseDir, PathResolver, Platform, RootLayout};
pub use transport::{
    build_request, check_http_status, conclude_bare_decode, conclude_null_decode,
    conclude_result_decode, endpoint_url, interpret_envelope, RequestCounter, ResponseStep,
};
pub use types::{
    ChainConfig, JsonRpcError, JsonRpcRequest, JsonRpcResponse, RpcCredentials, SupportedChain,
    VerusJsonRpcResponse,
};
pub use vault::{select_stored_chains, store_failure, store_outcome, CredentialManager};

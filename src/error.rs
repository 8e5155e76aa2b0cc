use vstd::prelude::*;
use vstd::string::StringExecFns;
use crate::text::{joined, push_text, signed_decimal, signed_decimal_string, string_views, three_steps};

verus! {

/// The failures that the transport, the configuration reader and the credential vault report.
#[derive(Debug)]
pub enum RpcError {
    Connection(String),
    Authentication(String),
    RpcCall(String),
    JsonParse(String),
    Network(String),
    Configuration(String),
    DaemonOffline,
    InvalidResponse,
    InsufficientFunds(String),
    IdentityNotFound(String),
    CurrencyNotFound(String),
    ChainSyncing,
    WalletLocked,
    InvalidAddress(String),
    TransactionFailed(String),
    OfferNotFound(String),
    PermissionDenied(String),
    RateLimitExceeded,
    ValidationError(String),
}

/// What an `RpcError` holds, with its text as a sequence of characters.
pub enum RpcErrorView {
    Connection(Seq<char>),
    Authentication(Seq<char>),
    RpcCall(Seq<char>),
    JsonParse(Seq<char>),
    Network(Seq<char>),
    Configuration(Seq<char>),
    DaemonOffline,
    InvalidResponse,
    InsufficientFunds(Seq<char>),
    IdentityNotFound(Seq<char>),
    CurrencyNotFound(Seq<char>),
    ChainSyncing,
    WalletLocked,
    InvalidAddress(Seq<char>),
    TransactionFailed(Seq<char>),
    OfferNotFound(Seq<char>),
    PermissionDenied(Seq<char>),
    RateLimitExceeded,
    ValidationError(Seq<char>),
}

impl View for RpcError {
    type V = RpcErrorView;

    open spec fn view(&self) -> RpcErrorView {
        match self {
            RpcError::Connection(s) => RpcErrorView::Connection(s@),
            RpcError::Authentication(s) => RpcErrorView::Authentication(s@),
            RpcError::RpcCall(s) => RpcErrorView::RpcCall(s@),
            RpcError::JsonParse(s) => RpcErrorView::JsonParse(s@),
            RpcError::Network(s) => RpcErrorView::Network(s@),
            RpcError::Configuration(s) => RpcErrorView::Configuration(s@),
            RpcError::DaemonOffline => RpcErrorView::DaemonOffline,
            RpcError::InvalidResponse => RpcErrorView::InvalidResponse,
            RpcError::InsufficientFunds(s) => RpcErrorView::InsufficientFunds(s@),
            RpcError::IdentityNotFound(s) => RpcErrorView::IdentityNotFound(s@),
            RpcError::CurrencyNotFound(s) => RpcErrorView::CurrencyNotFound(s@),
            RpcError::ChainSyncing => RpcErrorView::ChainSyncing,
            RpcError::WalletLocked => RpcErrorView::WalletLocked,
            RpcError::InvalidAddress(s) => RpcErrorView::InvalidAddress(s@),
            RpcError::TransactionFailed(s) => RpcErrorView::TransactionFailed(s@),
            RpcError::OfferNotFound(s) => RpcErrorView::OfferNotFound(s@),
            RpcError::PermissionDenied(s) => RpcErrorView::PermissionDenied(s@),
            RpcError::RateLimitExceeded => RpcErrorView::RateLimitExceeded,
            RpcError::ValidationError(s) => RpcErrorView::ValidationError(s@),
        }
    }
}

/// The text that an error displays.
pub open spec fn display_text_of(e: RpcErrorView) -> Seq<char> {
    match e {
        RpcErrorView::Connection(s) => "Connection error: "@ + s,
        RpcErrorView::Authentication(s) => "Authentication error: "@ + s,
        RpcErrorView::RpcCall(s) => "RPC call failed: "@ + s,
        RpcErrorView::JsonParse(s) => "JSON parsing error: "@ + s,
        RpcErrorView::Network(s) => "Network error: "@ + s,
        RpcErrorView::Configuration(s) => "Configuration error: "@ + s,
        RpcErrorView::DaemonOffline => "Daemon offline or unreachable"@,
        RpcErrorView::InvalidResponse => "Invalid response from daemon"@,
        RpcErrorView::InsufficientFunds(s) => "Insufficient funds: "@ + s,
        RpcErrorView::IdentityNotFound(s) => "Identity not found: "@ + s,
        RpcErrorView::CurrencyNotFound(s) => "Currency not found: "@ + s,
        RpcErrorView::ChainSyncing => "Chain sync in progress"@,
        RpcErrorView::WalletLocked => "Wallet locked"@,
        RpcErrorView::InvalidAddress(s) => "Invalid address: "@ + s,
        RpcErrorView::TransactionFailed(s) => "Transaction failed: "@ + s,
        RpcErrorView::OfferNotFound(s) => "Offer not found: "@ + s,
        RpcErrorView::PermissionDenied(s) => "Permission denied: "@ + s,
        RpcErrorView::RateLimitExceeded => "Rate limit exceeded"@,
        RpcErrorView::ValidationError(s) => "Validation error: "@ + s,
    }
}
/// What a numeric code in a daemon's error object means.
pub open spec fn daemon_error_view(code: int, message: Seq<char>) -> RpcErrorView {
    if code == -1 {
        RpcErrorView::DaemonOffline
    } else if code == -3 {
        RpcErrorView::Authentication("Invalid RPC credentials"@)
    } else if code == -4 || code == -13 || code == -14 {
        RpcErrorView::WalletLocked
    } else if code == -5 || code == -8 || code == -15 {
        RpcErrorView::InvalidAddress(message)
    } else if code == -6 {
        RpcErrorView::InsufficientFunds(message)
    } else if code == -17 {
        RpcErrorView::ChainSyncing
    } else if code == -18 {
        RpcErrorView::IdentityNotFound(message)
    } else if code == -19 {
        RpcErrorView::CurrencyNotFound(message)
    } else if code == -20 {
        RpcErrorView::OfferNotFound(message)
    } else if code == -21 {
        RpcErrorView::PermissionDenied(message)
    } else if code == -22 {
        RpcErrorView::ValidationError(message)
    } else if code == -25 {
        RpcErrorView::TransactionFailed(message)
    } else {
        RpcErrorView::RpcCall("Code "@ + signed_decimal(code) + ": "@ + message)
    }
}

/// Whether a code has an entry of its own in the daemon code table.
pub open spec fn is_mapped_code(code: int) -> bool {
    code == -1 || code == -3 || code == -4 || code == -5 || code == -6 || code == -8 || code
        == -13 || code == -14 || code == -15 || code == -17 || code == -18 || code == -19 || code
        == -20 || code == -21 || code == -22 || code == -25
}

/// What a failure of the HTTP layer, before any response, means.
pub open spec fn transport_error_view(
    is_connect: bool,
    is_timeout: bool,
    detail: Seq<char>,
) -> RpcErrorView {
    if is_connect {
        RpcErrorView::DaemonOffline
    } else if is_timeout {
        RpcErrorView::Network("Request timeout"@)
    } else {
        RpcErrorView::Network(detail)
    }
}

/// The message shown to a user for an error.
pub open spec fn friendly_message_of(e: RpcErrorView) -> Seq<char> {
    match e {
        RpcErrorView::DaemonOffline => "The Verus daemon is not running or unreachable. Please start your Verus wallet and try again."@,
        RpcErrorView::Authentication(_) => "Invalid RPC credentials. Please check your username and password in the configuration."@,
        RpcErrorView::WalletLocked => "Your wallet is locked. Please unlock it with your passphrase to perform this operation."@,
        RpcErrorView::ChainSyncing => "The blockchain is still syncing. Please wait for sync to complete before trying again."@,
        RpcErrorView::InsufficientFunds(d) => "Insufficient funds to complete this transaction. "@ + d,
        RpcErrorView::InvalidAddress(a) => "The address '"@ + a + "' is not valid. Please check the address format."@,
        RpcErrorView::IdentityNotFound(n) => "Identity '"@ + n + "' was not found. Please verify the identity name."@,
        RpcErrorView::CurrencyNotFound(n) => "Currency '"@ + n + "' was not found. Please verify the currency name."@,
        RpcErrorView::OfferNotFound(i) => "Offer '"@ + i + "' was not found or has expired."@,
        RpcErrorView::PermissionDenied(d) => "Permission denied: "@ + d + ". You may not have the required authority."@,
        RpcErrorView::TransactionFailed(d) => "Transaction failed: "@ + d + ". Please check your inputs and try again."@,
        RpcErrorView::ValidationError(d) => "Validation error: "@ + d + ". Please check your inputs."@,
        RpcErrorView::Network(d) => "Network error: "@ + d + ". Please check your internet connection."@,
        RpcErrorView::Configuration(d) => "Configuration error: "@ + d + ". Please check your settings."@,
        RpcErrorView::Connection(d) => "Connection error: "@ + d + ". Please verify your daemon is running."@,
        RpcErrorView::RateLimitExceeded => "Too many requests. Please wait a moment before trying again."@,
        _ => "An unexpected error occurred. Please try again or contact support."@,
    }
}

/// The steps suggested to a user for an error.
pub open spec fn resolution_steps_of(e: RpcErrorView) -> Seq<Seq<char>> {
    match e {
        RpcErrorView::DaemonOffline => seq![
            "Start your Verus wallet application"@,
            "Wait for the daemon to fully load"@,
            "Check that RPC is enabled in your configuration"@,
        ],
        RpcErrorView::Authentication(_) => seq![
            "Check your RPC username and password"@,
            "Verify your wallet configuration file"@,
            "Restart the wallet if credentials were recently changed"@,
        ],
        RpcErrorView::WalletLocked => seq![
            "Unlock your wallet with the passphrase"@,
            "Consider setting up automatic unlocking for staking"@,
        ],
        RpcErrorView::ChainSyncing => seq![
            "Wait for blockchain synchronization to complete"@,
            "Check sync progress in your wallet"@,
            "Ensure stable internet connection"@,
        ],
        RpcErrorView::InsufficientFunds(_) => seq![
            "Check your available balance"@,
            "Wait for pending transactions to confirm"@,
            "Consider reducing transaction amount or fees"@,
        ],
        RpcErrorView::InvalidAddress(_) => seq![
            "Double-check the address format"@,
            "Copy address from a reliable source"@,
            "Verify you're using the correct chain address"@,
        ],
        _ => seq![
            "Check your internet connection"@,
            "Verify daemon is running properly"@,
            "Try the operation again in a few moments"@,
        ],
    }
}

/// Whether an error is one that can clear up by itself or by a user's action.
pub open spec fn is_recoverable_kind(e: RpcErrorView) -> bool {
    e is Network || e is DaemonOffline || e is ChainSyncing || e is RateLimitExceeded
        || e is WalletLocked
}

/// Whether an error suggests trying the same call again.
pub open spec fn should_retry_kind(e: RpcErrorView) -> bool {
    e is Network || e is DaemonOffline || e is ChainSyncing || e is RateLimitExceeded
}

impl RpcError {
    /// A configuration failure with the given text.
    pub fn configuration(text: &str) -> (r: RpcError)
        ensures
            r@ == RpcErrorView::Configuration(text@),
    {
        RpcError::Configuration(String::from_str(text))
    }

    /// Classifies a numeric code and message from a daemon's error object.
    pub fn from_daemon_error(code: i32, message: &str) -> (r: RpcError)
        ensures
            r@ == daemon_error_view(code as int, message@),
    {
        let m = String::from_str(message);
        if code == -1 {
            RpcError::DaemonOffline
        } else if code == -3 {
            RpcError::Authentication(String::from_str("Invalid RPC credentials"))
        } else if code == -4 || code == -13 || code == -14 {
            RpcError::WalletLocked
        } else if code == -5 || code == -8 || code == -15 {
            RpcError::InvalidAddress(m)
        } else if code == -6 {
            RpcError::InsufficientFunds(m)
        } else if code == -17 {
            RpcError::ChainSyncing
        } else if code == -18 {
            RpcError::IdentityNotFound(m)
        } else if code == -19 {
            RpcError::CurrencyNotFound(m)
        } else if code == -20 {
            RpcError::OfferNotFound(m)
        } else if code == -21 {
            RpcError::PermissionDenied(m)
        } else if code == -22 {
            RpcError::ValidationError(m)
        } else if code == -25 {
            RpcError::TransactionFailed(m)
        } else {
            let num = signed_decimal_string(code);
            let text = joined("Code ", num.as_str()).concat(": ").concat(message);
            RpcError::RpcCall(text)
        }
    }

    /// Classifies a failure of the HTTP layer that happened before any response came.
    pub fn from_transport_failure(is_connect: bool, is_timeout: bool, detail: &str) -> (r:
        RpcError)
        ensures
            r@ == transport_error_view(is_connect, is_timeout, detail@),
    {
        if is_connect {
            RpcError::DaemonOffline
        } else if is_timeout {
            RpcError::Network(String::from_str("Request timeout"))
        } else {
            RpcError::Network(String::from_str(detail))
        }
    }

    /// The text that the error displays.
    pub fn display_text(&self) -> (r: String)
        ensures
            r@ == display_text_of(self@),
    {
        match self {
            RpcError::Connection(s) => joined("Connection error: ", s.as_str()),
            RpcError::Authentication(s) => joined("Authentication error: ", s.as_str()),
            RpcError::RpcCall(s) => joined("RPC call failed: ", s.as_str()),
            RpcError::JsonParse(s) => joined("JSON parsing error: ", s.as_str()),
            RpcError::Network(s) => joined("Network error: ", s.as_str()),
            RpcError::Configuration(s) => joined("Configuration error: ", s.as_str()),
            RpcError::DaemonOffline => String::from_str("Daemon offline or unreachable"),
            RpcError::InvalidResponse => String::from_str("Invalid response from daemon"),
            RpcError::InsufficientFunds(s) => joined("Insufficient funds: ", s.as_str()),
            RpcError::IdentityNotFound(s) => joined("Identity not found: ", s.as_str()),
            RpcError::CurrencyNotFound(s) => joined("Currency not found: ", s.as_str()),
            RpcError::ChainSyncing => String::from_str("Chain sync in progress"),
            RpcError::WalletLocked => String::from_str("Wallet locked"),
            RpcError::InvalidAddress(s) => joined("Invalid address: ", s.as_str()),
            RpcError::TransactionFailed(s) => joined("Transaction failed: ", s.as_str()),
            RpcError::OfferNotFound(s) => joined("Offer not found: ", s.as_str()),
            RpcError::PermissionDenied(s) => joined("Permission denied: ", s.as_str()),
            RpcError::RateLimitExceeded => String::from_str("Rate limit exceeded"),
            RpcError::ValidationError(s) => joined("Validation error: ", s.as_str()),        }
    }

    /// The message shown to a user for this error.
    pub fn user_friendly_message(&self) -> (r: String)
        ensures
            r@ == friendly_message_of(self@),
    {
        match self {
            RpcError::DaemonOffline => String::from_str(
                "The Verus daemon is not running or unreachable. Please start your Verus wallet and try again.",
            ),
            RpcError::Authentication(_) => String::from_str(
                "Invalid RPC credentials. Please check your username and password in the configuration.",
            ),
            RpcError::WalletLocked => String::from_str(
                "Your wallet is locked. Please unlock it with your passphrase to perform this operation.",
            ),
            RpcError::ChainSyncing => String::from_str(
                "The blockchain is still syncing. Please wait for sync to complete before trying again.",
            ),
            RpcError::InsufficientFunds(d) => joined(
                "Insufficient funds to complete this transaction. ",
                d.as_str(),
            ),
            RpcError::InvalidAddress(a) => joined("The address '", a.as_str()).concat(
                "' is not valid. Please check the address format.",
            ),
            RpcError::IdentityNotFound(n) => joined("Identity '", n.as_str()).concat(
                "' was not found. Please verify the identity name.",
            ),
            RpcError::CurrencyNotFound(n) => joined("Currency '", n.as_str()).concat(
                "' was not found. Please verify the currency name.",
            ),
            RpcError::OfferNotFound(i) => joined("Offer '", i.as_str()).concat(
                "' was not found or has expired.",
            ),
            RpcError::PermissionDenied(d) => joined("Permission denied: ", d.as_str()).concat(
                ". You may not have the required authority.",
            ),
            RpcError::TransactionFailed(d) => joined("Transaction failed: ", d.as_str()).concat(
                ". Please check your inputs and try again.",
            ),
            RpcError::ValidationError(d) => joined("Validation error: ", d.as_str()).concat(
                ". Please check your inputs.",
            ),
            RpcError::Network(d) => joined("Network error: ", d.as_str()).concat(
                ". Please check your internet connection.",
            ),
            RpcError::Configuration(d) => joined("Configuration error: ", d.as_str()).concat(
                ". Please check your settings.",
            ),
            RpcError::Connection(d) => joined("Connection error: ", d.as_str()).concat(
                ". Please verify your daemon is running.",
            ),
            RpcError::RateLimitExceeded => String::from_str(
                "Too many requests. Please wait a moment before trying again.",
            ),
            _ => String::from_str(
                "An unexpected error occurred. Please try again or contact support.",
            ),
        }
    }

    /// The steps suggested to a user for this error.
    pub fn resolution_steps(&self) -> (r: Vec<String>)
        ensures
            string_views(r@) == resolution_steps_of(self@),
    {
        match self {
            RpcError::DaemonOffline => three_steps(
                "Start your Verus wallet application",
                "Wait for the daemon to fully load",
                "Check that RPC is enabled in your configuration",
            ),
            RpcError::Authentication(_) => three_steps(
                "Check your RPC username and password",
                "Verify your wallet configuration file",
                "Restart the wallet if credentials were recently changed",
            ),
            RpcError::WalletLocked => {
                let mut v: Vec<String> = Vec::new();
                assert(string_views(v@) =~= Seq::<Seq<char>>::empty());
                push_text(&mut v, "Unlock your wallet with the passphrase");
                push_text(&mut v, "Consider setting up automatic unlocking for staking");
                assert(resolution_steps_of(self@) =~= Seq::<Seq<char>>::empty().push(
                    "Unlock your wallet with the passphrase"@,
                ).push("Consider setting up automatic unlocking for staking"@));
                v
            },
            RpcError::ChainSyncing => three_steps(
                "Wait for blockchain synchronization to complete",
                "Check sync progress in your wallet",
                "Ensure stable internet connection",
            ),
            RpcError::InsufficientFunds(_) => three_steps(
                "Check your available balance",
                "Wait for pending transactions to confirm",
                "Consider reducing transaction amount or fees",
            ),
            RpcError::InvalidAddress(_) => three_steps(
                "Double-check the address format",
                "Copy address from a reliable source",
                "Verify you're using the correct chain address",
            ),
            _ => three_steps(
                "Check your internet connection",
                "Verify daemon is running properly",
                "Try the operation again in a few moments",
            ),
        }
    }

    /// Whether this error can clear up by itself or by a user's action.
    pub fn is_recoverable(&self) -> (r: bool)
        ensures
            r == is_recoverable_kind(self@),
    {
        match self {
            RpcError::Network(_) | RpcError::DaemonOffline | RpcError::ChainSyncing
            | RpcError::RateLimitExceeded | RpcError::WalletLocked => true,
            _ => false,
        }
    }

    /// Whether this error suggests trying the same call again.
    pub fn should_retry(&self) -> (r: bool)
        ensures
            r == should_retry_kind(self@),
    {
        match self {
            RpcError::Network(_) | RpcError::DaemonOffline | RpcError::ChainSyncing
            | RpcError::RateLimitExceeded => true,
            _ => false,
        }
    }
}

/// A code outside the table becomes a failed call whose text keeps the code and the daemon's
/// message as they were.
pub proof fn lemma_unmapped_code_kept(code: int, message: Seq<char>)
    requires
        !is_mapped_code(code),
    ensures
        daemon_error_view(code, message) == RpcErrorView::RpcCall(
            "Code "@ + signed_decimal(code) + ": "@ + message,
        ),
{
}

} // verus!

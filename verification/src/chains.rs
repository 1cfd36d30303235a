//! The chain-neutral balance model and the polymorphic chain contract.
//!
//! A chain adapter exposes naming, syntactic address validation, the
//! request/response halves of a balance query, and transfer submission. The
//! network call itself happens outside the adapter: `balance_request` builds
//! everything the transport needs, and `balance_response` interprets what the
//! transport brought back, so a query is valid exactly when both halves are.

use vstd::prelude::*;

use crate::errors::WalletError;

verus! {

/// Balance of one fungible or non-fungible token beside the native coin.
#[derive(Debug, Clone)]
pub struct TokenBalance {
    /// Display symbol; a long unit identifier is shown truncated.
    pub symbol: String,
    /// Amount in base units, kept verbatim.
    pub amount: String,
    /// Issuing-authority identifier, when the unit carries one.
    pub policy_id: Option<String>,
}

pub struct TokenBalanceView {
    pub symbol: Seq<char>,
    pub amount: Seq<char>,
    pub policy_id: Option<Seq<char>>,
}

impl View for TokenBalance {
    type V = TokenBalanceView;

    open spec fn view(&self) -> TokenBalanceView {
        TokenBalanceView {
            symbol: self.symbol@,
            amount: self.amount@,
            policy_id: match self.policy_id {
                Some(p) => Some(p@),
                None => None,
            },
        }
    }
}

/// Wallet balance for one chain: the native coin in human units plus tokens.
#[derive(Debug, Clone)]
pub struct Balance {
    /// Native coin symbol.
    pub symbol: String,
    /// Native amount in human units, fixed precision.
    pub amount: String,
    /// Other tokens held by the address.
    pub tokens: Vec<TokenBalance>,
}

pub struct BalanceView {
    pub symbol: Seq<char>,
    pub amount: Seq<char>,
    pub tokens: Seq<TokenBalanceView>,
}

/// The views of a sequence of token balances, in order.
pub open spec fn token_views(s: Seq<TokenBalance>) -> Seq<TokenBalanceView> {
    s.map_values(|t: TokenBalance| t@)
}

impl View for Balance {
    type V = BalanceView;

    open spec fn view(&self) -> BalanceView {
        BalanceView {
            symbol: self.symbol@,
            amount: self.amount@,
            tokens: token_views(self.tokens@),
        }
    }
}

/// Outcome of a transfer submission.
#[derive(Debug, Clone)]
pub struct TransactionResult {
    pub tx_hash: String,
    pub status: TransactionStatus,
}

#[derive(Debug, Clone)]
pub enum TransactionStatus {
    Pending,
    Confirmed,
    Failed(String),
}

pub enum TransactionStatusView {
    Pending,
    Confirmed,
    Failed(Seq<char>),
}

impl View for TransactionStatus {
    type V = TransactionStatusView;

    open spec fn view(&self) -> TransactionStatusView {
        match self {
            TransactionStatus::Pending => TransactionStatusView::Pending,
            TransactionStatus::Confirmed => TransactionStatusView::Confirmed,
            TransactionStatus::Failed(reason) => TransactionStatusView::Failed(reason@),
        }
    }
}

pub struct TransactionResultView {
    pub tx_hash: Seq<char>,
    pub status: TransactionStatusView,
}

impl View for TransactionResult {
    type V = TransactionResultView;

    open spec fn view(&self) -> TransactionResultView {
        TransactionResultView { tx_hash: self.tx_hash@, status: self.status@ }
    }
}

/// Everything the transport needs to issue one balance query: the full URL and
/// the credential for the `project_id` header. A value of this type exists
/// only for a syntactically valid address and a configured credential.
pub struct IndexerRequest {
    pub url: String,
    pub project_id: String,
}

/// Uniform chain contract. Each adapter fixes what its operations mean through
/// the associated spec functions, and the executable methods are bound to them.
pub trait Chain {
    /// The chain's display name.
    spec fn spec_name(&self) -> Seq<char>;

    /// The native coin's symbol.
    spec fn spec_symbol(&self) -> Seq<char>;

    /// The chain's syntactic address check.
    spec fn spec_valid_address(&self, addr: Seq<char>) -> bool;

    /// What `balance_request` returns for a given address.
    spec fn balance_request_post(
        &self,
        addr: Seq<char>,
        r: Result<IndexerRequest, WalletError>,
    ) -> bool;

    /// What `balance_response` returns for a given transport outcome.
    spec fn balance_response_post(
        &self,
        status: u16,
        body: Seq<char>,
        r: Result<Balance, WalletError>,
    ) -> bool;

    /// What `send` returns for a given transfer.
    spec fn send_post(
        &self,
        to: Seq<char>,
        amount: Seq<char>,
        r: Result<TransactionResult, WalletError>,
    ) -> bool;

    fn name(&self) -> (r: String)
        ensures
            r@ == self.spec_name(),
    ;

    fn symbol(&self) -> (r: String)
        ensures
            r@ == self.spec_symbol(),
    ;

    fn validate_address(&self, address: &str) -> (r: bool)
        ensures
            r == self.spec_valid_address(address@),
    ;

    /// Builds the balance query for `address`. An invalid address is rejected
    /// here, before any request value exists, on every chain.
    fn balance_request(&self, address: &str) -> (r: Result<IndexerRequest, WalletError>)
        ensures
            self.balance_request_post(address@, r),
            !self.spec_valid_address(address@) ==> r matches Err(WalletError::InvalidAddress),
    ;

    /// Interprets the transport's outcome for a balance query.
    fn balance_response(&self, status: u16, body: &str) -> (r: Result<Balance, WalletError>)
        ensures
            self.balance_response_post(status, body@, r),
    ;

    /// Submits a transfer, or reports that the chain's transfer pipeline is
    /// not finished as a terminal `Failed` status rather than a success.
    fn send(&self, to: &str, amount: &str, private_key: &[u8]) -> (r: Result<
        TransactionResult,
        WalletError,
    >)
        ensures
            self.send_post(to@, amount@, r),
    ;
}

} // verus!

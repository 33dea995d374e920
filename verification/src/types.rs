//! The canonical domain model shared by every backend.

use vstd::prelude::*;
use vstd::std_specs::convert::FromSpecImpl;
use crate::codec::opt_text;
use crate::text::text_eq;

verus! {

/// Everything any backend may need to reach a node. Each backend reads the
/// fields it requires and ignores the others.
#[derive(Debug, Clone)]
pub struct NodeConfig {
    pub url: Option<String>,
    pub macaroon: Option<String>,
    pub tls_certificate: Option<String>,
    pub tls_client_key: Option<String>,
    pub tls_client_certificate: Option<String>,
    pub username: Option<String>,
    pub password: Option<String>,
}

/// The node implementations that can be selected.
#[derive(Debug, Clone, Copy, PartialEq, Eq, Structural)]
pub enum Backend {
    LndRest,
    LndGrpc,
    ClnGrpc,
    EclairRest,
    InvalidBackend,
}

/// The chain a node runs on.
#[derive(Debug, Clone)]
pub enum Network {
    Mainnet,
    Testnet,
    Regtest,
    Unknown(String),
}

/// The mathematical value of a [`Network`].
pub enum NetworkView {
    Mainnet,
    Testnet,
    Regtest,
    Unknown(Seq<char>),
}

impl View for Network {
    type V = NetworkView;

    open spec fn view(&self) -> NetworkView {
        match self {
            Network::Mainnet => NetworkView::Mainnet,
            Network::Testnet => NetworkView::Testnet,
            Network::Regtest => NetworkView::Regtest,
            Network::Unknown(name) => NetworkView::Unknown(name@),
        }
    }
}

/// The network that a node's own name for its chain stands for. `mainnet_name`
/// is the word the backend uses for the main chain.
pub open spec fn network_named(name: Seq<char>, mainnet_name: Seq<char>) -> NetworkView {
    if name == mainnet_name {
        NetworkView::Mainnet
    } else if name == "testnet"@ {
        NetworkView::Testnet
    } else if name == "regtest"@ {
        NetworkView::Regtest
    } else {
        NetworkView::Unknown(name)
    }
}

impl Network {
    /// Maps the name a node gives its chain to the canonical network. A name
    /// that is none of `mainnet_name`, "testnet" and "regtest" is kept as it is.
    pub fn from_name(name: &String, mainnet_name: &str) -> (network: Network)
        ensures
            network@ == network_named(name@, mainnet_name@),
    {
        if text_eq(name.as_str(), mainnet_name) {
            Network::Mainnet
        } else if text_eq(name.as_str(), "testnet") {
            Network::Testnet
        } else if text_eq(name.as_str(), "regtest") {
            Network::Regtest
        } else {
            Network::Unknown(name.clone())
        }
    }
}

impl Backend {
    /// The name of the backend, as it is written in a selection.
    pub open spec fn name(self) -> Seq<char> {
        match self {
            Backend::LndRest => "LndRest"@,
            Backend::LndGrpc => "LndGrpc"@,
            Backend::ClnGrpc => "ClnGrpc"@,
            Backend::EclairRest => "EclairRest"@,
            Backend::InvalidBackend => "InvalidBackend"@,
        }
    }

    /// The backend that a selection names; `InvalidBackend` for any other text.
    pub open spec fn named(text: Seq<char>) -> Backend {
        if text == "LndRest"@ {
            Backend::LndRest
        } else if text == "LndGrpc"@ {
            Backend::LndGrpc
        } else if text == "ClnGrpc"@ {
            Backend::ClnGrpc
        } else if text == "EclairRest"@ {
            Backend::EclairRest
        } else {
            Backend::InvalidBackend
        }
    }

    /// The backend's name as text.
    pub fn to_string(&self) -> (text: String)
        ensures
            text@ == self.name(),
    {
        match self {
            Backend::LndRest => "LndRest".to_owned(),
            Backend::LndGrpc => "LndGrpc".to_owned(),
            Backend::ClnGrpc => "ClnGrpc".to_owned(),
            Backend::EclairRest => "EclairRest".to_owned(),
            Backend::InvalidBackend => "InvalidBackend".to_owned(),
        }
    }
}

impl<'a> From<&'a str> for Backend {
    fn from(s: &'a str) -> (backend: Backend) {
        if text_eq(s, "LndRest") {
            Backend::LndRest
        } else if text_eq(s, "LndGrpc") {
            Backend::LndGrpc
        } else if text_eq(s, "ClnGrpc") {
            Backend::ClnGrpc
        } else if text_eq(s, "EclairRest") {
            Backend::EclairRest
        } else {
            Backend::InvalidBackend
        }
    }
}

impl<'a> FromSpecImpl<&'a str> for Backend {
    open spec fn obeys_from_spec() -> bool {
        true
    }

    open spec fn from_spec(s: &'a str) -> Backend {
        Backend::named(s@)
    }
}

/// What is asked of a node when an invoice is created.
#[derive(Debug, Clone)]
pub struct CreateInvoiceParams {
    pub amount: Option<u64>,
    pub amount_msat: Option<u64>,
    pub description: Option<String>,
    pub description_hash: Option<String>,
    pub label: Option<String>,
    pub expire_in: Option<u32>,
    pub fallback_address: Option<String>,
    pub payment_preimage: Option<String>,
    pub cltv_expiry: Option<u32>,
}

/// The amount, in millisatoshis, that an invoice is created for: the
/// millisatoshi amount where one is given, else the satoshi amount times a
/// thousand, else nothing, which asks for an invoice of any amount.
pub open spec fn invoice_amount_msat(amount: Option<u64>, amount_msat: Option<u64>) -> Option<int> {
    match (amount_msat, amount) {
        (Some(msat), _) => Some(msat as int),
        (None, Some(sat)) => Some(sat * 1000),
        (None, None) => None,
    }
}

impl CreateInvoiceParams {
    /// The amount the invoice is created for, in millisatoshis.
    pub open spec fn amount_msat_spec(&self) -> Option<int> {
        invoice_amount_msat(self.amount, self.amount_msat)
    }

    /// Whether the amount can be written in millisatoshis in 64 bits.
    pub open spec fn amount_fits(&self) -> bool {
        self.amount_msat_spec() matches Some(msat) ==> msat <= u64::MAX
    }

    /// The amount the invoice is created for, in millisatoshis. Where both
    /// amounts are given the millisatoshi amount is the one that counts.
    pub fn resolved_amount_msat(&self) -> (msat: Option<u64>)
        requires
            self.amount_fits(),
        ensures
            msat is Some <==> self.amount_msat_spec() is Some,
            msat matches Some(m) ==> self.amount_msat_spec() == Some(m as int),
    {
        match (self.amount_msat, self.amount) {
            (Some(msat), _) => Some(msat),
            (None, Some(sat)) => Some(sat * 1000),
            (None, None) => None,
        }
    }
}

/// What a node answers when it has created an invoice.
#[derive(Debug, Clone)]
pub struct CreateInvoiceResult {
    pub payment_request: String,
    pub payment_hash: String,
    pub label: Option<String>,
}

/// An invoice as a node knows it.
#[derive(Debug, Clone)]
pub struct Invoice {
    pub bolt11: String,
    pub memo: String,
    pub amount: u64,
    pub amount_msat: u64,
    pub pre_image: Option<String>,
    pub payment_hash: String,
    pub settled: bool,
    pub settle_date: Option<u64>,
    pub creation_date: u64,
    pub expiry: u64,
    pub status: InvoiceStatus,
}

/// Where an invoice stands.
#[derive(Debug, Clone, Copy, PartialEq, Eq, Structural)]
pub enum InvoiceStatus {
    Pending,
    Settled,
    Cancelled,
    Accepted,
}

/// How many channels a node has in each state.
#[derive(Debug, Clone, Copy, PartialEq, Eq, Structural)]
pub struct ChannelStats {
    pub active: i64,
    pub inactive: i64,
    pub pending: i64,
}

/// What a node tells about itself.
#[derive(Debug, Clone)]
pub struct NodeInfo {
    pub backend: Backend,
    pub version: String,
    pub network: Network,
    pub node_pubkey: String,
    pub channels: ChannelStats,
}

/// A percentage, carried as the bit pattern of a double-precision number.
/// The library hands it on and, where a backend wants whole percents, cuts
/// off the fraction; it does no other arithmetic on it.
#[derive(Debug, Clone, Copy, PartialEq, Eq, Structural)]
pub struct Percent {
    pub bits: u64,
}

/// What is asked of a node when an invoice is paid.
#[derive(Debug, Clone)]
pub struct PayInvoiceParams {
    pub payment_request: String,
    pub amount: Option<u64>,
    pub amount_msat: Option<u64>,
    pub max_fee_sat: Option<u64>,
    pub max_fee_msat: Option<u64>,
    pub max_fee_percent: Option<Percent>,
}

/// What a node answers when it has paid an invoice.
#[derive(Debug, Clone)]
pub struct PayInvoiceResult {
    pub payment_hash: String,
    pub payment_preimage: String,
    pub fees_msat: Option<u64>,
}

/// Whether an invoice asks for a feature, allows it, or says nothing.
#[derive(Debug, Clone, Copy, PartialEq, Eq, Structural)]
pub enum FeatureActivationStatus {
    Mandatory,
    Optional,
    Unknown,
}

/// The features this library reports of an invoice.
#[derive(Debug, Clone, Copy, PartialEq, Eq, Structural)]
pub struct InvoiceFeatures {
    pub payment_secret: FeatureActivationStatus,
    pub basic_mpp: FeatureActivationStatus,
    pub option_payment_metadata: FeatureActivationStatus,
    pub var_onion_optin: FeatureActivationStatus,
}

/// One private channel that a payer may route through.
#[derive(Debug, Clone)]
pub struct HopHint {
    pub node_id: String,
    pub chan_id: String,
    pub fee_base_msat: u32,
    pub fee_proportional_millionths: u32,
    pub cltv_expiry_delta: u32,
}

/// The mathematical value of a [`HopHint`].
pub struct HopHintView {
    pub node_id: Seq<char>,
    pub chan_id: Seq<char>,
    pub fee_base_msat: u32,
    pub fee_proportional_millionths: u32,
    pub cltv_expiry_delta: u32,
}

impl View for HopHint {
    type V = HopHintView;

    open spec fn view(&self) -> HopHintView {
        HopHintView {
            node_id: self.node_id@,
            chan_id: self.chan_id@,
            fee_base_msat: self.fee_base_msat,
            fee_proportional_millionths: self.fee_proportional_millionths,
            cltv_expiry_delta: self.cltv_expiry_delta,
        }
    }
}

/// A path of private channels towards the payee.
#[derive(Debug, Clone)]
pub struct RoutingHint {
    pub hop_hints: Vec<HopHint>,
}

impl View for RoutingHint {
    type V = Seq<HopHintView>;

    open spec fn view(&self) -> Seq<HopHintView> {
        Seq::new(self.hop_hints@.len(), |i: int| self.hop_hints@[i]@)
    }
}

/// The views of a list of routing hints, in order.
pub open spec fn routing_hints_view(hints: Seq<RoutingHint>) -> Seq<Seq<HopHintView>> {
    Seq::new(hints.len(), |i: int| hints[i]@)
}

/// What an invoice says, read out of its text.
#[derive(Debug, Clone)]
pub struct DecodeInvoiceResult {
    pub creation_date: i64,
    pub amount: Option<u64>,
    pub amount_msat: Option<u64>,
    pub destination: Option<String>,
    pub memo: Option<String>,
    pub payment_hash: String,
    pub expiry: i32,
    pub min_final_cltv_expiry: u32,
    pub features: Option<InvoiceFeatures>,
    pub route_hints: Vec<RoutingHint>,
}

/// The mathematical value of a [`DecodeInvoiceResult`].
pub struct DecodeInvoiceResultView {
    pub creation_date: i64,
    pub amount: Option<u64>,
    pub amount_msat: Option<u64>,
    pub destination: Option<Seq<char>>,
    pub memo: Option<Seq<char>>,
    pub payment_hash: Seq<char>,
    pub expiry: i32,
    pub min_final_cltv_expiry: u32,
    pub features: Option<InvoiceFeatures>,
    pub route_hints: Seq<Seq<HopHintView>>,
}

impl View for DecodeInvoiceResult {
    type V = DecodeInvoiceResultView;

    open spec fn view(&self) -> DecodeInvoiceResultView {
        DecodeInvoiceResultView {
            creation_date: self.creation_date,
            amount: self.amount,
            amount_msat: self.amount_msat,
            destination: opt_text(self.destination),
            memo: opt_text(self.memo),
            payment_hash: self.payment_hash@,
            expiry: self.expiry,
            min_final_cltv_expiry: self.min_final_cltv_expiry,
            features: self.features,
            route_hints: routing_hints_view(self.route_hints@),
        }
    }
}

} // verus!

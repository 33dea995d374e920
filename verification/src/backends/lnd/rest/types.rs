//! LND's requests and answers, and how they map from and to the canonical
//! model.

use std::collections::HashMap;
use vstd::prelude::*;
use crate::codec::{opt_text, text_trimmed};
use crate::error::{outcome_view, Error, ErrorView};
use crate::tools::{base64_in_hex, convert_base64_to_hex, parse_number, Number, NOT_BASE64};
use crate::text::{
    decimal_digits, decimal_signed, decimal_text, decimal_unsigned, parse_i32, parse_i64,
    parse_u32, parse_u64, text_eq,
};
use crate::types::{
    network_named, routing_hints_view, Backend, ChannelStats, CreateInvoiceParams,
    CreateInvoiceResult, DecodeInvoiceResult, DecodeInvoiceResultView, FeatureActivationStatus,
    HopHint, HopHintView, Invoice, InvoiceFeatures, InvoiceStatus, Network, NetworkView, NodeInfo,
    PayInvoiceParams, PayInvoiceResult, Percent, RoutingHint,
};
use crate::utils::{b64_to_hex, base64_as_hex, get_amount_msat, wrapped_i32};

verus! {

broadcast use vstd::std_specs::hash::group_hash_axioms;

/// Text that holds bytes in base64.
pub type Base64String = String;

/// The body of an answer that reports a server error.
#[derive(Debug, Clone)]
pub struct ApiError {
    pub code: i32,
    pub message: String,
    pub details: Vec<String>,
}

/// Asks a node for an invoice.
#[derive(Debug, Clone)]
pub struct CreateInvoiceRequest {
    pub memo: Option<String>,
    pub r_preimage: Option<String>,
    pub value_msat: u64,
    pub description_hash: Option<String>,
    pub expiry: i64,
    pub fallback_addr: Option<String>,
    pub cltv_expiry: Option<i32>,
}

/// The invoice a node made.
#[derive(Debug, Clone)]
pub struct CreateInvoiceResponse {
    pub r_hash: Base64String,
    pub payment_request: String,
    pub add_index: String,
    pub payment_addr: Base64String,
}

/// What a node tells about itself.
#[derive(Debug, Clone)]
pub struct GetInfoResponse {
    pub version: String,
    pub commit_hash: String,
    pub identity_pubkey: String,
    pub alias: String,
    pub color: String,
    pub num_pending_channels: i64,
    pub num_active_channels: i64,
    pub num_inactive_channels: i64,
    pub num_peers: i64,
    pub block_height: i64,
    pub block_hash: String,
    pub best_header_timestamp: String,
    pub synced_to_chain: bool,
    pub synced_to_graph: bool,
    pub testnet: bool,
    pub chains: Vec<Chain>,
    pub uris: Vec<String>,
    pub features: HashMap<String, Feature>,
    pub require_htlc_interceptor: Option<bool>,
}

/// A chain a node is on.
#[derive(Debug, Clone)]
pub struct Chain {
    pub chain: String,
    pub network: String,
}

/// A feature of a node.
#[derive(Debug, Clone)]
pub struct Feature {
    pub name: String,
    pub is_required: bool,
    pub is_known: bool,
}

/// The most a payment may cost in fees.
#[derive(Debug, Clone)]
pub struct FeeLimit {
    pub fixed: Option<String>,
    pub fixed_msat: Option<String>,
    pub percent: Option<Percent>,
}

/// Asks a node to pay an invoice and to wait for the outcome.
#[derive(Debug, Clone)]
pub struct SendPaymentSyncRequest {
    pub dest: Option<Base64String>,
    pub amt: Option<String>,
    pub amt_msat: Option<String>,
    pub payment_hash: Option<Base64String>,
    pub payment_request: String,
    pub final_cltv_delta: Option<i32>,
    pub fee_limit: Option<FeeLimit>,
    pub outgoing_chan_id: Option<String>,
    pub last_hop_pubkey: Option<Base64String>,
    pub cltv_limit: Option<i64>,
    pub allow_self_payment: Option<bool>,
    pub dest_features: Option<Vec<u8>>,
    pub payment_addr: Option<Base64String>,
}

/// One hop of the route a payment took.
#[derive(Debug, Clone)]
pub struct Hop {
    pub chan_id: String,
    pub chan_capacity: String,
    pub amt_to_forward: String,
    pub fee: String,
    pub expiry: i64,
    pub amt_to_forward_msat: String,
    pub fee_msat: String,
    pub pub_key: Option<String>,
    pub tlv_payload: bool,
    pub mpp_record: Option<MppRecord>,
    pub amp_record: Option<AmpRecord>,
    pub custom_records: HashMap<String, String>,
    pub metadata: Base64String,
}

/// The multi-path record of a hop.
#[derive(Debug, Clone)]
pub struct MppRecord {
    pub payment_addr: Base64String,
    pub total_amt_msat: String,
}

/// The atomic multi-path record of a hop.
#[derive(Debug, Clone)]
pub struct AmpRecord {
    pub root_share: Base64String,
    pub set_id: Base64String,
    pub child_index: i64,
}

/// The route a payment took.
#[derive(Debug, Clone)]
pub struct Route {
    pub total_time_lock: i64,
    pub total_amt: String,
    pub total_amt_msat: String,
    pub total_fees: String,
    pub total_fees_msat: String,
    pub hops: Vec<Hop>,
}

/// What a node answers to a payment.
#[derive(Debug, Clone)]
pub struct SendPaymentSyncResponse {
    pub payment_error: String,
    pub payment_preimage: Base64String,
    pub payment_route: Option<Route>,
    pub payment_hash: Base64String,
}

/// What a node read out of an invoice.
#[derive(Debug, Clone)]
pub struct DecodeInvoiceResponse {
    pub destination: String,
    pub payment_hash: String,
    pub num_satoshis: String,
    pub timestamp: String,
    pub expiry: String,
    pub description: String,
    pub description_hash: String,
    pub fallback_addr: String,
    pub cltv_expiry: String,
    pub payment_addr: String,
    pub num_msat: String,
    pub features: HashMap<u16, DecodeInvoiceFeature>,
    pub route_hints: Vec<DecodeInvoiceRoutingHint>,
}

/// A feature of an invoice.
#[derive(Debug, Clone)]
pub struct DecodeInvoiceFeature {
    pub name: String,
    pub is_required: bool,
    pub is_known: bool,
}

/// One route hint of an invoice.
#[derive(Debug, Clone)]
pub struct DecodeInvoiceRoutingHint {
    pub hop_hints: Vec<DecodeInvoiceHopHint>,
}

/// One hop of a route hint.
#[derive(Debug, Clone)]
pub struct DecodeInvoiceHopHint {
    pub node_id: String,
    pub chan_id: u64,
    pub fee_base_msat: u32,
    pub fee_proportional_millionths: u32,
    pub cltv_expiry_delta: u32,
}

/// The word LND has for the main chain.
pub const MAINNET_NAME: &'static str = "mainnet";

/// The network reported for a node that names no chain.
pub const NO_NETWORK: &'static str = "Unknown";

/// How long an invoice stays valid, in seconds, where nothing else is asked.
pub const DEFAULT_EXPIRY: u32 = 3600;

/// The feature bit of the payment secret.
pub const PAYMENT_SECRET_BIT: u16 = 14;

/// The feature bit of basic multi-path payments.
pub const BASIC_MPP_BIT: u16 = 17;

/// The feature bit of the variable-length onion.
pub const VAR_ONION_BIT: u16 = 9;

impl CreateInvoiceRequest {
    /// How long the invoice that `params` describe stays valid.
    pub open spec fn expiry_of(params: CreateInvoiceParams) -> u32 {
        match params.expire_in {
            Some(seconds) => seconds,
            None => DEFAULT_EXPIRY,
        }
    }

    /// Whether `self` asks for the invoice that `params` describe.
    pub open spec fn asks_for(&self, params: CreateInvoiceParams) -> bool {
        &&& self.value_msat == (match params.amount_msat_spec() {
            Some(msat) => msat,
            None => 0,
        })
        &&& self.expiry == CreateInvoiceRequest::expiry_of(params)
        &&& self.cltv_expiry == (match params.cltv_expiry {
            Some(delta) => Some(wrapped_i32(delta as int)),
            None => None,
        })
        &&& self.memo == params.description
        &&& self.r_preimage == params.payment_preimage
        &&& self.description_hash == params.description_hash
        &&& self.fallback_addr == params.fallback_address
    }

    /// The request for the invoice that `params` describe. Without an
    /// amount the request is for zero; without an expiry, for an hour.
    pub fn from(params: CreateInvoiceParams) -> (request: CreateInvoiceRequest)
        requires
            params.amount_fits(),
        ensures
            request.asks_for(params),
    {
        let value_msat = match params.resolved_amount_msat() {
            Some(msat) => msat,
            None => 0,
        };
        let expiry = match params.expire_in {
            Some(seconds) => seconds,
            None => DEFAULT_EXPIRY,
        };
        let cltv_expiry = match params.cltv_expiry {
            Some(delta) => Some(crate::utils::wrap_i32(delta as u128)),
            None => None,
        };
        CreateInvoiceRequest {
            memo: params.description,
            r_preimage: params.payment_preimage,
            value_msat,
            description_hash: params.description_hash,
            expiry: expiry as i64,
            fallback_addr: params.fallback_address,
            cltv_expiry,
        }
    }
}

impl CreateInvoiceResponse {
    /// The canonical result, with the payment hash in hexadecimal. An
    /// answer whose hash is not base64 is a conversion error.
    pub fn try_into(self) -> (result: Result<CreateInvoiceResult, Error>)
        ensures
            match base64_as_hex(self.r_hash@) {
                Some(hash) => result matches Ok(r) && r.payment_request == self.payment_request
                    && r.payment_hash@ == hash && r.label is None,
                None => result matches Err(e) && e@ == ErrorView::ConversionError(
                    "couldn't convert base64 to hex"@,
                ),
            },
    {
        let payment_hash = match b64_to_hex(self.r_hash.as_str()) {
            Ok(hash) => hash,
            Err(e) => {
                return Err(e);
            },
        };
        Ok(CreateInvoiceResult { payment_request: self.payment_request, payment_hash, label: None })
    }
}

/// The network of a node, from the chains it names: that of the first
/// chain, or [`NO_NETWORK`] kept as an unknown name where there is none.
pub open spec fn network_of(chains: Seq<Chain>) -> NetworkView {
    if chains.len() > 0 {
        network_named(chains[0].network@, MAINNET_NAME@)
    } else {
        NetworkView::Unknown(NO_NETWORK@)
    }
}

impl GetInfoResponse {
    /// The canonical node information.
    pub fn into(self) -> (info: NodeInfo)
        ensures
            info.backend == Backend::LndRest,
            info.version == self.version,
            info.network@ == network_of(self.chains@),
            info.node_pubkey == self.identity_pubkey,
            info.channels == (ChannelStats {
                active: self.num_active_channels,
                inactive: self.num_inactive_channels,
                pending: self.num_pending_channels,
            }),
    {
        let network = if self.chains.len() > 0 {
            Network::from_name(&self.chains[0].network, MAINNET_NAME)
        } else {
            Network::Unknown(NO_NETWORK.to_owned())
        };
        NodeInfo {
            backend: Backend::LndRest,
            version: self.version,
            network,
            node_pubkey: self.identity_pubkey,
            channels: ChannelStats {
                active: self.num_active_channels,
                inactive: self.num_inactive_channels,
                pending: self.num_pending_channels,
            },
        }
    }
}

/// An amount in millisatoshis, from what was given in either unit.
pub open spec fn amount_msat_of(sat: Option<u64>, msat: Option<u64>) -> Option<u64> {
    match (sat, msat) {
        (Some(sat), _) => Some((sat * 1000) as u64),
        (None, msat) => msat,
    }
}

/// An amount written in decimal, where there is one.
pub open spec fn amount_text(amount: Option<u64>) -> Option<Seq<char>> {
    match amount {
        Some(n) => Some(decimal_digits(n as nat)),
        None => None,
    }
}

/// An amount written in decimal, where there is one.
fn amount_to_text(amount: Option<u64>) -> (text: Option<String>)
    ensures
        opt_text(text) == amount_text(amount),
{
    match amount {
        Some(n) => Some(decimal_text(n)),
        None => None,
    }
}

impl SendPaymentSyncRequest {
    /// Whether the amount and the flat fee ceiling can be written in
    /// millisatoshis.
    pub open spec fn amounts_fit(params: PayInvoiceParams) -> bool {
        &&& params.amount matches Some(sat) ==> sat * 1000 <= u64::MAX
        &&& params.max_fee_sat matches Some(sat) ==> sat * 1000 <= u64::MAX
    }

    /// Whether `self` asks to pay as `params` say.
    pub open spec fn pays_as(&self, params: PayInvoiceParams) -> bool {
        &&& self.payment_request == params.payment_request
        &&& opt_text(self.amt_msat) == amount_text(
            amount_msat_of(params.amount, params.amount_msat),
        )
        &&& self.fee_limit matches Some(limit) && limit.fixed is None && opt_text(
            limit.fixed_msat,
        ) == amount_text(amount_msat_of(params.max_fee_sat, params.max_fee_msat))
            && limit.percent == params.max_fee_percent
        &&& self.allow_self_payment == Some(false)
        &&& self.dest is None
        &&& self.amt is None
        &&& self.payment_hash is None
        &&& self.final_cltv_delta is None
        &&& self.outgoing_chan_id is None
        &&& self.last_hop_pubkey is None
        &&& self.cltv_limit is None
        &&& self.dest_features is None
        &&& self.payment_addr is None
    }

    /// The request to pay as `params` say. The amount and the flat fee
    /// ceiling are the satoshi value in millisatoshis where there is one,
    /// else the millisatoshi value, written in decimal; the percentage is
    /// handed on beside the flat ceiling. Paying oneself is not allowed.
    pub fn from(params: PayInvoiceParams) -> (request: SendPaymentSyncRequest)
        requires
            SendPaymentSyncRequest::amounts_fit(params),
        ensures
            request.pays_as(params),
    {
        let amount_msat = get_amount_msat(params.amount, params.amount_msat);
        let max_fee_msat = get_amount_msat(params.max_fee_sat, params.max_fee_msat);
        SendPaymentSyncRequest {
            dest: None,
            amt: None,
            amt_msat: amount_to_text(amount_msat),
            payment_hash: None,
            payment_request: params.payment_request,
            final_cltv_delta: None,
            fee_limit: Some(
                FeeLimit {
                    fixed: None,
                    fixed_msat: amount_to_text(max_fee_msat),
                    percent: params.max_fee_percent,
                },
            ),
            outgoing_chan_id: None,
            last_hop_pubkey: None,
            cltv_limit: None,
            allow_self_payment: Some(false),
            dest_features: None,
            payment_addr: None,
        }
    }
}

/// The canonical result of a payment, or the error it comes to: the node's
/// own error where it names one; a conversion error where hash or preimage
/// is not base64; an error where the route is missing; a conversion error
/// where the fees of the route are no number.
pub open spec fn payment_outcome(response: SendPaymentSyncResponse) -> Result<
    (Seq<char>, Seq<char>, Option<u64>),
    ErrorView,
> {
    if response.payment_error@.len() > 0 {
        Err(ErrorView::ApiError(response.payment_error@))
    } else if base64_as_hex(response.payment_hash@) is None || base64_as_hex(response.payment_preimage@) is None {
        Err(ErrorView::ConversionError("couldn't convert base64 to hex"@))
    } else if response.payment_route is None {
        Err(ErrorView::ApiError("invoice paid but missing route"@))
    } else {
        match decimal_unsigned(response.payment_route->0.total_fees_msat@, u64::MAX as int) {
            Some(fees) => Ok(
                (
                    base64_as_hex(response.payment_hash@)->0,
                    base64_as_hex(response.payment_preimage@)->0,
                    Some(fees as u64),
                ),
            ),
            None => Err(ErrorView::ConversionError("couldn't convert string to integer"@)),
        }
    }
}

/// The hash, the preimage and the fees of a payment result.
pub open spec fn payment_view(result: Result<PayInvoiceResult, Error>) -> Result<
    (Seq<char>, Seq<char>, Option<u64>),
    ErrorView,
> {
    match result {
        Ok(r) => Ok((r.payment_hash@, r.payment_preimage@, r.fees_msat)),
        Err(e) => Err(e@),
    }
}

impl SendPaymentSyncResponse {
    /// The canonical result of a payment.
    pub fn try_into(self) -> (result: Result<PayInvoiceResult, Error>)
        ensures
            payment_view(result) == payment_outcome(self),
    {
        if !self.payment_error.as_str().is_empty() {
            return Err(Error::ApiError(self.payment_error));
        }
        let payment_hash = match b64_to_hex(self.payment_hash.as_str()) {
            Ok(hash) => hash,
            Err(e) => {
                return Err(e);
            },
        };
        let payment_preimage = match b64_to_hex(self.payment_preimage.as_str()) {
            Ok(preimage) => preimage,
            Err(e) => {
                return Err(e);
            },
        };
        let route = match self.payment_route {
            Some(route) => route,
            None => {
                return Err(Error::ApiError("invoice paid but missing route".to_owned()));
            },
        };
        let fees_msat = match parse_u64(route.total_fees_msat.as_str()) {
            Some(fees) => fees,
            None => {
                return Err(Error::from_parse_int_failure());
            },
        };
        Ok(PayInvoiceResult { payment_hash, payment_preimage, fees_msat: Some(fees_msat) })
    }
}

/// How strongly an invoice asks for a feature: a feature the node knows is
/// mandatory where it is required and optional where it is not; anything
/// else is unknown.
pub open spec fn feature_status(feature: Option<DecodeInvoiceFeature>) -> FeatureActivationStatus {
    match feature {
        Some(f) => if f.is_known && f.is_required {
            FeatureActivationStatus::Mandatory
        } else if f.is_known {
            FeatureActivationStatus::Optional
        } else {
            FeatureActivationStatus::Unknown
        },
        None => FeatureActivationStatus::Unknown,
    }
}

/// The feature that stands under `bit`, where there is one.
pub open spec fn feature_at(features: Map<u16, DecodeInvoiceFeature>, bit: u16) -> Option<
    DecodeInvoiceFeature,
> {
    if features.contains_key(bit) {
        Some(features[bit])
    } else {
        None
    }
}

/// How strongly an invoice asks for a feature.
pub fn extract_feature_status(feature: Option<&DecodeInvoiceFeature>) -> (status:
    FeatureActivationStatus)
    ensures
        status == feature_status(
            match feature {
                Some(f) => Some(*f),
                None => None,
            },
        ),
{
    match feature {
        None => FeatureActivationStatus::Unknown,
        Some(f) => {
            if f.is_known && f.is_required {
                FeatureActivationStatus::Mandatory
            } else if f.is_known {
                FeatureActivationStatus::Optional
            } else {
                FeatureActivationStatus::Unknown
            }
        },
    }
}

/// The canonical hop for a hop that LND reports.
pub open spec fn hop_hint_of(hop: DecodeInvoiceHopHint) -> HopHintView {
    HopHintView {
        node_id: hop.node_id@,
        chan_id: decimal_digits(hop.chan_id as nat),
        fee_base_msat: hop.fee_base_msat,
        fee_proportional_millionths: hop.fee_proportional_millionths,
        cltv_expiry_delta: hop.cltv_expiry_delta,
    }
}

/// The canonical route hints for the route hints that LND reports.
pub open spec fn hints_of(hints: Seq<DecodeInvoiceRoutingHint>) -> Seq<Seq<HopHintView>> {
    Seq::new(
        hints.len(),
        |i: int| Seq::new(hints[i].hop_hints@.len(), |j: int| hop_hint_of(hints[i].hop_hints@[j])),
    )
}

/// The numbers that an answer writes as text, where all of them are
/// numbers: when the invoice was made, its amount in satoshis and in
/// millisatoshis, how long it stays valid, and its minimum final CLTV
/// expiry.
pub open spec fn numbers_of(response: DecodeInvoiceResponse) -> Option<(int, int, int, int, int)> {
    match (
        decimal_signed(response.timestamp@, i64::MIN as int, i64::MAX as int),
        decimal_unsigned(response.num_satoshis@, u64::MAX as int),
        decimal_unsigned(response.num_msat@, u64::MAX as int),
        decimal_signed(response.expiry@, i32::MIN as int, i32::MAX as int),
        decimal_unsigned(response.cltv_expiry@, u32::MAX as int),
    ) {
        (Some(made), Some(sat), Some(msat), Some(expiry), Some(cltv)) => Some(
            (made, sat, msat, expiry, cltv),
        ),
        _ => None,
    }
}

/// What an answer of LND decodes to. An answer with a number that does not
/// read as one is a conversion error.
pub open spec fn decoded(response: DecodeInvoiceResponse) -> Result<
    DecodeInvoiceResultView,
    ErrorView,
> {
    match numbers_of(response) {
        Some((made, sat, msat, expiry, cltv)) => Ok(
            DecodeInvoiceResultView {
                creation_date: made as i64,
                amount: Some(sat as u64),
                amount_msat: Some(msat as u64),
                destination: Some(response.destination@),
                memo: Some(response.description@),
                payment_hash: response.payment_hash@,
                expiry: expiry as i32,
                min_final_cltv_expiry: cltv as u32,
                features: Some(
                    InvoiceFeatures {
                        payment_secret: feature_status(
                            feature_at(response.features@, PAYMENT_SECRET_BIT),
                        ),
                        basic_mpp: feature_status(feature_at(response.features@, BASIC_MPP_BIT)),
                        option_payment_metadata: FeatureActivationStatus::Unknown,
                        var_onion_optin: feature_status(
                            feature_at(response.features@, VAR_ONION_BIT),
                        ),
                    },
                ),
                route_hints: hints_of(response.route_hints@),
            },
        ),
        None => Err(ErrorView::ConversionError("couldn't convert string to integer"@)),
    }
}

/// The canonical route hints for the route hints that LND reports.
fn routing_hints(hints: &Vec<DecodeInvoiceRoutingHint>) -> (out: Vec<RoutingHint>)
    ensures
        routing_hints_view(out@) == hints_of(hints@),
{
    let mut out: Vec<RoutingHint> = Vec::new();
    let mut i: usize = 0;
    while i < hints.len()
        invariant
            i <= hints@.len(),
            out@.len() == i,
            forall|k: int|
                0 <= k < i ==> (#[trigger] out@[k])@ == Seq::new(
                    hints@[k].hop_hints@.len(),
                    |j: int| hop_hint_of(hints@[k].hop_hints@[j]),
                ),
        decreases hints@.len() - i,
    {
        let hops = &hints[i].hop_hints;
        let mut hop_hints: Vec<HopHint> = Vec::new();
        let mut j: usize = 0;
        while j < hops.len()
            invariant
                j <= hops@.len(),
                hop_hints@.len() == j,
                forall|k: int| 0 <= k < j ==> (#[trigger] hop_hints@[k])@ == hop_hint_of(hops@[k]),
            decreases hops@.len() - j,
        {
            let hop = &hops[j];
            hop_hints.push(
                HopHint {
                    node_id: hop.node_id.clone(),
                    chan_id: decimal_text(hop.chan_id),
                    fee_base_msat: hop.fee_base_msat,
                    fee_proportional_millionths: hop.fee_proportional_millionths,
                    cltv_expiry_delta: hop.cltv_expiry_delta,
                },
            );
            j = j + 1;
        }
        let hint = RoutingHint { hop_hints };
        out.push(hint);
        i = i + 1;
    }
    out
}

impl DecodeInvoiceResponse {
    /// The canonical result of reading an invoice.
    pub fn try_into(self) -> (result: Result<DecodeInvoiceResult, Error>)
        ensures
            outcome_view(result) == decoded(self),
    {
        let features = InvoiceFeatures {
            payment_secret: extract_feature_status(self.features.get(&PAYMENT_SECRET_BIT)),
            basic_mpp: extract_feature_status(self.features.get(&BASIC_MPP_BIT)),
            option_payment_metadata: FeatureActivationStatus::Unknown,
            var_onion_optin: extract_feature_status(self.features.get(&VAR_ONION_BIT)),
        };
        let creation_date = match parse_i64(self.timestamp.as_str()) {
            Some(n) => n,
            None => {
                return Err(Error::from_parse_int_failure());
            },
        };
        let amount = match parse_u64(self.num_satoshis.as_str()) {
            Some(n) => n,
            None => {
                return Err(Error::from_parse_int_failure());
            },
        };
        let amount_msat = match parse_u64(self.num_msat.as_str()) {
            Some(n) => n,
            None => {
                return Err(Error::from_parse_int_failure());
            },
        };
        let expiry = match parse_i32(self.expiry.as_str()) {
            Some(n) => n,
            None => {
                return Err(Error::from_parse_int_failure());
            },
        };
        let min_final_cltv_expiry = match parse_u32(self.cltv_expiry.as_str()) {
            Some(n) => n,
            None => {
                return Err(Error::from_parse_int_failure());
            },
        };
        let route_hints = routing_hints(&self.route_hints);
        Ok(
            DecodeInvoiceResult {
                creation_date,
                amount: Some(amount),
                amount_msat: Some(amount_msat),
                destination: Some(self.destination),
                memo: Some(self.description),
                payment_hash: self.payment_hash,
                expiry,
                min_final_cltv_expiry,
                features: Some(features),
                route_hints,
            },
        )
    }
}

/// An invoice as a node keeps it.
#[derive(Debug, Clone)]
pub struct InvoiceResponse {
    pub memo: String,
    pub r_preimage: Base64String,
    pub r_hash: Base64String,
    pub value: String,
    pub value_msat: String,
    pub settled: bool,
    pub creation_date: String,
    pub settle_date: String,
    pub payment_request: String,
    pub expiry: String,
    pub state: String,
}

/// What is reported of an invoice whose state has no canonical name.
pub const UNKNOWN_STATE: &'static str = "unknown invoice state";

/// The canonical status for the name LND gives a state.
pub open spec fn invoice_status(state: Seq<char>) -> Option<InvoiceStatus> {
    if state == "OPEN"@ {
        Some(InvoiceStatus::Pending)
    } else if state == "SETTLED"@ {
        Some(InvoiceStatus::Settled)
    } else if state == "CANCELED"@ {
        Some(InvoiceStatus::Cancelled)
    } else if state == "ACCEPTED"@ {
        Some(InvoiceStatus::Accepted)
    } else {
        None
    }
}

/// The number that `text` writes once the white space at its ends is set
/// aside.
pub open spec fn amount_written(text: Seq<char>) -> Option<u64> {
    <u64 as Number>::written(text_trimmed(text))
}

impl InvoiceResponse {
    /// Why the answer cannot be read, if it cannot: hash or preimage is not
    /// base64; else one of the numbers is no number; else the state has no
    /// canonical name.
    pub open spec fn fault(&self) -> Option<ErrorView> {
        if base64_in_hex(self.r_hash@) is None || base64_in_hex(self.r_preimage@) is None {
            Some(ErrorView::ConversionError(NOT_BASE64@))
        } else if amount_written(self.value@) is None || amount_written(self.value_msat@) is None
            || amount_written(self.creation_date@) is None || amount_written(self.settle_date@)
            is None || amount_written(self.expiry@) is None {
            Some(ErrorView::ConversionError("couldn't convert string to integer"@))
        } else if invoice_status(self.state@) is None {
            Some(ErrorView::ConversionError(UNKNOWN_STATE@))
        } else {
            None
        }
    }

    /// Whether `invoice` is what the answer says. An invoice that was never
    /// settled has no settle date.
    pub open spec fn read_as(&self, invoice: Invoice) -> bool {
        &&& invoice.bolt11 == self.payment_request
        &&& invoice.memo == self.memo
        &&& Some(invoice.amount) == amount_written(self.value@)
        &&& Some(invoice.amount_msat) == amount_written(self.value_msat@)
        &&& opt_text(invoice.pre_image) == base64_in_hex(self.r_preimage@)
        &&& Some(invoice.payment_hash@) == base64_in_hex(self.r_hash@)
        &&& invoice.settled == self.settled
        &&& invoice.settle_date == (if amount_written(self.settle_date@) == Some(0u64) {
            None
        } else {
            amount_written(self.settle_date@)
        })
        &&& Some(invoice.creation_date) == amount_written(self.creation_date@)
        &&& Some(invoice.expiry) == amount_written(self.expiry@)
        &&& Some(invoice.status) == invoice_status(self.state@)
    }

    /// The canonical invoice.
    pub fn try_into(self) -> (result: Result<Invoice, Error>)
        ensures
            match self.fault() {
                Some(fault) => result matches Err(e) && e@ == fault,
                None => result matches Ok(invoice) && self.read_as(invoice),
            },
    {
        let payment_hash = match convert_base64_to_hex(self.r_hash.as_str()) {
            Ok(hash) => hash,
            Err(e) => {
                return Err(e);
            },
        };
        let pre_image = match convert_base64_to_hex(self.r_preimage.as_str()) {
            Ok(preimage) => preimage,
            Err(e) => {
                return Err(e);
            },
        };
        let amount: u64 = match parse_number(self.value.as_str()) {
            Ok(n) => n,
            Err(e) => {
                return Err(e);
            },
        };
        let amount_msat: u64 = match parse_number(self.value_msat.as_str()) {
            Ok(n) => n,
            Err(e) => {
                return Err(e);
            },
        };
        let creation_date: u64 = match parse_number(self.creation_date.as_str()) {
            Ok(n) => n,
            Err(e) => {
                return Err(e);
            },
        };
        let settled_at: u64 = match parse_number(self.settle_date.as_str()) {
            Ok(n) => n,
            Err(e) => {
                return Err(e);
            },
        };
        let expiry: u64 = match parse_number(self.expiry.as_str()) {
            Ok(n) => n,
            Err(e) => {
                return Err(e);
            },
        };
        let status = if text_eq(self.state.as_str(), "OPEN") {
            InvoiceStatus::Pending
        } else if text_eq(self.state.as_str(), "SETTLED") {
            InvoiceStatus::Settled
        } else if text_eq(self.state.as_str(), "CANCELED") {
            InvoiceStatus::Cancelled
        } else if text_eq(self.state.as_str(), "ACCEPTED") {
            InvoiceStatus::Accepted
        } else {
            return Err(Error::ConversionError(UNKNOWN_STATE.to_owned()));
        };
        let settle_date = if settled_at == 0 {
            None
        } else {
            Some(settled_at)
        };
        Ok(
            Invoice {
                bolt11: self.payment_request,
                memo: self.memo,
                amount,
                amount_msat,
                pre_image: Some(pre_image),
                payment_hash,
                settled: self.settled,
                settle_date,
                creation_date,
                expiry,
                status,
            },
        )
    }
}

} // verus!

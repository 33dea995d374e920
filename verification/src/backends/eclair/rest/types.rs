//! Eclair's requests and answers, and how they map from and to the
//! canonical model.

use vstd::prelude::*;
use crate::codec::opt_text;
use crate::error::{outcome_view, Error, ErrorView};
use crate::text::text_eq;
use crate::types::{
    network_named, routing_hints_view, Backend, ChannelStats, CreateInvoiceParams,
    CreateInvoiceResult, DecodeInvoiceResult, DecodeInvoiceResultView, FeatureActivationStatus,
    HopHint, HopHintView, InvoiceFeatures, Network, NodeInfo, PayInvoiceParams, PayInvoiceResult,
    RoutingHint,
};
use crate::utils::{get_amount_msat, get_amount_sat};

verus! {

/// The body of an answer that reports a server error.
#[derive(Debug, Clone)]
pub struct ApiError {
    pub message: String,
}

/// Asks a node for an invoice.
#[derive(Debug, Clone)]
pub struct CreateInvoiceRequest {
    pub description: Option<String>,
    pub description_hash: Option<String>,
    pub payment_preimage: Option<String>,
    pub amount_msat: u64,
    pub expire_in: u32,
    pub fallback_address: Option<String>,
}

/// The invoice a node made.
#[derive(Debug, Clone)]
pub struct CreateInvoiceResponse {
    pub serialized: String,
    pub payment_hash: String,
    pub description: Option<String>,
}

/// What a node tells about itself.
#[derive(Debug, Clone)]
pub struct GetInfoResponse {
    pub version: String,
    pub node_id: String,
    pub alias: String,
    pub color: String,
    pub network: String,
}

/// One channel of a node.
#[derive(Debug, Clone, Copy, PartialEq, Eq, Structural)]
pub struct GetChannelsResponse {
    pub state: ChannelState,
}

/// The state of a channel.
#[derive(Debug, Clone, Copy, PartialEq, Eq, Structural)]
pub enum ChannelState {
    Normal,
    Offline,
    Closed,
    Pending,
}

/// Asks a node to pay an invoice.
#[derive(Debug, Clone)]
pub struct PayInvoiceRequest {
    pub invoice: String,
    pub amount_msat: Option<u64>,
    pub max_attempts: Option<u64>,
    pub max_fee_flat_sat: Option<u64>,
    pub max_fee_pct: Option<u64>,
    pub external_id: Option<String>,
    pub path_finding_experiment_name: Option<String>,
    pub blocking: bool,
}

/// What a node answers to a payment, done or failed.
#[derive(Debug, Clone)]
pub struct PayInvoiceResponse {
    pub type_field: String,
    pub id: String,
    pub payment_hash: String,
    pub payment_preimage: Option<String>,
    pub recipient_amount: Option<u64>,
    pub recipient_node_id: Option<String>,
    pub parts: Option<Vec<PaymentPart>>,
    pub failures: Option<Vec<PaymentFailure>>,
}

/// One part of a payment that was made in parts.
#[derive(Debug, Clone)]
pub struct PaymentPart {
    pub id: String,
    pub amount: i64,
    pub fees_paid: i64,
    pub to_channel_id: String,
    pub route: Vec<Route>,
    pub timestamp: Timestamp,
}

/// The last update of a channel on a route.
#[derive(Debug, Clone)]
pub struct PaymentUpdate {
    pub signature: String,
    pub chain_hash: String,
    pub short_channel_id: String,
    pub timestamp: Timestamp,
    pub channel_flags: ChannelFlags,
    pub cltv_expiry_delta: i64,
    pub htlc_minimum_msat: i64,
    pub fee_base_msat: i64,
    pub fee_proportional_millionths: i64,
    pub htlc_maximum_msat: i64,
    pub tlv_stream: TlvStream,
}

/// One step of a route.
#[derive(Debug, Clone)]
pub struct Route {
    pub node_id: String,
    pub next_node_id: String,
    pub last_update: PaymentUpdate,
}

/// Extension records, each kept as the text the node sent.
#[derive(Debug, Clone)]
pub struct TlvStream {
    pub records: Vec<String>,
    pub unknown: Vec<String>,
}

/// The flags of a channel update.
#[derive(Debug, Clone, Copy, PartialEq, Eq, Structural)]
pub struct ChannelFlags {
    pub is_enabled: bool,
    pub is_node1: bool,
}

/// A point in time, as text and in seconds.
#[derive(Debug, Clone)]
pub struct Timestamp {
    pub iso: String,
    pub unix: u64,
}

/// Why one attempt at a payment failed.
#[derive(Debug, Clone)]
pub struct PaymentFailure {
    pub amount: i64,
    pub route: Vec<Route>,
    pub route_error: Option<RouteError>,
    pub error: Option<String>,
}

/// A failure that a node on the route reported.
#[derive(Debug, Clone)]
pub struct RouteError {
    pub origin_node: String,
    pub failure_message: String,
}

/// Asks a node to read an invoice.
#[derive(Debug, Clone)]
pub struct DecodeInvoiceRequest {
    pub invoice: String,
}

/// The features an invoice activates, each with how strongly.
#[derive(Debug, Clone)]
pub struct Activated {
    pub var_onion_optin: Option<String>,
    pub payment_secret: Option<String>,
    pub basic_mpp: Option<String>,
    pub option_payment_metadata: Option<String>,
}

/// The features of an invoice. Those the node does not know are kept as
/// the text it sent.
#[derive(Debug, Clone)]
pub struct Features {
    pub activated: Activated,
    pub unknown: Vec<String>,
}

/// One hop of a route hint.
#[derive(Debug, Clone)]
pub struct DecodeInvoiceRoutingInfo {
    pub node_id: String,
    pub short_channel_id: String,
    pub fee_base: u32,
    pub fee_proportional_millionths: u32,
    pub cltv_expiry_delta: u32,
}

/// What a node read out of an invoice.
#[derive(Debug, Clone)]
pub struct DecodeInvoiceResponse {
    pub prefix: String,
    pub timestamp: i64,
    pub node_id: String,
    pub serialized: String,
    pub description: Option<String>,
    pub payment_hash: String,
    pub payment_metadata: Option<String>,
    pub expiry: i32,
    pub min_final_cltv_expiry: Option<u32>,
    pub amount: u64,
    pub features: Features,
    pub routing_info: Vec<Vec<DecodeInvoiceRoutingInfo>>,
}

/// The word Eclair has for the main chain.
pub const MAINNET_NAME: &'static str = "mainnet";

/// How long an invoice stays valid, in seconds, where nothing else is asked.
pub const DEFAULT_EXPIRY: u32 = 3600;

/// The minimum final CLTV expiry of an invoice that states none.
pub const MIN_FINAL_CLTV_EXPIRY: u32 = 18;

/// The type of an answer that reports a failed payment.
pub const PAYMENT_FAILED: &'static str = "payment-failed";

/// What is reported where a failed payment does not say why.
pub const NO_FAILURE_MESSAGE: &'static str = "error paying invoice, couldn't extract error message";

impl CreateInvoiceRequest {
    /// Whether `self` asks for the invoice that `params` describe.
    pub open spec fn asks_for(&self, params: CreateInvoiceParams) -> bool {
        &&& self.amount_msat == (match params.amount_msat_spec() {
            Some(msat) => msat,
            None => 0,
        })
        &&& self.expire_in == (match params.expire_in {
            Some(seconds) => seconds,
            None => DEFAULT_EXPIRY,
        })
        &&& self.description == params.description
        &&& self.description_hash == params.description_hash
        &&& self.payment_preimage == params.payment_preimage
        &&& self.fallback_address == params.fallback_address
    }

    /// The request for the invoice that `params` describe. Without an
    /// amount the request is for zero; without an expiry, for an hour.
    pub fn from(params: CreateInvoiceParams) -> (request: CreateInvoiceRequest)
        requires
            params.amount_fits(),
        ensures
            request.asks_for(params),
    {
        let amount_msat = match params.resolved_amount_msat() {
            Some(msat) => msat,
            None => 0,
        };
        let expire_in = match params.expire_in {
            Some(seconds) => seconds,
            None => DEFAULT_EXPIRY,
        };
        CreateInvoiceRequest {
            description: params.description,
            payment_preimage: params.payment_preimage,
            amount_msat,
            description_hash: params.description_hash,
            expire_in,
            fallback_address: params.fallback_address,
        }
    }
}

impl CreateInvoiceResponse {
    /// The canonical result. Eclair has no labels; the description that the
    /// node sends back stands in the label's place.
    pub fn into(self) -> (result: CreateInvoiceResult)
        ensures
            result.payment_request == self.serialized,
            result.payment_hash == self.payment_hash,
            result.label == self.description,
    {
        CreateInvoiceResult {
            payment_request: self.serialized,
            payment_hash: self.payment_hash,
            label: self.description,
        }
    }
}

impl GetInfoResponse {
    /// The canonical node information, with no channel counted yet.
    pub fn into(self) -> (info: NodeInfo)
        ensures
            info.backend == Backend::EclairRest,
            info.version == self.version,
            info.network@ == network_named(self.network@, MAINNET_NAME@),
            info.node_pubkey == self.node_id,
            info.channels == (ChannelStats { active: 0, inactive: 0, pending: 0 }),
    {
        let network = Network::from_name(&self.network, MAINNET_NAME);
        NodeInfo {
            backend: Backend::EclairRest,
            version: self.version,
            network,
            node_pubkey: self.node_id,
            channels: ChannelStats { active: 0, inactive: 0, pending: 0 },
        }
    }
}

impl PayInvoiceRequest {
    /// Whether the amount can be written in millisatoshis.
    pub open spec fn amounts_fit(params: PayInvoiceParams) -> bool {
        params.amount matches Some(sat) ==> sat * 1000 <= u64::MAX
    }

    /// Whether `self` asks to pay as `params` say.
    pub open spec fn pays_as(&self, params: PayInvoiceParams) -> bool {
        &&& self.invoice == params.payment_request
        &&& self.amount_msat == (match (params.amount, params.amount_msat) {
            (Some(sat), _) => Some((sat * 1000) as u64),
            (None, msat) => msat,
        })
        &&& self.max_fee_flat_sat == (match (params.max_fee_sat, params.max_fee_msat) {
            (Some(sat), _) => Some(sat),
            (None, Some(msat)) => Some(msat / 1000),
            (None, None) => None,
        })
        &&& self.max_fee_pct == (match params.max_fee_percent {
            Some(percent) => Some(percent.whole_spec() as u64),
            None => None,
        })
        &&& self.max_attempts is None
        &&& self.external_id is None
        &&& self.path_finding_experiment_name is None
        &&& self.blocking
    }

    /// The request to pay as `params` say, waiting for the outcome. The
    /// amount is the satoshi value in millisatoshis where there is one,
    /// else the millisatoshi value. The flat fee ceiling goes out in
    /// satoshis: the satoshi value where there is one, else the whole
    /// satoshis of the millisatoshi value. Of the percentage the whole
    /// percents are handed on.
    pub fn from(params: PayInvoiceParams) -> (request: PayInvoiceRequest)
        requires
            PayInvoiceRequest::amounts_fit(params),
        ensures
            request.pays_as(params),
    {
        let amount_msat = get_amount_msat(params.amount, params.amount_msat);
        let max_fee_flat_sat = get_amount_sat(params.max_fee_sat, params.max_fee_msat);
        let max_fee_pct = match params.max_fee_percent {
            Some(percent) => Some(percent.whole()),
            None => None,
        };
        PayInvoiceRequest {
            invoice: params.payment_request,
            amount_msat,
            max_attempts: None,
            max_fee_flat_sat,
            max_fee_pct,
            external_id: None,
            path_finding_experiment_name: None,
            blocking: true,
        }
    }
}

/// The plain sum of the fees of the parts of a payment.
pub open spec fn fees_sum(parts: Seq<PaymentPart>) -> int
    decreases parts.len(),
{
    if parts.len() == 0 {
        0
    } else {
        fees_sum(parts.drop_last()) + parts.last().fees_paid
    }
}

/// The fees of a payment, summed part by part: nothing as soon as a part
/// reports a negative fee or the sum leaves the range of `u64`.
pub open spec fn fees_total(parts: Seq<PaymentPart>) -> Option<int>
    decreases parts.len(),
{
    if parts.len() == 0 {
        Some(0)
    } else {
        match fees_total(parts.drop_last()) {
            Some(total) => if parts.last().fees_paid >= 0 && total + parts.last().fees_paid
                <= u64::MAX {
                Some(total + parts.last().fees_paid)
            } else {
                None
            },
            None => None,
        }
    }
}

/// The most specific reason that a failed payment gives: what the route
/// reported, else the error text, of the first failure; a stock sentence
/// where neither is there.
pub open spec fn failure_message(failures: Option<Vec<PaymentFailure>>) -> Seq<char> {
    match failures {
        Some(list) if list@.len() > 0 => match (list@[0].route_error, list@[0].error) {
            (Some(route_error), _) => route_error.failure_message@,
            (None, Some(text)) => text@,
            (None, None) => NO_FAILURE_MESSAGE@,
        },
        _ => NO_FAILURE_MESSAGE@,
    }
}

/// The canonical result of a payment, or the error it comes to.
pub open spec fn payment_outcome(response: PayInvoiceResponse) -> Result<
    (Seq<char>, Seq<char>, Option<u64>),
    ErrorView,
> {
    if response.type_field@ == PAYMENT_FAILED@ {
        Err(ErrorView::ApiError(failure_message(response.failures)))
    } else if response.payment_preimage is None {
        Err(ErrorView::ApiError("invoice paid but missing preimage"@))
    } else {
        match response.parts {
            Some(parts) => match fees_total(parts@) {
                Some(total) => Ok(
                    (response.payment_hash@, response.payment_preimage->0@, Some(total as u64)),
                ),
                None => Err(ErrorView::ConversionError("couldn't add up the fees paid"@)),
            },
            None => Ok((response.payment_hash@, response.payment_preimage->0@, None)),
        }
    }
}

/// The hash, the preimage and the fees of a payment result.
pub open spec fn payment_view(result: Result<PayInvoiceResult, Error>) -> Result<
    (Seq<char>, Seq<char>, Option<u64>),
    ErrorView,
> {
    match result {
        Ok(r) => Ok((r.payment_hash@, r.payment_preimage@, r.fees_msat)),
        Err(e) => Err(e@),
    }
}

/// The fees of a payment, summed part by part.
fn total_fees(parts: &Vec<PaymentPart>) -> (total: Option<u64>)
    ensures
        total is Some <==> fees_total(parts@) is Some,
        total matches Some(t) ==> fees_total(parts@) == Some(t as int),
{
    let mut total: u64 = 0;
    let mut i: usize = 0;
    while i < parts.len()
        invariant
            i <= parts@.len(),
            fees_total(parts@.take(i as int)) == Some(total as int),
        decreases parts@.len() - i,
    {
        let fee = parts[i].fees_paid;
        proof {
            assert(parts@.take(i as int + 1).drop_last() =~= parts@.take(i as int));
        }
        if fee < 0 || fee as u64 > u64::MAX - total {
            proof {
                lemma_fees_total_none(parts@, i as int + 1);
            }
            return None;
        }
        total = total + fee as u64;
        i = i + 1;
    }
    assert(parts@.take(i as int) =~= parts@);
    Some(total)
}

/// Once the fees of a prefix cannot be summed, the fees of the whole
/// cannot.
proof fn lemma_fees_total_none(parts: Seq<PaymentPart>, n: int)
    requires
        0 <= n <= parts.len(),
        fees_total(parts.take(n)) is None,
    ensures
        fees_total(parts) is None,
    decreases parts.len() - n,
{
    if n < parts.len() {
        assert(parts.take(n + 1).drop_last() =~= parts.take(n));
        lemma_fees_total_none(parts, n + 1);
    } else {
        assert(parts.take(n) =~= parts);
    }
}

/// Where the fees of the parts can be summed part by part, what comes out
/// is their plain sum.
pub proof fn lemma_fees_total_is_sum(parts: Seq<PaymentPart>)
    ensures
        fees_total(parts) matches Some(total) ==> total == fees_sum(parts) && 0 <= total
            <= u64::MAX,
    decreases parts.len(),
{
    if parts.len() > 0 {
        lemma_fees_total_is_sum(parts.drop_last());
    }
}

/// The fees of a payment that was made in parts are the sum of the fees
/// paid for each part: whenever an answer with parts stands for a result,
/// the fees of the result are that sum.
pub proof fn law_fees_are_sum_of_parts(response: PayInvoiceResponse)
    requires
        response.parts is Some,
        payment_outcome(response) is Ok,
    ensures
        0 <= fees_sum(response.parts->0@) <= u64::MAX,
        payment_outcome(response)->Ok_0.2 == Some(fees_sum(response.parts->0@) as u64),
{
    lemma_fees_total_is_sum(response.parts->0@);
}

impl PayInvoiceResponse {
    /// The canonical result of a payment. An answer of the failed type is
    /// an error with the most specific reason it gives; a payment without a
    /// preimage is an error; the fees are those of the parts, summed.
    pub fn try_into(self) -> (result: Result<PayInvoiceResult, Error>)
        ensures
            payment_view(result) == payment_outcome(self),
    {
        if text_eq(self.type_field.as_str(), PAYMENT_FAILED) {
            let failures = match self.failures {
                Some(failures) => failures,
                None => {
                    return Err(Error::ApiError(NO_FAILURE_MESSAGE.to_owned()));
                },
            };
            if failures.len() == 0 {
                return Err(Error::ApiError(NO_FAILURE_MESSAGE.to_owned()));
            }
            let failure = &failures[0];
            return match (&failure.route_error, &failure.error) {
                (Some(route_error), _) => Err(Error::ApiError(route_error.failure_message.clone())),
                (None, Some(text)) => Err(Error::ApiError(text.clone())),
                (None, None) => Err(Error::ApiError(NO_FAILURE_MESSAGE.to_owned())),
            };
        }
        let payment_preimage = match self.payment_preimage {
            Some(preimage) => preimage,
            None => {
                return Err(Error::ApiError("invoice paid but missing preimage".to_owned()));
            },
        };
        let fees_msat = match &self.parts {
            Some(parts) => match total_fees(parts) {
                Some(total) => Some(total),
                None => {
                    return Err(
                        Error::ConversionError("couldn't add up the fees paid".to_owned()),
                    );
                },
            },
            None => None,
        };
        Ok(PayInvoiceResult { payment_hash: self.payment_hash, payment_preimage, fees_msat })
    }
}

impl DecodeInvoiceRequest {
    /// The request to read `invoice`.
    pub fn from(invoice: String) -> (request: DecodeInvoiceRequest)
        ensures
            request.invoice == invoice,
    {
        DecodeInvoiceRequest { invoice }
    }
}

/// How strongly an invoice activates a feature, from the word Eclair has
/// for it.
pub open spec fn feature_status(word: Option<Seq<char>>) -> FeatureActivationStatus {
    match word {
        Some(w) => if w == "optional"@ {
            FeatureActivationStatus::Optional
        } else if w == "mandatory"@ {
            FeatureActivationStatus::Mandatory
        } else {
            FeatureActivationStatus::Unknown
        },
        None => FeatureActivationStatus::Unknown,
    }
}

/// How strongly an invoice activates a feature.
pub fn extract_feature_status(feature_status_str: Option<String>) -> (status:
    FeatureActivationStatus)
    ensures
        status == feature_status(opt_text(feature_status_str)),
{
    match feature_status_str {
        None => FeatureActivationStatus::Unknown,
        Some(word) => {
            if text_eq(word.as_str(), "optional") {
                FeatureActivationStatus::Optional
            } else if text_eq(word.as_str(), "mandatory") {
                FeatureActivationStatus::Mandatory
            } else {
                FeatureActivationStatus::Unknown
            }
        },
    }
}

/// The canonical hop for a hop that Eclair reports.
pub open spec fn hop_hint_of(hop: DecodeInvoiceRoutingInfo) -> HopHintView {
    HopHintView {
        node_id: hop.node_id@,
        chan_id: hop.short_channel_id@,
        fee_base_msat: hop.fee_base,
        fee_proportional_millionths: hop.fee_proportional_millionths,
        cltv_expiry_delta: hop.cltv_expiry_delta,
    }
}

/// The canonical route hints for the routing information that Eclair
/// reports.
pub open spec fn hints_of(info: Seq<Vec<DecodeInvoiceRoutingInfo>>) -> Seq<Seq<HopHintView>> {
    Seq::new(info.len(), |i: int| Seq::new(info[i]@.len(), |j: int| hop_hint_of(info[i]@[j])))
}

/// What an answer of Eclair decodes to.
pub open spec fn decoded(response: DecodeInvoiceResponse) -> DecodeInvoiceResultView {
    DecodeInvoiceResultView {
        creation_date: response.timestamp,
        amount: Some(response.amount / 1000),
        amount_msat: Some(response.amount),
        destination: Some(response.node_id@),
        memo: opt_text(response.description),
        payment_hash: response.payment_hash@,
        expiry: response.expiry,
        min_final_cltv_expiry: match response.min_final_cltv_expiry {
            Some(blocks) => blocks,
            None => MIN_FINAL_CLTV_EXPIRY,
        },
        features: Some(
            InvoiceFeatures {
                payment_secret: feature_status(
                    opt_text(response.features.activated.payment_secret),
                ),
                basic_mpp: feature_status(opt_text(response.features.activated.basic_mpp)),
                option_payment_metadata: feature_status(
                    opt_text(response.features.activated.option_payment_metadata),
                ),
                var_onion_optin: feature_status(
                    opt_text(response.features.activated.var_onion_optin),
                ),
            },
        ),
        route_hints: hints_of(response.routing_info@),
    }
}

/// The canonical route hints for the routing information that Eclair
/// reports.
fn routing_hints(info: &Vec<Vec<DecodeInvoiceRoutingInfo>>) -> (out: Vec<RoutingHint>)
    ensures
        routing_hints_view(out@) == hints_of(info@),
{
    let mut out: Vec<RoutingHint> = Vec::new();
    let mut i: usize = 0;
    while i < info.len()
        invariant
            i <= info@.len(),
            out@.len() == i,
            forall|k: int|
                0 <= k < i ==> (#[trigger] out@[k])@ == Seq::new(
                    info@[k]@.len(),
                    |j: int| hop_hint_of(info@[k]@[j]),
                ),
        decreases info@.len() - i,
    {
        let hops = &info[i];
        let mut hop_hints: Vec<HopHint> = Vec::new();
        let mut j: usize = 0;
        while j < hops.len()
            invariant
                j <= hops@.len(),
                hop_hints@.len() == j,
                forall|k: int| 0 <= k < j ==> (#[trigger] hop_hints@[k])@ == hop_hint_of(hops@[k]),
            decreases hops@.len() - j,
        {
            let hop = &hops[j];
            hop_hints.push(
                HopHint {
                    node_id: hop.node_id.clone(),
                    chan_id: hop.short_channel_id.clone(),
                    fee_base_msat: hop.fee_base,
                    fee_proportional_millionths: hop.fee_proportional_millionths,
                    cltv_expiry_delta: hop.cltv_expiry_delta,
                },
            );
            j = j + 1;
        }
        let hint = RoutingHint { hop_hints };
        out.push(hint);
        i = i + 1;
    }
    out
}

impl DecodeInvoiceResponse {
    /// The canonical result of reading an invoice. It never fails.
    pub fn try_into(self) -> (result: Result<DecodeInvoiceResult, Error>)
        ensures
            outcome_view(result) == Ok::<DecodeInvoiceResultView, ErrorView>(decoded(self)),
    {
        let route_hints = routing_hints(&self.routing_info);
        let features = InvoiceFeatures {
            payment_secret: extract_feature_status(self.features.activated.payment_secret),
            basic_mpp: extract_feature_status(self.features.activated.basic_mpp),
            option_payment_metadata: extract_feature_status(
                self.features.activated.option_payment_metadata,
            ),
            var_onion_optin: extract_feature_status(self.features.activated.var_onion_optin),
        };
        Ok(
            DecodeInvoiceResult {
                creation_date: self.timestamp,
                amount: Some(self.amount / 1000),
                amount_msat: Some(self.amount),
                destination: Some(self.node_id),
                memo: self.description,
                payment_hash: self.payment_hash,
                expiry: self.expiry,
                min_final_cltv_expiry: match self.min_final_cltv_expiry {
                    Some(blocks) => blocks,
                    None => MIN_FINAL_CLTV_EXPIRY,
                },
                features: Some(features),
                route_hints,
            },
        )
    }
}

} // verus!

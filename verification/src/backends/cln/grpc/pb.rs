//! Core Lightning's messages, and how they map from and to the canonical
//! model.

use vstd::prelude::*;
use crate::bolt11::{
    bolt11_features, bolt11_fields, bolt11_route_hints, check_readable, is_readable,
    parse_features, parse_fields, parse_route_hints, route_hints_view, ParsedFeature,
    ParsedFeatures, ParsedFields, ParsedFieldsView, ParsedHop, ParsedHopView,
};
use crate::codec::{fresh_cuid, hex_encode, hex_encoded, is_fresh_label};
use crate::error::{outcome_view, Error, ErrorView};
use crate::text::{decimal_digits, decimal_text};
use crate::types::{
    network_named, routing_hints_view, Backend, ChannelStats, CreateInvoiceParams,
    CreateInvoiceResult, DecodeInvoiceResult, DecodeInvoiceResultView, FeatureActivationStatus,
    HopHint, HopHintView, InvoiceFeatures, Network, NodeInfo, PayInvoiceParams, PayInvoiceResult,
    Percent, RoutingHint,
};
use crate::utils::{get_amount_msat, low_u32, wrap_i32, wrap_i64, wrapped_i32, wrapped_i64};

verus! {

/// An amount in millisatoshis.
#[derive(Debug, Clone, Copy, PartialEq, Eq, Structural)]
pub struct Amount {
    pub msat: u64,
}

/// Either an amount or the word that any amount will do.
#[derive(Debug, Clone, Copy, PartialEq, Eq, Structural)]
pub enum AmountOrAnyValue {
    Amount(Amount),
    Any(bool),
}

/// The amount of an invoice request.
#[derive(Debug, Clone, Copy, PartialEq, Eq, Structural)]
pub struct AmountOrAny {
    pub value: Option<AmountOrAnyValue>,
}

/// Asks a node about itself.
#[derive(Debug, Clone, Copy, PartialEq, Eq, Structural)]
pub struct GetinfoRequest {}

/// What a node tells about itself.
#[derive(Debug, Clone)]
pub struct GetinfoResponse {
    pub id: Vec<u8>,
    pub alias: String,
    pub color: Vec<u8>,
    pub num_peers: u32,
    pub num_pending_channels: u32,
    pub num_active_channels: u32,
    pub num_inactive_channels: u32,
    pub version: String,
    pub lightning_dir: String,
    pub blockheight: u32,
    pub network: String,
}

/// Asks a node for an invoice.
#[derive(Debug, Clone)]
pub struct InvoiceRequest {
    pub msatoshi: Option<AmountOrAny>,
    pub description: String,
    pub label: String,
    pub expiry: Option<u64>,
    pub fallbacks: Vec<String>,
    pub preimage: Option<Vec<u8>>,
    pub exposeprivatechannels: Option<bool>,
    pub cltv: Option<u32>,
    pub deschashonly: Option<bool>,
}

/// The invoice a node made.
#[derive(Debug, Clone)]
pub struct InvoiceResponse {
    pub bolt11: String,
    pub payment_hash: Vec<u8>,
    pub payment_secret: Vec<u8>,
    pub expires_at: u64,
}

/// Asks a node to pay an invoice.
#[derive(Debug, Clone)]
pub struct PayRequest {
    pub bolt11: String,
    pub msatoshi: Option<Amount>,
    pub label: Option<String>,
    pub maxfeepercent: Option<Percent>,
    pub retry_for: Option<u32>,
    pub maxdelay: Option<u32>,
    pub exemptfee: Option<Amount>,
    pub localofferid: Option<Vec<u8>>,
    pub exclude: Vec<String>,
    pub maxfee: Option<Amount>,
    pub description: Option<String>,
}

/// What a node answers when it has paid.
#[derive(Debug, Clone)]
pub struct PayResponse {
    pub payment_preimage: Vec<u8>,
    pub destination: Option<Vec<u8>>,
    pub payment_hash: Vec<u8>,
    pub parts: u32,
    pub amount_msat: Option<Amount>,
    pub amount_sent_msat: Option<Amount>,
    pub warning_partial_completion: Option<String>,
    pub status: i32,
}

/// The word Core Lightning has for the main chain.
pub const MAINNET_NAME: &'static str = "bitcoin";

/// The bytes of an option, where there are any.
pub open spec fn opt_bytes(bytes: Option<Vec<u8>>) -> Option<Seq<u8>> {
    match bytes {
        Some(b) => Some(b@),
        None => None,
    }
}

impl InvoiceRequest {
    /// Whether `self` asks for the invoice that `params` describe, under
    /// `label`.
    pub open spec fn asks_for(&self, params: CreateInvoiceParams, label: Seq<char>) -> bool {
        &&& self.msatoshi == Some(
            AmountOrAny {
                value: Some(
                    match params.amount_msat_spec() {
                        Some(msat) => AmountOrAnyValue::Amount(Amount { msat: msat as u64 }),
                        None => AmountOrAnyValue::Any(true),
                    },
                ),
            },
        )
        &&& self.description@ == (match params.description {
            Some(text) => text@,
            None => Seq::empty(),
        })
        &&& self.label@ == label
        &&& self.expiry == (match params.expire_in {
            Some(seconds) => Some(seconds as u64),
            None => None,
        })
        &&& self.fallbacks@ == (match params.fallback_address {
            Some(address) => seq![address],
            None => Seq::empty(),
        })
        &&& opt_bytes(self.preimage) == (match params.payment_preimage {
            Some(preimage) => Some(vstd::utf8::encode_utf8(preimage@)),
            None => None,
        })
        &&& self.exposeprivatechannels is None
        &&& self.cltv == params.cltv_expiry
        &&& self.deschashonly == Some(false)
    }

    /// The request for the invoice that `params` describe, under `label`.
    /// Without an amount the node is asked for an invoice of any amount.
    pub fn with_label(params: CreateInvoiceParams, label: String) -> (request: InvoiceRequest)
        requires
            params.amount_fits(),
        ensures
            request.asks_for(params, label@),
    {
        let value = match params.resolved_amount_msat() {
            Some(msat) => AmountOrAnyValue::Amount(Amount { msat }),
            None => AmountOrAnyValue::Any(true),
        };
        let description = match params.description {
            Some(text) => text,
            None => String::new(),
        };
        let expiry = match params.expire_in {
            Some(seconds) => Some(seconds as u64),
            None => None,
        };
        let mut fallbacks: Vec<String> = Vec::new();
        match params.fallback_address {
            Some(address) => {
                fallbacks.push(address);
            },
            None => {},
        }
        let preimage = match params.payment_preimage {
            Some(preimage) => Some(preimage.as_str().as_bytes_vec()),
            None => None,
        };
        let request = InvoiceRequest {
            msatoshi: Some(AmountOrAny { value: Some(value) }),
            description,
            label,
            expiry,
            fallbacks,
            preimage,
            exposeprivatechannels: None,
            cltv: params.cltv_expiry,
            deschashonly: Some(false),
        };
        assert(request.fallbacks@ =~= (match params.fallback_address {
            Some(address) => seq![address],
            None => Seq::empty(),
        }));
        request
    }

    /// The request for the invoice that `params` describe. Where `params`
    /// bring no label a fresh one is made, which is never empty; should
    /// none be had, the request is given up.
    pub fn from(params: CreateInvoiceParams) -> (request: Result<InvoiceRequest, Error>)
        requires
            params.amount_fits(),
        ensures
            params.label matches Some(label) ==> (request matches Ok(r) && r.asks_for(
                params,
                label@,
            )),
            request matches Ok(r) ==> r.asks_for(params, r.label@),
            params.label is None ==> (request matches Ok(r) ==> is_fresh_label(r.label@)),
            request matches Err(e) ==> e@ == ErrorView::UnknownError(
                "couldn't generate an invoice label"@,
            ),
    {
        let label = match &params.label {
            Some(label) => label.clone(),
            None => match fresh_cuid() {
                Some(label) => label,
                None => {
                    return Err(
                        Error::UnknownError("couldn't generate an invoice label".to_owned()),
                    );
                },
            },
        };
        Ok(InvoiceRequest::with_label(params, label))
    }
}

impl InvoiceResponse {
    /// The canonical result: the invoice and its payment hash in
    /// hexadecimal. The label is for the caller to fill in.
    pub fn into(self) -> (result: CreateInvoiceResult)
        ensures
            result.payment_request == self.bolt11,
            result.payment_hash@ == hex_encoded(self.payment_hash@),
            result.label is None,
    {
        CreateInvoiceResult {
            payment_hash: hex_encode(&self.payment_hash),
            payment_request: self.bolt11,
            label: None,
        }
    }
}

impl GetinfoResponse {
    /// The canonical node information.
    pub fn into(self) -> (info: NodeInfo)
        ensures
            info.backend == Backend::ClnGrpc,
            info.version == self.version,
            info.network@ == network_named(self.network@, MAINNET_NAME@),
            info.node_pubkey@ == hex_encoded(self.id@),
            info.channels == (ChannelStats {
                active: self.num_active_channels as i64,
                inactive: self.num_inactive_channels as i64,
                pending: self.num_pending_channels as i64,
            }),
    {
        let network = Network::from_name(&self.network, MAINNET_NAME);
        NodeInfo {
            backend: Backend::ClnGrpc,
            network,
            node_pubkey: hex_encode(&self.id),
            version: self.version,
            channels: ChannelStats {
                active: self.num_active_channels as i64,
                inactive: self.num_inactive_channels as i64,
                pending: self.num_pending_channels as i64,
            },
        }
    }
}

impl PayRequest {
    /// Whether the amount and the flat fee ceiling can be written in
    /// millisatoshis.
    pub open spec fn amount_fits(params: PayInvoiceParams) -> bool {
        &&& params.amount matches Some(sat) ==> sat * 1000 <= u64::MAX
        &&& params.max_fee_sat matches Some(sat) ==> sat * 1000 <= u64::MAX
    }

    /// Whether `self` asks to pay as `params` say.
    pub open spec fn pays_as(&self, params: PayInvoiceParams) -> bool {
        &&& self.bolt11 == params.payment_request
        &&& self.msatoshi == (match (params.amount, params.amount_msat) {
            (Some(sat), _) => Some(Amount { msat: (sat * 1000) as u64 }),
            (None, Some(msat)) => Some(Amount { msat }),
            (None, None) => None,
        })
        &&& self.maxfeepercent == params.max_fee_percent
        &&& self.maxfee == (match (params.max_fee_sat, params.max_fee_msat) {
            (Some(sat), _) => Some(Amount { msat: (sat * 1000) as u64 }),
            (None, Some(msat)) => Some(Amount { msat }),
            (None, None) => None,
        })
        &&& self.label is None
        &&& self.retry_for is None
        &&& self.maxdelay is None
        &&& self.exemptfee is None
        &&& self.localofferid is None
        &&& self.exclude@.len() == 0
        &&& self.description is None
    }

    /// The request to pay as `params` say. The amount and the flat fee
    /// ceiling are the satoshi value in millisatoshis where there is one,
    /// else the millisatoshi value; the percentage is handed on beside the
    /// flat ceiling.
    pub fn from(params: PayInvoiceParams) -> (request: PayRequest)
        requires
            PayRequest::amount_fits(params),
        ensures
            request.pays_as(params),
    {
        let msatoshi = match get_amount_msat(params.amount, params.amount_msat) {
            Some(msat) => Some(Amount { msat }),
            None => None,
        };
        let maxfee = match get_amount_msat(params.max_fee_sat, params.max_fee_msat) {
            Some(msat) => Some(Amount { msat }),
            None => None,
        };
        PayRequest {
            bolt11: params.payment_request,
            msatoshi,
            label: None,
            maxfeepercent: params.max_fee_percent,
            retry_for: None,
            maxdelay: None,
            exemptfee: None,
            localofferid: None,
            exclude: Vec::new(),
            maxfee,
            description: None,
        }
    }
}

/// The fee of a payment: what was sent less what was asked for, where the
/// node tells both.
pub open spec fn fee_paid(asked: Option<Amount>, sent: Option<Amount>) -> Option<int> {
    match (asked, sent) {
        (Some(asked), Some(sent)) => Some(sent.msat - asked.msat),
        _ => None,
    }
}

impl PayResponse {
    /// The canonical result: hash and preimage in hexadecimal, and the fee
    /// where the node tells both amounts. A node that claims to have sent
    /// less than was asked for is not believed.
    pub fn into(self) -> (result: Result<PayInvoiceResult, Error>)
        ensures
            match fee_paid(self.amount_msat, self.amount_sent_msat) {
                Some(fee) if fee < 0 => result matches Err(e) && e@ == ErrorView::ConversionError(
                    "amount sent is less than the amount paid"@,
                ),
                fee => result matches Ok(r) && r.payment_preimage@ == hex_encoded(
                    self.payment_preimage@,
                ) && r.payment_hash@ == hex_encoded(self.payment_hash@) && (match fee {
                    Some(fee) => r.fees_msat == Some(fee as u64),
                    None => r.fees_msat is None,
                }),
            },
    {
        let fees_msat = match (self.amount_msat, self.amount_sent_msat) {
            (Some(asked), Some(sent)) => {
                if sent.msat < asked.msat {
                    return Err(
                        Error::ConversionError(
                            "amount sent is less than the amount paid".to_owned(),
                        ),
                    );
                }
                Some(sent.msat - asked.msat)
            },
            _ => None,
        };
        Ok(
            PayInvoiceResult {
                payment_preimage: hex_encode(&self.payment_preimage),
                payment_hash: hex_encode(&self.payment_hash),
                fees_msat,
            },
        )
    }
}

/// The canonical hop for a hop that the parser found.
pub open spec fn hop_hint_of(hop: ParsedHopView) -> HopHintView {
    HopHintView {
        node_id: hop.src_node_id,
        chan_id: decimal_digits(hop.short_channel_id as nat),
        fee_base_msat: hop.fee_base_msat,
        fee_proportional_millionths: hop.fee_proportional_millionths,
        cltv_expiry_delta: hop.cltv_expiry_delta as u32,
    }
}

/// The canonical route hints for the route hints that the parser found.
pub open spec fn hints_of(hints: Seq<Seq<ParsedHopView>>) -> Seq<Seq<HopHintView>> {
    Seq::new(hints.len(), |i: int| Seq::new(hints[i].len(), |j: int| hop_hint_of(hints[i][j])))
}

/// How strongly an invoice asks for a feature, from its pair of bits:
/// mandatory where the even bit is set, optional where only the odd bit
/// is, unknown where neither is.
pub open spec fn feature_status(feature: ParsedFeature) -> FeatureActivationStatus {
    if feature.required {
        FeatureActivationStatus::Mandatory
    } else if feature.supported {
        FeatureActivationStatus::Optional
    } else {
        FeatureActivationStatus::Unknown
    }
}

/// The features reported for the feature bits that the parser found. The
/// parser does not know the payment metadata, so nothing is known of it.
pub open spec fn features_of(features: Option<ParsedFeatures>) -> Option<InvoiceFeatures> {
    match features {
        Some(found) => Some(
            InvoiceFeatures {
                payment_secret: feature_status(found.payment_secret),
                basic_mpp: feature_status(found.basic_mpp),
                option_payment_metadata: FeatureActivationStatus::Unknown,
                var_onion_optin: feature_status(found.var_onion_optin),
            },
        ),
        None => None,
    }
}

/// What a parsed invoice decodes to. An invoice that only commits to the
/// hash of its description cannot be decoded here.
pub open spec fn decoded(
    fields: ParsedFieldsView,
    features: Option<ParsedFeatures>,
    hints: Seq<Seq<ParsedHopView>>,
) -> Result<DecodeInvoiceResultView, ErrorView> {
    if fields.description is None {
        Err(ErrorView::NotImplemented)
    } else {
        Ok(
            DecodeInvoiceResultView {
                creation_date: wrapped_i64(fields.since_epoch_millis as int),
                amount: match fields.amount_msat {
                    Some(msat) => Some(msat / 1000),
                    None => None,
                },
                amount_msat: fields.amount_msat,
                destination: None,
                memo: fields.description,
                payment_hash: fields.payment_hash,
                expiry: wrapped_i32(fields.expiry_millis as int),
                min_final_cltv_expiry: low_u32(fields.min_final_cltv_expiry as int),
                features: features_of(features),
                route_hints: hints_of(hints),
            },
        )
    }
}

/// What is reported of a text that is no invoice.
pub const NOT_AN_INVOICE: &'static str = "provided invoice is not a valid bolt11 invoice";

/// What the text of an invoice decodes to. A text that the parser cannot
/// be given, or that it does not take for a signed invoice, is a
/// conversion error.
pub open spec fn decoded_text(text: Seq<char>) -> Result<DecodeInvoiceResultView, ErrorView> {
    if !is_readable(text) {
        Err(ErrorView::ConversionError(NOT_AN_INVOICE@))
    } else {
        match bolt11_fields(text) {
            Some(fields) => decoded(fields, bolt11_features(text), bolt11_route_hints(text)),
            None => Err(ErrorView::ConversionError(NOT_AN_INVOICE@)),
        }
    }
}

/// Reading an invoice depends on its text alone: whatever two readings of
/// one text came to, they came to the same, be it a result or an error.
pub proof fn law_decoding_is_repeatable(
    invoice: Seq<char>,
    first: Result<DecodeInvoiceResult, Error>,
    second: Result<DecodeInvoiceResult, Error>,
)
    requires
        outcome_view(first) == decoded_text(invoice),
        outcome_view(second) == decoded_text(invoice),
    ensures
        outcome_view(first) == outcome_view(second),
        first is Ok <==> second is Ok,
{
}

/// An invoice whose description is only committed to by its hash is not
/// decoded: whatever else the parser found, the outcome is that this is
/// not implemented.
pub proof fn law_hashed_description_is_not_decoded(text: Seq<char>)
    requires
        is_readable(text),
        bolt11_fields(text) matches Some(fields) && fields.description is None,
    ensures
        decoded_text(text) == Err::<DecodeInvoiceResultView, ErrorView>(ErrorView::NotImplemented),
{
}

/// How strongly an invoice asks for a feature.
pub fn extract_feature_status(feature: ParsedFeature) -> (status: FeatureActivationStatus)
    ensures
        status == feature_status(feature),
{
    if feature.required {
        FeatureActivationStatus::Mandatory
    } else if feature.supported {
        FeatureActivationStatus::Optional
    } else {
        FeatureActivationStatus::Unknown
    }
}

/// The canonical hop for a hop that the parser found.
fn hop_hint(hop: &ParsedHop) -> (hint: HopHint)
    ensures
        hint@ == hop_hint_of(hop@),
{
    HopHint {
        node_id: hop.src_node_id.clone(),
        chan_id: decimal_text(hop.short_channel_id),
        fee_base_msat: hop.fee_base_msat,
        fee_proportional_millionths: hop.fee_proportional_millionths,
        cltv_expiry_delta: hop.cltv_expiry_delta as u32,
    }
}

/// The canonical route hints for the route hints that the parser found.
fn routing_hints(hints: &Vec<Vec<ParsedHop>>) -> (out: Vec<RoutingHint>)
    ensures
        routing_hints_view(out@) == hints_of(route_hints_view(hints@)),
{
    let mut out: Vec<RoutingHint> = Vec::new();
    let mut i: usize = 0;
    while i < hints.len()
        invariant
            i <= hints@.len(),
            out@.len() == i,
            forall|k: int|
                0 <= k < i ==> (#[trigger] out@[k])@ == Seq::new(
                    hints@[k]@.len(),
                    |j: int| hop_hint_of(hints@[k]@[j]@),
                ),
        decreases hints@.len() - i,
    {
        let hops = &hints[i];
        let mut hop_hints: Vec<HopHint> = Vec::new();
        let mut j: usize = 0;
        while j < hops.len()
            invariant
                j <= hops@.len(),
                hop_hints@.len() == j,
                forall|k: int| 0 <= k < j ==> (#[trigger] hop_hints@[k])@ == hop_hint_of(hops@[k]@),
            decreases hops@.len() - j,
        {
            hop_hints.push(hop_hint(&hops[j]));
            j = j + 1;
        }
        let hint = RoutingHint { hop_hints };
        out.push(hint);
        i = i + 1;
    }
    assert(routing_hints_view(out@) =~= hints_of(route_hints_view(hints@))) by {
        assert forall|k: int| 0 <= k < out@.len() implies routing_hints_view(out@)[k] == hints_of(
            route_hints_view(hints@),
        )[k] by {
            assert(out@[k]@ =~= Seq::new(
                route_hints_view(hints@)[k].len(),
                |j: int| hop_hint_of(route_hints_view(hints@)[k][j]),
            ));
        }
    }
    out
}

/// Maps what the parser found in an invoice to the canonical result.
pub fn decode_parsed(
    fields: ParsedFields,
    features: Option<ParsedFeatures>,
    hints: Vec<Vec<ParsedHop>>,
) -> (result: Result<DecodeInvoiceResult, Error>)
    ensures
        outcome_view(result) == decoded(fields@, features, route_hints_view(hints@)),
{
    let memo = match fields.description {
        Some(text) => text,
        None => {
            return Err(Error::NotImplemented);
        },
    };
    let amount = match fields.amount_msat {
        Some(msat) => Some(msat / 1000),
        None => None,
    };
    let features = match features {
        Some(found) => Some(
            InvoiceFeatures {
                payment_secret: extract_feature_status(found.payment_secret),
                basic_mpp: extract_feature_status(found.basic_mpp),
                option_payment_metadata: FeatureActivationStatus::Unknown,
                var_onion_optin: extract_feature_status(found.var_onion_optin),
            },
        ),
        None => None,
    };
    let result = DecodeInvoiceResult {
        creation_date: wrap_i64(fields.since_epoch_millis),
        amount,
        amount_msat: fields.amount_msat,
        destination: None,
        memo: Some(memo),
        payment_hash: fields.payment_hash,
        expiry: wrap_i32(fields.expiry_millis),
        min_final_cltv_expiry: (fields.min_final_cltv_expiry % 0x1_0000_0000u64) as u32,
        features,
        route_hints: routing_hints(&hints),
    };
    Ok(result)
}

/// Reads an invoice out of its text. Core Lightning has no call for this,
/// so the invoice parser does the reading and the fields are mapped here.
/// A text that states an amount too large to stand without a multiplier
/// letter is turned down before the parser sees it.
pub fn decode_invoice(invoice: &str) -> (result: Result<DecodeInvoiceResult, Error>)
    ensures
        outcome_view(result) == decoded_text(invoice@),
{
    if !check_readable(invoice) {
        return Err(Error::ConversionError(NOT_AN_INVOICE.to_owned()));
    }
    let fields = match parse_fields(invoice) {
        Some(fields) => fields,
        None => {
            return Err(Error::ConversionError(NOT_AN_INVOICE.to_owned()));
        },
    };
    let features = parse_features(invoice);
    let hints = parse_route_hints(invoice);
    decode_parsed(fields, features, hints)
}

} // verus!

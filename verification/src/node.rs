//! The one interface over every backend. A node holds the adapter that was
//! chosen when it was made and hands each operation on to it: first for the
//! request to send, then for the result that the answer stands for.

use vstd::prelude::*;
use crate::backends::cln::grpc::config::ClnGrpcConfig;
use crate::backends::cln::grpc::node::ClnGrpc;
use crate::backends::cln::grpc::pb;
use crate::backends::eclair::rest::config::EclairRestConfig;
use crate::backends::eclair::rest::node::{can_authorize, EclairRest};
use crate::backends::eclair::rest::types as eclair;
use crate::backends::lnd::rest::config::LndRestConfig;
use crate::backends::lnd::rest::node::LndRest;
use crate::backends::lnd::rest::types as lnd;
use crate::codec::{is_hex_digit, is_hex_text, lemma_hex_text_is_header_text};
use crate::config::{
    config_fault, first_missing, first_not_hex, hex_fields, is_node_url,
    law_missing_field_is_named, law_non_hex_field_is_named, required_fields,
};
use crate::error::{ConfigErrorView, Error, ErrorView};
use crate::transport::{Call, INVALID_HEADER};
use crate::types::{
    Backend, CreateInvoiceParams, CreateInvoiceResult, DecodeInvoiceResult, Invoice, NodeConfig,
    NodeInfo, PayInvoiceParams, PayInvoiceResult,
};

verus! {

/// The adapter of a node, one variant for each backend that can be reached.
#[derive(Debug, Clone)]
pub enum NodeBackend {
    LndRest(LndRest),
    ClnGrpc(ClnGrpc),
    EclairRest(EclairRest),
}

/// A node, reached through whichever backend was chosen.
#[derive(Debug, Clone)]
pub struct Node {
    pub backend: Backend,
    pub node: NodeBackend,
}

/// What has to be sent to a node, in the shape its backend takes.
#[derive(Debug, Clone)]
pub enum Request {
    LndCreateInvoice(Call, lnd::CreateInvoiceRequest),
    LndGetInfo(Call),
    LndPayInvoice(Call, lnd::SendPaymentSyncRequest),
    LndGetInvoice(Call),
    LndDecodeInvoice(Call),
    ClnInvoice(pb::InvoiceRequest),
    ClnGetinfo(pb::GetinfoRequest),
    ClnPay(pb::PayRequest),
    EclairCreateInvoice(Call, eclair::CreateInvoiceRequest),
    /// Two calls, one after the other: for the node itself, then for its
    /// channels.
    EclairGetInfo(Call, Call),
    EclairPayInvoice(Call, eclair::PayInvoiceRequest),
    EclairDecodeInvoice(Call, eclair::DecodeInvoiceRequest),
}

/// What a node answered, in the shape its backend gives.
#[derive(Debug, Clone)]
pub enum Response {
    LndCreateInvoice(lnd::CreateInvoiceResponse),
    LndGetInfo(lnd::GetInfoResponse),
    LndPayInvoice(lnd::SendPaymentSyncResponse),
    LndGetInvoice(lnd::InvoiceResponse),
    LndDecodeInvoice(lnd::DecodeInvoiceResponse),
    /// The invoice, and the label that the request went out with.
    ClnInvoice(pb::InvoiceResponse, String),
    ClnGetinfo(pb::GetinfoResponse),
    ClnPay(pb::PayResponse),
    EclairCreateInvoice(eclair::CreateInvoiceResponse),
    EclairGetInfo(eclair::GetInfoResponse, Vec<eclair::GetChannelsResponse>),
    EclairPayInvoice(eclair::PayInvoiceResponse),
    EclairDecodeInvoice(eclair::DecodeInvoiceResponse),
}

/// How an invoice gets read: by asking the node, or on the spot.
#[derive(Debug, Clone)]
pub enum Decoding {
    Ask(Request),
    Done(DecodeInvoiceResult),
}

/// What is reported of an answer that is not one the node's backend gives
/// to the operation.
pub const MISFIT: &'static str = "answer does not fit the request";

/// The Eclair configuration that `config` writes, every field taken to be
/// there.
pub open spec fn eclair_config(config: NodeConfig) -> EclairRestConfig {
    EclairRestConfig {
        url: config.url->0,
        username: config.username->0,
        password: config.password->0,
    }
}

/// Why no node can be made for `backend` from `config`, if none can: the
/// backend is none that is served; else the configuration is at fault;
/// else the credentials cannot go into a header. A macaroon always can,
/// once it is known to be hexadecimal.
pub open spec fn construction_fault(backend: Backend, config: NodeConfig) -> Option<ErrorView> {
    match backend {
        Backend::LndGrpc | Backend::InvalidBackend => Some(ErrorView::InvalidBackend),
        _ => match config_fault(backend, config) {
            Some(fault) => Some(ErrorView::ConfigError(fault)),
            None => match backend {
                Backend::EclairRest => if can_authorize(eclair_config(config)) {
                    None
                } else {
                    Some(ErrorView::ApiError(INVALID_HEADER@))
                },
                _ => None,
            },
        },
    }
}

/// Of an invoice that is asked for with both amounts, every backend is
/// asked for the millisatoshi amount, whatever the satoshi amount says.
pub proof fn law_millisatoshi_precedence(
    params: CreateInvoiceParams,
    label: Seq<char>,
    to_lnd: lnd::CreateInvoiceRequest,
    to_cln: pb::InvoiceRequest,
    to_eclair: eclair::CreateInvoiceRequest,
)
    requires
        params.amount is Some,
        params.amount_msat is Some,
        to_lnd.asks_for(params),
        to_cln.asks_for(params, label),
        to_eclair.asks_for(params),
    ensures
        params.amount_fits(),
        to_lnd.value_msat == params.amount_msat->0,
        to_eclair.amount_msat == params.amount_msat->0,
        to_cln.msatoshi == Some(
            pb::AmountOrAny {
                value: Some(
                    pb::AmountOrAnyValue::Amount(pb::Amount { msat: params.amount_msat->0 }),
                ),
            },
        ),
{
}

/// No node is made from a configuration that lacks a field its backend
/// requires: making it fails for a missing field, and the field named is
/// the first required one that is missing.
pub proof fn law_construction_names_missing_field(backend: Backend, config: NodeConfig, i: int)
    requires
        0 <= i < required_fields(backend).len(),
        required_fields(backend)[i].of(config) is None,
    ensures
        first_missing(config, required_fields(backend)) matches Some(field) && field.of(config)
            is None && required_fields(backend).contains(field) && construction_fault(
            backend,
            config,
        ) == Some(ErrorView::ConfigError(ConfigErrorView::MissingField(field.name()))),
{
    law_missing_field_is_named(backend, config, i);
}

/// No node is made from a configuration that is complete and has a good
/// address, but holds a character that is no hexadecimal digit in a field
/// that is written in hexadecimal: making it fails for a parsing error, and
/// the field named is the first hexadecimal field that does not read as
/// such.
pub proof fn law_construction_names_non_hex_field(
    backend: Backend,
    config: NodeConfig,
    i: int,
    at: int,
)
    requires
        first_missing(config, required_fields(backend)) is None,
        is_node_url(config.url->0@),
        0 <= i < hex_fields(backend).len(),
        0 <= at < hex_fields(backend)[i].of(config)->0@.len(),
        !is_hex_digit(hex_fields(backend)[i].of(config)->0@[at]),
    ensures
        first_not_hex(config, hex_fields(backend)) matches Some(field) && !is_hex_text(
            field.of(config)->0@,
        ) && hex_fields(backend).contains(field) && construction_fault(backend, config) == Some(
            ErrorView::ConfigError(ConfigErrorView::ParsingHexError(field.name())),
        ),
{
    law_non_hex_field_is_named(backend, config, i, at);
}

impl Node {
    /// Whether the adapter is the one of the backend the node names.
    pub open spec fn consistent(&self) -> bool {
        match self.node {
            NodeBackend::LndRest(_) => self.backend == Backend::LndRest,
            NodeBackend::ClnGrpc(_) => self.backend == Backend::ClnGrpc,
            NodeBackend::EclairRest(_) => self.backend == Backend::EclairRest,
        }
    }

    /// Whether the node is set up for what `config` says, decoded.
    pub open spec fn serves(&self, config: NodeConfig) -> bool {
        match self.node {
            NodeBackend::LndRest(adapter) => adapter.config.holds(config) && adapter.serves(
                adapter.config,
            ),
            NodeBackend::ClnGrpc(adapter) => adapter.checked().holds(config) && adapter.serves(
                adapter.checked(),
            ),
            NodeBackend::EclairRest(adapter) => adapter.config.holds(config) && adapter.serves(
                adapter.config,
            ),
        }
    }

    /// Makes the node for `backend`: checks the configuration, then sets the
    /// adapter up. A backend that is known but not served is turned down
    /// like one that is not known.
    pub fn new(backend: Backend, config: NodeConfig) -> (made: Result<Node, Error>)
        ensures
            match construction_fault(backend, config) {
                Some(fault) => made matches Err(e) && e@ == fault,
                None => made matches Ok(node) && node.backend == backend && node.consistent()
                    && node.serves(config),
            },
    {
        match backend {
            Backend::LndRest => {
                let checked = match LndRestConfig::try_from(config) {
                    Ok(checked) => checked,
                    Err(e) => {
                        return Err(e);
                    },
                };
                proof {
                    lemma_hex_text_is_header_text(checked.macaroon@);
                }
                match LndRest::new(checked) {
                    Ok(adapter) => {
                        let node = Node { backend, node: NodeBackend::LndRest(adapter) };
                        Ok(node)
                    },
                    Err(e) => Err(e),
                }
            },
            Backend::ClnGrpc => {
                let checked = match ClnGrpcConfig::try_from(config) {
                    Ok(checked) => checked,
                    Err(e) => {
                        return Err(e);
                    },
                };
                match ClnGrpc::new(checked) {
                    Ok(adapter) => {
                        let node = Node { backend, node: NodeBackend::ClnGrpc(adapter) };
                        Ok(node)
                    },
                    Err(e) => Err(e),
                }
            },
            Backend::EclairRest => {
                let checked = match EclairRestConfig::try_from(config) {
                    Ok(checked) => checked,
                    Err(e) => {
                        return Err(e);
                    },
                };
                match EclairRest::new(checked) {
                    Ok(adapter) => {
                        let node = Node { backend, node: NodeBackend::EclairRest(adapter) };
                        Ok(node)
                    },
                    Err(e) => Err(e),
                }
            },
            Backend::LndGrpc => Err(Error::InvalidBackend),
            Backend::InvalidBackend => Err(Error::InvalidBackend),
        }
    }

    /// Whether the amount of `invoice` can be written in millisatoshis.
    pub open spec fn can_create(&self, invoice: CreateInvoiceParams) -> bool {
        invoice.amount_fits()
    }

    /// Whether the amounts of `invoice` fit what the node's backend takes:
    /// what is given in satoshis and goes out in millisatoshis has to fit
    /// 64 bits there. Eclair takes its flat fee ceiling in satoshis.
    pub open spec fn can_pay(&self, invoice: PayInvoiceParams) -> bool {
        &&& invoice.amount matches Some(sat) ==> sat * 1000 <= u64::MAX
        &&& !(self.node is EclairRest) ==> (invoice.max_fee_sat matches Some(sat) ==> sat * 1000
            <= u64::MAX)
    }

    /// What to send to create an invoice: whatever the adapter says.
    pub fn create_invoice(&self, invoice: CreateInvoiceParams) -> (request: Result<Request, Error>)
        requires
            self.can_create(invoice),
        ensures
            match self.node {
                NodeBackend::LndRest(adapter) => request matches Ok(
                    Request::LndCreateInvoice(call, body),
                ) && call_ensures(LndRest::create_invoice, (&adapter, invoice), (call, body)),
                NodeBackend::ClnGrpc(adapter) => match request {
                    Ok(Request::ClnInvoice(body)) => call_ensures(
                        ClnGrpc::create_invoice,
                        (&adapter, invoice),
                        Ok::<pb::InvoiceRequest, Error>(body),
                    ),
                    Ok(_) => false,
                    Err(e) => call_ensures(
                        ClnGrpc::create_invoice,
                        (&adapter, invoice),
                        Err::<pb::InvoiceRequest, Error>(e),
                    ),
                },
                NodeBackend::EclairRest(adapter) => request matches Ok(
                    Request::EclairCreateInvoice(call, body),
                ) && call_ensures(EclairRest::create_invoice, (&adapter, invoice), (call, body)),
            },
    {
        match &self.node {
            NodeBackend::LndRest(adapter) => {
                let (call, body) = adapter.create_invoice(invoice);
                Ok(Request::LndCreateInvoice(call, body))
            },
            NodeBackend::ClnGrpc(adapter) => match adapter.create_invoice(invoice) {
                Ok(body) => Ok(Request::ClnInvoice(body)),
                Err(e) => Err(e),
            },
            NodeBackend::EclairRest(adapter) => {
                let (call, body) = adapter.create_invoice(invoice);
                Ok(Request::EclairCreateInvoice(call, body))
            },
        }
    }

    /// The result that the answer to creating an invoice stands for:
    /// whatever the adapter says. An answer of another backend or to
    /// another operation is an error.
    pub fn created_invoice(&self, response: Response) -> (result: Result<
        CreateInvoiceResult,
        Error,
    >)
        ensures
            match (self.node, response) {
                (NodeBackend::LndRest(_), Response::LndCreateInvoice(answer)) => call_ensures(
                    lnd::CreateInvoiceResponse::try_into,
                    (answer,),
                    result,
                ),
                (NodeBackend::ClnGrpc(_), Response::ClnInvoice(answer, label)) => result matches Ok(
                    made,
                ) && call_ensures(ClnGrpc::created_invoice, (answer, label), made),
                (
                    NodeBackend::EclairRest(_),
                    Response::EclairCreateInvoice(answer),
                ) => result matches Ok(made) && call_ensures(
                    eclair::CreateInvoiceResponse::into,
                    (answer,),
                    made,
                ),
                _ => result matches Err(e) && e@ == ErrorView::UnknownError(MISFIT@),
            },
    {
        match (&self.node, response) {
            (NodeBackend::LndRest(_), Response::LndCreateInvoice(answer)) => answer.try_into(),
            (NodeBackend::ClnGrpc(_), Response::ClnInvoice(answer, label)) => Ok(
                ClnGrpc::created_invoice(answer, label),
            ),
            (NodeBackend::EclairRest(_), Response::EclairCreateInvoice(answer)) => Ok(
                answer.into(),
            ),
            _ => Err(Error::UnknownError(MISFIT.to_owned())),
        }
    }

    /// What to send to ask the node about itself: whatever the adapter
    /// says.
    pub fn get_info(&self) -> (request: Request)
        ensures
            match self.node {
                NodeBackend::LndRest(adapter) => request matches Request::LndGetInfo(call)
                    && call_ensures(LndRest::get_info, (&adapter,), call),
                NodeBackend::ClnGrpc(adapter) => request is ClnGetinfo,
                NodeBackend::EclairRest(adapter) => request matches Request::EclairGetInfo(
                    first,
                    second,
                ) && call_ensures(EclairRest::info_call, (&adapter,), first) && call_ensures(
                    EclairRest::channels_call,
                    (&adapter,),
                    second,
                ),
            },
    {
        match &self.node {
            NodeBackend::LndRest(adapter) => Request::LndGetInfo(adapter.get_info()),
            NodeBackend::ClnGrpc(adapter) => Request::ClnGetinfo(adapter.get_info()),
            NodeBackend::EclairRest(adapter) => Request::EclairGetInfo(
                adapter.info_call(),
                adapter.channels_call(),
            ),
        }
    }

    /// The node information that the answer stands for: whatever the
    /// adapter says. An answer of another backend or to another operation
    /// is an error.
    pub fn node_info(&self, response: Response) -> (result: Result<NodeInfo, Error>)
        ensures
            match (self.node, response) {
                (NodeBackend::LndRest(_), Response::LndGetInfo(answer)) => result matches Ok(info)
                    && call_ensures(lnd::GetInfoResponse::into, (answer,), info),
                (NodeBackend::ClnGrpc(_), Response::ClnGetinfo(answer)) => result matches Ok(info)
                    && call_ensures(pb::GetinfoResponse::into, (answer,), info),
                (
                    NodeBackend::EclairRest(_),
                    Response::EclairGetInfo(answer, channels),
                ) => result matches Ok(info) && exists|bare: NodeInfo|
                    call_ensures(eclair::GetInfoResponse::into, (answer,), bare) && #[trigger] call_ensures(
                        EclairRest::node_info,
                        (bare, &channels),
                        info,
                    ),
                _ => result matches Err(e) && e@ == ErrorView::UnknownError(MISFIT@),
            },
    {
        match (&self.node, response) {
            (NodeBackend::LndRest(_), Response::LndGetInfo(answer)) => Ok(answer.into()),
            (NodeBackend::ClnGrpc(_), Response::ClnGetinfo(answer)) => Ok(answer.into()),
            (NodeBackend::EclairRest(_), Response::EclairGetInfo(answer, channels)) => {
                let bare = answer.into();
                Ok(EclairRest::node_info(bare, &channels))
            },
            _ => Err(Error::UnknownError(MISFIT.to_owned())),
        }
    }

    /// What to send to pay an invoice: whatever the adapter says.
    pub fn pay_invoice(&self, invoice: PayInvoiceParams) -> (request: Request)
        requires
            self.can_pay(invoice),
        ensures
            match self.node {
                NodeBackend::LndRest(adapter) => request matches Request::LndPayInvoice(call, body)
                    && call_ensures(LndRest::pay_invoice, (&adapter, invoice), (call, body)),
                NodeBackend::ClnGrpc(adapter) => request matches Request::ClnPay(body)
                    && call_ensures(ClnGrpc::pay_invoice, (&adapter, invoice), body),
                NodeBackend::EclairRest(adapter) => request matches Request::EclairPayInvoice(
                    call,
                    body,
                ) && call_ensures(EclairRest::pay_invoice, (&adapter, invoice), (call, body)),
            },
    {
        match &self.node {
            NodeBackend::LndRest(adapter) => {
                let (call, body) = adapter.pay_invoice(invoice);
                Request::LndPayInvoice(call, body)
            },
            NodeBackend::ClnGrpc(adapter) => Request::ClnPay(adapter.pay_invoice(invoice)),
            NodeBackend::EclairRest(adapter) => {
                let (call, body) = adapter.pay_invoice(invoice);
                Request::EclairPayInvoice(call, body)
            },
        }
    }

    /// The result that the answer to a payment stands for: whatever the
    /// adapter says. An answer of another backend or to another operation
    /// is an error.
    pub fn paid_invoice(&self, response: Response) -> (result: Result<PayInvoiceResult, Error>)
        ensures
            match (self.node, response) {
                (NodeBackend::LndRest(_), Response::LndPayInvoice(answer)) => call_ensures(
                    lnd::SendPaymentSyncResponse::try_into,
                    (answer,),
                    result,
                ),
                (NodeBackend::ClnGrpc(_), Response::ClnPay(answer)) => call_ensures(
                    pb::PayResponse::into,
                    (answer,),
                    result,
                ),
                (NodeBackend::EclairRest(_), Response::EclairPayInvoice(answer)) => call_ensures(
                    eclair::PayInvoiceResponse::try_into,
                    (answer,),
                    result,
                ),
                _ => result matches Err(e) && e@ == ErrorView::UnknownError(MISFIT@),
            },
    {
        match (&self.node, response) {
            (NodeBackend::LndRest(_), Response::LndPayInvoice(answer)) => answer.try_into(),
            (NodeBackend::ClnGrpc(_), Response::ClnPay(answer)) => answer.into(),
            (NodeBackend::EclairRest(_), Response::EclairPayInvoice(answer)) => answer.try_into(),
            _ => Err(Error::UnknownError(MISFIT.to_owned())),
        }
    }

    /// What to send to fetch the invoice with `payment_hash`. Only LND
    /// serves this.
    pub fn get_invoice(&self, payment_hash: String) -> (request: Result<Request, Error>)
        ensures
            match self.node {
                NodeBackend::LndRest(adapter) => request matches Ok(Request::LndGetInvoice(call))
                    && call_ensures(LndRest::get_invoice, (&adapter, payment_hash), call),
                _ => request matches Err(e) && e@ == ErrorView::NotImplemented,
            },
    {
        match &self.node {
            NodeBackend::LndRest(adapter) => Ok(
                Request::LndGetInvoice(adapter.get_invoice(payment_hash)),
            ),
            _ => Err(Error::NotImplemented),
        }
    }

    /// The invoice that the answer stands for. An answer of another backend
    /// or to another operation is an error.
    pub fn fetched_invoice(&self, response: Response) -> (result: Result<Invoice, Error>)
        ensures
            match (self.node, response) {
                (NodeBackend::LndRest(_), Response::LndGetInvoice(answer)) => call_ensures(
                    lnd::InvoiceResponse::try_into,
                    (answer,),
                    result,
                ),
                _ => result matches Err(e) && e@ == ErrorView::UnknownError(MISFIT@),
            },
    {
        match (&self.node, response) {
            (NodeBackend::LndRest(_), Response::LndGetInvoice(answer)) => answer.try_into(),
            _ => Err(Error::UnknownError(MISFIT.to_owned())),
        }
    }

    /// How to read `invoice`: LND and Eclair are asked; for Core Lightning
    /// the text is read on the spot.
    pub fn decode_invoice(&self, invoice: String) -> (decoding: Result<Decoding, Error>)
        ensures
            match self.node {
                NodeBackend::LndRest(adapter) => decoding matches Ok(
                    Decoding::Ask(Request::LndDecodeInvoice(call)),
                ) && call_ensures(LndRest::decode_invoice, (&adapter, invoice), call),
                NodeBackend::ClnGrpc(adapter) => match decoding {
                    Ok(Decoding::Done(result)) => call_ensures(
                        ClnGrpc::decode_invoice,
                        (&adapter, invoice),
                        Ok::<DecodeInvoiceResult, Error>(result),
                    ),
                    Ok(_) => false,
                    Err(e) => call_ensures(
                        ClnGrpc::decode_invoice,
                        (&adapter, invoice),
                        Err::<DecodeInvoiceResult, Error>(e),
                    ),
                },
                NodeBackend::EclairRest(adapter) => decoding matches Ok(
                    Decoding::Ask(Request::EclairDecodeInvoice(call, body)),
                ) && call_ensures(EclairRest::decode_invoice, (&adapter, invoice), (call, body)),
            },
    {
        match &self.node {
            NodeBackend::LndRest(adapter) => Ok(
                Decoding::Ask(Request::LndDecodeInvoice(adapter.decode_invoice(invoice))),
            ),
            NodeBackend::ClnGrpc(adapter) => match adapter.decode_invoice(invoice) {
                Ok(result) => Ok(Decoding::Done(result)),
                Err(e) => Err(e),
            },
            NodeBackend::EclairRest(adapter) => {
                let (call, body) = adapter.decode_invoice(invoice);
                Ok(Decoding::Ask(Request::EclairDecodeInvoice(call, body)))
            },
        }
    }

    /// What the answer to reading an invoice stands for: whatever the
    /// adapter says. An answer of another backend or to another operation
    /// is an error.
    pub fn decoded_invoice(&self, response: Response) -> (result: Result<
        DecodeInvoiceResult,
        Error,
    >)
        ensures
            match (self.node, response) {
                (NodeBackend::LndRest(_), Response::LndDecodeInvoice(answer)) => call_ensures(
                    lnd::DecodeInvoiceResponse::try_into,
                    (answer,),
                    result,
                ),
                (
                    NodeBackend::EclairRest(_),
                    Response::EclairDecodeInvoice(answer),
                ) => call_ensures(eclair::DecodeInvoiceResponse::try_into, (answer,), result),
                _ => result matches Err(e) && e@ == ErrorView::UnknownError(MISFIT@),
            },
    {
        match (&self.node, response) {
            (NodeBackend::LndRest(_), Response::LndDecodeInvoice(answer)) => answer.try_into(),
            (NodeBackend::EclairRest(_), Response::EclairDecodeInvoice(answer)) => answer.try_into(
            ),
            _ => Err(Error::UnknownError(MISFIT.to_owned())),
        }
    }
}

} // verus!

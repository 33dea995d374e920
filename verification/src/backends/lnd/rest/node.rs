//! The LND adapter: what it sends with every call, where each call goes,
//! and how it reads an answer's status.

use vstd::prelude::*;
use crate::error::{Error, ErrorView};
use crate::transport::{
    classify_server_error, classify_status, response_class, server_error, Call, Encoding, Header,
    Method, ResponseClass, INVALID_HEADER,
};
use crate::codec::is_header_text;
use crate::types::{CreateInvoiceParams, PayInvoiceParams};
use super::config::LndRestConfig;
use super::types::{ApiError, CreateInvoiceRequest, SendPaymentSyncRequest};

verus! {

/// The header that carries the macaroon.
pub const MACAROON_HEADER: &'static str = "Grpc-Metadata-macaroon";

/// An LND node that is reached over REST. The caller's transport trusts the
/// node's own certificate and sends the headers with every call.
#[derive(Debug, Clone)]
pub struct LndRest {
    pub config: LndRestConfig,
    pub headers: Vec<Header>,
}

impl LndRest {
    /// Whether the adapter is set up for `config`: the macaroon goes out as
    /// a secret header, and nothing else does.
    pub open spec fn serves(&self, config: LndRestConfig) -> bool {
        &&& self.config == config
        &&& self.headers@.len() == 1
        &&& self.headers@[0].is(MACAROON_HEADER@, config.macaroon@, true)
    }

    /// The certificate that the transport has to trust.
    pub fn root_certificate(&self) -> (pem: &Vec<u8>)
        ensures
            pem == self.config.tls_certificate,
    {
        &self.config.tls_certificate
    }

    /// Sets the adapter up. A macaroon that cannot stand in a header is
    /// turned down.
    pub fn new(config: LndRestConfig) -> (node: Result<LndRest, Error>)
        ensures
            is_header_text(config.macaroon@) ==> (node matches Ok(n) && n.serves(config)),
            !is_header_text(config.macaroon@) ==> (node matches Err(e) && e@
                == ErrorView::ApiError(INVALID_HEADER@)),
    {
        let header = match Header::new(MACAROON_HEADER, config.macaroon.clone(), true) {
            Ok(header) => header,
            Err(e) => {
                return Err(e);
            },
        };
        let mut headers: Vec<Header> = Vec::new();
        headers.push(header);
        Ok(LndRest { config, headers })
    }

    /// What the status of an answer means: 200 is the answer, 500 a server
    /// error whose body says more, anything else a failed exchange.
    pub fn on_response(status: u16) -> (class: ResponseClass)
        ensures
            class == response_class(status),
    {
        classify_status(status)
    }

    /// The error that the body of a server error stands for.
    pub fn on_server_error(error: ApiError) -> (err: Error)
        ensures
            err@ == server_error(error.message@),
    {
        classify_server_error(error.message)
    }

    /// The call that creates an invoice, and what it carries.
    pub fn create_invoice(&self, invoice: CreateInvoiceParams) -> (call: (
        Call,
        CreateInvoiceRequest,
    ))
        requires
            invoice.amount_fits(),
        ensures
            call.0.is(Method::Post, self.config.url@ + "/v1/invoices"@, Encoding::Json),
            call.1.asks_for(invoice),
    {
        (
            Call::to(Method::Post, &self.config.url, "/v1/invoices", Encoding::Json),
            CreateInvoiceRequest::from(invoice),
        )
    }

    /// The call that asks the node about itself.
    pub fn get_info(&self) -> (call: Call)
        ensures
            call.is(Method::Get, self.config.url@ + "/v1/getinfo"@, Encoding::Empty),
    {
        Call::to(Method::Get, &self.config.url, "/v1/getinfo", Encoding::Empty)
    }

    /// The call that pays an invoice, and what it carries.
    pub fn pay_invoice(&self, invoice: PayInvoiceParams) -> (call: (Call, SendPaymentSyncRequest))
        requires
            SendPaymentSyncRequest::amounts_fit(invoice),
        ensures
            call.0.is(
                Method::Post,
                self.config.url@ + "/v1/channels/transactions"@,
                Encoding::Json,
            ),
            call.1.pays_as(invoice),
    {
        (
            Call::to(Method::Post, &self.config.url, "/v1/channels/transactions", Encoding::Json),
            SendPaymentSyncRequest::from(invoice),
        )
    }

    /// The call that fetches the invoice with `payment_hash`.
    pub fn get_invoice(&self, payment_hash: String) -> (call: Call)
        ensures
            call.is(
                Method::Get,
                self.config.url@ + "/v1/invoice/"@ + payment_hash@,
                Encoding::Empty,
            ),
    {
        let call = Call::to(Method::Get, &self.config.url, "/v1/invoice/", Encoding::Empty);
        Call { method: call.method, url: call.url.concat(payment_hash.as_str()), encoding: call.encoding }
    }

    /// The call that has the node read `invoice`.
    pub fn decode_invoice(&self, invoice: String) -> (call: Call)
        ensures
            call.is(Method::Get, self.config.url@ + "/v1/payreq/"@ + invoice@, Encoding::Empty),
    {
        let call = Call::to(Method::Get, &self.config.url, "/v1/payreq/", Encoding::Empty);
        Call { method: call.method, url: call.url.concat(invoice.as_str()), encoding: call.encoding }
    }
}

} // verus!

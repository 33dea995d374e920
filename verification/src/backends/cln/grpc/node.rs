//! The Core Lightning adapter: how the channel to the node is secured,
//! which procedure each operation calls, and how a status is read.

use vstd::prelude::*;
use crate::error::{outcome_view, status_error, Error, ErrorView};
use crate::types::{
    CreateInvoiceParams, CreateInvoiceResult, DecodeInvoiceResult, PayInvoiceParams,
};
use super::config::ClnGrpcConfig;
use super::pb::{
    decode_invoice, decoded_text, GetinfoRequest, InvoiceRequest, InvoiceResponse, PayRequest,
};
use crate::codec::{hex_encoded, is_fresh_label};

verus! {

/// The name under which the node's certificate is checked, whatever the
/// address says.
pub const DOMAIN_NAME: &'static str = "cln";

/// How the channel to the node is secured: the node's certificate is the
/// only authority, and the client shows a certificate of its own.
#[derive(Debug, Clone)]
pub struct TlsSettings {
    pub domain_name: String,
    pub ca_certificate: Vec<u8>,
    pub client_certificate: Vec<u8>,
    pub client_key: Vec<u8>,
}

/// A procedure of the node service.
#[derive(Debug, Clone, Copy, PartialEq, Eq, Structural)]
pub enum Rpc {
    Getinfo,
    Invoice,
    Pay,
}

impl Rpc {
    /// The path under which the procedure is called.
    pub open spec fn path_spec(self) -> Seq<char> {
        match self {
            Rpc::Getinfo => "/cln.Node/Getinfo"@,
            Rpc::Invoice => "/cln.Node/Invoice"@,
            Rpc::Pay => "/cln.Node/Pay"@,
        }
    }

    /// The path under which the procedure is called.
    pub fn path(&self) -> (path: &'static str)
        ensures
            path@ == self.path_spec(),
    {
        match self {
            Rpc::Getinfo => "/cln.Node/Getinfo",
            Rpc::Invoice => "/cln.Node/Invoice",
            Rpc::Pay => "/cln.Node/Pay",
        }
    }
}

/// A Core Lightning node that is reached over gRPC. The caller's transport
/// opens a channel to the address, secured as the settings say.
#[derive(Debug, Clone)]
pub struct ClnGrpc {
    pub url: String,
    pub tls: TlsSettings,
}

impl ClnGrpc {
    /// The configuration that the adapter was set up for.
    pub open spec fn checked(&self) -> ClnGrpcConfig {
        ClnGrpcConfig {
            url: self.url,
            tls_certificate: self.tls.ca_certificate,
            tls_client_key: self.tls.client_key,
            tls_client_certificate: self.tls.client_certificate,
        }
    }

    /// Whether the adapter is set up for `config`.
    pub open spec fn serves(&self, config: ClnGrpcConfig) -> bool {
        &&& self.url == config.url
        &&& self.tls.domain_name@ == DOMAIN_NAME@
        &&& self.tls.ca_certificate == config.tls_certificate
        &&& self.tls.client_certificate == config.tls_client_certificate
        &&& self.tls.client_key == config.tls_client_key
    }

    /// Sets the adapter up. It cannot fail: the address was checked with the
    /// configuration, and the channel is only opened with the first call.
    pub fn new(config: ClnGrpcConfig) -> (node: Result<ClnGrpc, Error>)
        ensures
            node matches Ok(n) && n.serves(config),
    {
        Ok(
            ClnGrpc {
                url: config.url,
                tls: TlsSettings {
                    domain_name: DOMAIN_NAME.to_owned(),
                    ca_certificate: config.tls_certificate,
                    client_certificate: config.tls_client_certificate,
                    client_key: config.tls_client_key,
                },
            },
        )
    }

    /// The error for a status that is not OK, from its message.
    pub fn on_status(message: String) -> (err: Error)
        ensures
            err@ == status_error(message@),
    {
        Error::from_status_message(message)
    }

    /// What is sent to ask the node about itself.
    pub fn get_info(&self) -> (request: GetinfoRequest)
        ensures
            request == (GetinfoRequest {  }),
    {
        GetinfoRequest {  }
    }

    /// What is sent to create an invoice. The label of the request is the
    /// label of the invoice.
    pub fn create_invoice(&self, invoice: CreateInvoiceParams) -> (request: Result<
        InvoiceRequest,
        Error,
    >)
        requires
            invoice.amount_fits(),
        ensures
            invoice.label matches Some(label) ==> (request matches Ok(r) && r.asks_for(
                invoice,
                label@,
            )),
            request matches Ok(r) ==> r.asks_for(invoice, r.label@),
            invoice.label is None ==> (request matches Ok(r) ==> is_fresh_label(r.label@)),
            request matches Err(e) ==> e@ == ErrorView::UnknownError(
                "couldn't generate an invoice label"@,
            ),
    {
        InvoiceRequest::from(invoice)
    }

    /// The canonical result for the invoice that the node made under
    /// `label`.
    pub fn created_invoice(response: InvoiceResponse, label: String) -> (result:
        CreateInvoiceResult)
        ensures
            result.payment_request == response.bolt11,
            result.payment_hash@ == hex_encoded(response.payment_hash@),
            result.label == Some(label),
    {
        let made = response.into();
        CreateInvoiceResult {
            payment_request: made.payment_request,
            payment_hash: made.payment_hash,
            label: Some(label),
        }
    }

    /// What is sent to pay an invoice.
    pub fn pay_invoice(&self, invoice: PayInvoiceParams) -> (request: PayRequest)
        requires
            PayRequest::amount_fits(invoice),
        ensures
            request.pays_as(invoice),
    {
        PayRequest::from(invoice)
    }

    /// Reads an invoice. The node is not asked: the text is read here.
    pub fn decode_invoice(&self, invoice: String) -> (result: Result<DecodeInvoiceResult, Error>)
        ensures
            outcome_view(result) == decoded_text(invoice@),
    {
        decode_invoice(invoice.as_str())
    }
}

} // verus!

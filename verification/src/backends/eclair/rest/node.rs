//! The Eclair adapter: what it sends with every call, where each call
//! goes, how it reads an answer's status, and how it counts channels.

use vstd::prelude::*;
use crate::codec::{base64_encode, base64_encoded, byte_len, is_header_text, MAX_CODED_LEN};
use crate::error::{Error, ErrorView};
use crate::transport::{
    classify_server_error, classify_status, response_class, server_error, Call, Encoding, Header,
    Method, ResponseClass, INVALID_HEADER,
};
use crate::types::{ChannelStats, CreateInvoiceParams, NodeInfo, PayInvoiceParams};
use super::config::EclairRestConfig;
use super::types::{
    ApiError, ChannelState, CreateInvoiceRequest, DecodeInvoiceRequest, GetChannelsResponse,
    GetInfoResponse, PayInvoiceRequest,
};

verus! {

/// The header that carries the credentials.
pub const AUTHORIZATION_HEADER: &'static str = "Authorization";

/// An Eclair node that is reached over REST. The caller's transport sends
/// the headers with every call.
#[derive(Debug, Clone)]
pub struct EclairRest {
    pub config: EclairRestConfig,
    pub headers: Vec<Header>,
}

/// Name and password as basic authentication joins them.
pub open spec fn credentials(config: EclairRestConfig) -> Seq<char> {
    config.username@ + ":"@ + config.password@
}

/// The value of the authorization header for `config`.
pub open spec fn authorization(config: EclairRestConfig) -> Seq<char> {
    "Basic "@ + base64_encoded(credentials(config))
}

/// Whether the credentials of `config` can go into a header.
pub open spec fn can_authorize(config: EclairRestConfig) -> bool {
    byte_len(credentials(config)) <= MAX_CODED_LEN && is_header_text(authorization(config))
}

/// Whether a channel is in `state`. No channel counts as closed.
pub open spec fn in_state(channel: GetChannelsResponse, state: ChannelState) -> bool {
    state != ChannelState::Closed && channel.state == state
}

/// How many of `channels` are in `state`.
pub open spec fn count_in_state(channels: Seq<GetChannelsResponse>, state: ChannelState) -> nat
    decreases channels.len(),
{
    if channels.len() == 0 {
        0
    } else {
        count_in_state(channels.drop_last(), state) + if in_state(channels.last(), state) {
            1nat
        } else {
            0nat
        }
    }
}

/// A count as the canonical model holds it; what does not fit counts as the
/// largest value.
pub open spec fn held_count(count: nat) -> i64 {
    if count <= i64::MAX {
        count as i64
    } else {
        i64::MAX
    }
}

/// The channels of a node by state: those in normal operation are active,
/// those offline inactive, those not yet open pending.
pub open spec fn channel_stats(channels: Seq<GetChannelsResponse>) -> ChannelStats {
    ChannelStats {
        active: held_count(count_in_state(channels, ChannelState::Normal)),
        inactive: held_count(count_in_state(channels, ChannelState::Offline)),
        pending: held_count(count_in_state(channels, ChannelState::Pending)),
    }
}

/// Whether a channel is in `state`. No channel counts as closed.
pub fn is_channel_in_state(n: &GetChannelsResponse, state: ChannelState) -> (is: bool)
    ensures
        is == in_state(*n, state),
{
    match state {
        ChannelState::Normal => matches!(n.state, ChannelState::Normal),
        ChannelState::Pending => matches!(n.state, ChannelState::Pending),
        ChannelState::Offline => matches!(n.state, ChannelState::Offline),
        _ => false,
    }
}

/// How many of `channels` are in `state`.
fn count_channels(channels: &Vec<GetChannelsResponse>, state: ChannelState) -> (count: i64)
    ensures
        count == held_count(count_in_state(channels@, state)),
{
    let mut count: i64 = 0;
    let mut i: usize = 0;
    while i < channels.len()
        invariant
            i <= channels@.len(),
            count == held_count(count_in_state(channels@.take(i as int), state)),
        decreases channels@.len() - i,
    {
        proof {
            assert(channels@.take(i as int + 1).drop_last() =~= channels@.take(i as int));
        }
        if is_channel_in_state(&channels[i], state) && count < i64::MAX {
            count = count + 1;
        }
        i = i + 1;
    }
    assert(channels@.take(i as int) =~= channels@);
    count
}

/// Where the adapter stands in asking a node about itself.
#[derive(Debug, Clone)]
pub enum GetInfoState {
    /// Nothing has been asked.
    Start,
    /// The node has been asked about itself.
    AwaitingInfo,
    /// The node has answered about itself and has been asked for its
    /// channels.
    AwaitingChannels(NodeInfo),
    /// There is nothing more to do.
    Finished,
}

/// What happened since the last step.
#[derive(Debug, Clone)]
pub enum GetInfoEvent {
    /// The caller wants the information.
    Begin,
    /// The node answered about itself.
    Info(GetInfoResponse),
    /// The node listed its channels.
    Channels(Vec<GetChannelsResponse>),
}

/// What the caller has to do next.
#[derive(Debug, Clone)]
pub enum GetInfoAction {
    /// Make this call and come back with the answer.
    Send(Call),
    /// Hand this to whoever asked.
    Return(NodeInfo),
    /// Give up with this error.
    Fail(Error),
}

/// What is reported of an event that does not fit the state.
pub const OUT_OF_TURN: &'static str = "answer out of turn";

impl EclairRest {
    /// Whether the adapter is set up for `config`: the credentials go out in
    /// the authorization header, and nothing else does.
    pub open spec fn serves(&self, config: EclairRestConfig) -> bool {
        &&& self.config == config
        &&& self.headers@.len() == 1
        &&& self.headers@[0].is(AUTHORIZATION_HEADER@, authorization(config), false)
    }

    /// Sets the adapter up. Credentials that cannot go into a header are
    /// turned down.
    pub fn new(config: EclairRestConfig) -> (node: Result<EclairRest, Error>)
        ensures
            can_authorize(config) ==> (node matches Ok(n) && n.serves(config)),
            !can_authorize(config) ==> (node matches Err(e) && e@ == ErrorView::ApiError(
                INVALID_HEADER@,
            )),
    {
        let auth = config.username.clone().concat(":").concat(config.password.as_str());
        if auth.as_str().len() > MAX_CODED_LEN {
            return Err(Error::from_invalid_header(INVALID_HEADER.to_owned()));
        }
        let coded = base64_encode(auth.as_str());
        let value = "Basic ".to_owned().concat(coded.as_str());
        let header = match Header::new(AUTHORIZATION_HEADER, value, false) {
            Ok(header) => header,
            Err(e) => {
                return Err(e);
            },
        };
        let mut headers: Vec<Header> = Vec::new();
        headers.push(header);
        Ok(EclairRest { config, headers })
    }

    /// What the status of an answer means: 200 is the answer, 500 a server
    /// error whose body says more, anything else a failed exchange.
    pub fn on_response(status: u16) -> (class: ResponseClass)
        ensures
            class == response_class(status),
    {
        classify_status(status)
    }

    /// The error that the body of a server error stands for.
    pub fn on_server_error(error: ApiError) -> (err: Error)
        ensures
            err@ == server_error(error.message@),
    {
        classify_server_error(error.message)
    }

    /// The call that creates an invoice, and what it carries.
    pub fn create_invoice(&self, invoice: CreateInvoiceParams) -> (call: (
        Call,
        CreateInvoiceRequest,
    ))
        requires
            invoice.amount_fits(),
        ensures
            call.0.is(Method::Post, self.config.url@ + "/createinvoice"@, Encoding::Form),
            call.1.asks_for(invoice),
    {
        (
            Call::to(Method::Post, &self.config.url, "/createinvoice", Encoding::Form),
            CreateInvoiceRequest::from(invoice),
        )
    }

    /// The call that pays an invoice, and what it carries.
    pub fn pay_invoice(&self, invoice: PayInvoiceParams) -> (call: (Call, PayInvoiceRequest))
        requires
            PayInvoiceRequest::amounts_fit(invoice),
        ensures
            call.0.is(Method::Post, self.config.url@ + "/payinvoice"@, Encoding::Form),
            call.1.pays_as(invoice),
    {
        (
            Call::to(Method::Post, &self.config.url, "/payinvoice", Encoding::Form),
            PayInvoiceRequest::from(invoice),
        )
    }

    /// The call that has the node read `invoice`, and what it carries.
    pub fn decode_invoice(&self, invoice: String) -> (call: (Call, DecodeInvoiceRequest))
        ensures
            call.0.is(Method::Post, self.config.url@ + "/parseinvoice"@, Encoding::Form),
            call.1.invoice == invoice,
    {
        (
            Call::to(Method::Post, &self.config.url, "/parseinvoice", Encoding::Form),
            DecodeInvoiceRequest::from(invoice),
        )
    }

    /// The call that asks the node about itself.
    pub fn info_call(&self) -> (call: Call)
        ensures
            call.is(Method::Post, self.config.url@ + "/getinfo"@, Encoding::Empty),
    {
        Call::to(Method::Post, &self.config.url, "/getinfo", Encoding::Empty)
    }

    /// The call that lists the channels of the node.
    pub fn channels_call(&self) -> (call: Call)
        ensures
            call.is(Method::Post, self.config.url@ + "/channels"@, Encoding::Empty),
    {
        Call::to(Method::Post, &self.config.url, "/channels", Encoding::Empty)
    }

    /// The node information, with the channels counted by state.
    pub fn node_info(info: NodeInfo, channels: &Vec<GetChannelsResponse>) -> (counted: NodeInfo)
        ensures
            counted.backend == info.backend,
            counted.version == info.version,
            counted.network == info.network,
            counted.node_pubkey == info.node_pubkey,
            counted.channels == channel_stats(channels@),
    {
        NodeInfo {
            backend: info.backend,
            version: info.version,
            network: info.network,
            node_pubkey: info.node_pubkey,
            channels: ChannelStats {
                active: count_channels(channels, ChannelState::Normal),
                inactive: count_channels(channels, ChannelState::Offline),
                pending: count_channels(channels, ChannelState::Pending),
            },
        }
    }

    /// Whether `next` and `action` are the step that follows from `state`
    /// on `event`: first the node is asked about itself, then for its
    /// channels, then the counted information is returned; an event out of
    /// turn ends the exchange with an error.
    pub open spec fn get_info_step(
        &self,
        state: GetInfoState,
        event: GetInfoEvent,
        next: GetInfoState,
        action: GetInfoAction,
    ) -> bool {
        match (state, event) {
            (GetInfoState::Start, GetInfoEvent::Begin) => {
                &&& next is AwaitingInfo
                &&& action matches GetInfoAction::Send(call) && call.is(
                    Method::Post,
                    self.config.url@ + "/getinfo"@,
                    Encoding::Empty,
                )
            },
            (GetInfoState::AwaitingInfo, GetInfoEvent::Info(response)) => {
                &&& next matches GetInfoState::AwaitingChannels(info) && info.version
                    == response.version && info.node_pubkey == response.node_id && info.network@
                    == crate::types::network_named(response.network@, super::types::MAINNET_NAME@)
                    && info.backend == crate::types::Backend::EclairRest
                &&& action matches GetInfoAction::Send(call) && call.is(
                    Method::Post,
                    self.config.url@ + "/channels"@,
                    Encoding::Empty,
                )
            },
            (GetInfoState::AwaitingChannels(info), GetInfoEvent::Channels(channels)) => {
                &&& next is Finished
                &&& action matches GetInfoAction::Return(counted) && counted.backend
                    == info.backend && counted.version == info.version && counted.network
                    == info.network && counted.node_pubkey == info.node_pubkey && counted.channels
                    == channel_stats(channels@)
            },
            _ => {
                &&& next is Finished
                &&& action matches GetInfoAction::Fail(e) && e@ == ErrorView::UnknownError(
                    OUT_OF_TURN@,
                )
            },
        }
    }

    /// One step of asking the node about itself: from where the exchange
    /// stands and what happened to where it stands next and what to do.
    pub fn get_info(&self, state: GetInfoState, event: GetInfoEvent) -> (step: (
        GetInfoState,
        GetInfoAction,
    ))
        ensures
            self.get_info_step(state, event, step.0, step.1),
    {
        match (state, event) {
            (GetInfoState::Start, GetInfoEvent::Begin) => (
                GetInfoState::AwaitingInfo,
                GetInfoAction::Send(self.info_call()),
            ),
            (GetInfoState::AwaitingInfo, GetInfoEvent::Info(response)) => (
                GetInfoState::AwaitingChannels(response.into()),
                GetInfoAction::Send(self.channels_call()),
            ),
            (GetInfoState::AwaitingChannels(info), GetInfoEvent::Channels(channels)) => (
                GetInfoState::Finished,
                GetInfoAction::Return(EclairRest::node_info(info, &channels)),
            ),
            _ => (
                GetInfoState::Finished,
                GetInfoAction::Fail(Error::UnknownError(OUT_OF_TURN.to_owned())),
            ),
        }
    }
}

} // verus!

use una_core::backends::eclair::rest::config::EclairRestConfig;
use una_core::backends::eclair::rest::node::{
    is_channel_in_state, EclairRest, GetInfoAction, GetInfoEvent, GetInfoState,
};
use una_core::backends::eclair::rest::types::{
    extract_feature_status, Activated, ApiError, ChannelState, CreateInvoiceRequest,
    CreateInvoiceResponse, DecodeInvoiceRequest, DecodeInvoiceResponse, DecodeInvoiceRoutingInfo,
    Features, GetChannelsResponse, GetInfoResponse, PayInvoiceRequest, PayInvoiceResponse,
    PaymentFailure, PaymentPart, RouteError, Timestamp,
};
use una_core::error::Error;
use una_core::transport::{Encoding, Method, ResponseClass};
use una_core::types::{
    Backend, CreateInvoiceParams, FeatureActivationStatus, Network, PayInvoiceParams, Percent,
};

fn eclair_config() -> EclairRestConfig {
    EclairRestConfig {
        url: "http://127.0.0.1:8283".to_string(),
        username: "alice".to_string(),
        password: "secret".to_string(),
    }
}

fn eclair_node() -> EclairRest {
    EclairRest::new(eclair_config()).unwrap()
}

fn eclair_invoice_params() -> CreateInvoiceParams {
    CreateInvoiceParams {
        amount: None,
        amount_msat: None,
        description: None,
        description_hash: None,
        label: None,
        expire_in: None,
        fallback_address: None,
        payment_preimage: None,
        cltv_expiry: None,
    }
}

fn eclair_pay_params() -> PayInvoiceParams {
    PayInvoiceParams {
        payment_request: "lnbc1".to_string(),
        amount: None,
        amount_msat: None,
        max_fee_sat: None,
        max_fee_msat: None,
        max_fee_percent: None,
    }
}

fn part(fees_paid: i64) -> PaymentPart {
    PaymentPart {
        id: "part".to_string(),
        amount: 1000,
        fees_paid,
        to_channel_id: "channel".to_string(),
        route: Vec::new(),
        timestamp: Timestamp { iso: "2022-01-01T00:00:00Z".to_string(), unix: 1_640_995_200 },
    }
}

fn sent(parts: Option<Vec<PaymentPart>>) -> PayInvoiceResponse {
    PayInvoiceResponse {
        type_field: "payment-sent".to_string(),
        id: "id".to_string(),
        payment_hash: "hash".to_string(),
        payment_preimage: Some("preimage".to_string()),
        recipient_amount: Some(1000),
        recipient_node_id: Some("node".to_string()),
        parts,
        failures: None,
    }
}

fn failed(failures: Option<Vec<PaymentFailure>>) -> PayInvoiceResponse {
    PayInvoiceResponse {
        type_field: "payment-failed".to_string(),
        id: "id".to_string(),
        payment_hash: "hash".to_string(),
        payment_preimage: None,
        recipient_amount: None,
        recipient_node_id: None,
        parts: None,
        failures,
    }
}

fn eclair_failure(route_error: Option<&str>, error: Option<&str>) -> PaymentFailure {
    PaymentFailure {
        amount: 1000,
        route: Vec::new(),
        route_error: route_error.map(|message| RouteError {
            origin_node: "origin".to_string(),
            failure_message: message.to_string(),
        }),
        error: error.map(|text| text.to_string()),
    }
}

fn api_error(result: Result<una_core::types::PayInvoiceResult, Error>) -> String {
    match result {
        Err(Error::ApiError(text)) => text,
        other => panic!("expected an API error, got {:?}", other),
    }
}

fn channel(state: ChannelState) -> GetChannelsResponse {
    GetChannelsResponse { state }
}

fn info(network: &str) -> GetInfoResponse {
    GetInfoResponse {
        version: "0.7.0".to_string(),
        node_id: "02aa".to_string(),
        alias: "eclair".to_string(),
        color: "#49daaa".to_string(),
        network: network.to_string(),
    }
}

fn eclair_decoded_answer() -> DecodeInvoiceResponse {
    DecodeInvoiceResponse {
        prefix: "lnbcrt".to_string(),
        timestamp: 1_643_718_891,
        node_id: "03ab".to_string(),
        serialized: "lnbcrt500n1".to_string(),
        description: Some("coffee".to_string()),
        payment_hash: "7f6a".to_string(),
        payment_metadata: None,
        expiry: 3600,
        min_final_cltv_expiry: Some(30),
        amount: 50_999,
        features: Features {
            activated: Activated {
                var_onion_optin: Some("mandatory".to_string()),
                payment_secret: Some("mandatory".to_string()),
                basic_mpp: Some("optional".to_string()),
                option_payment_metadata: None,
            },
            unknown: Vec::new(),
        },
        routing_info: vec![
            vec![
                DecodeInvoiceRoutingInfo {
                    node_id: "02n1".to_string(),
                    short_channel_id: "1x2x3".to_string(),
                    fee_base: 1,
                    fee_proportional_millionths: 20,
                    cltv_expiry_delta: 3,
                },
                DecodeInvoiceRoutingInfo {
                    node_id: "02n2".to_string(),
                    short_channel_id: "4x5x6".to_string(),
                    fee_base: 2,
                    fee_proportional_millionths: 30,
                    cltv_expiry_delta: 4,
                },
            ],
            vec![],
        ],
    }
}

#[test]
fn eclair_sends_basic_credentials() {
    let node = eclair_node();
    assert_eq!(node.headers.len(), 1);
    assert_eq!(node.headers[0].name, "Authorization");
    assert_eq!(node.headers[0].value, "Basic YWxpY2U6c2VjcmV0");
    assert!(!node.headers[0].sensitive);
    assert_eq!(node.config.url, "http://127.0.0.1:8283");
}

#[test]
fn eclair_credentials_may_hold_anything() {
    let node = EclairRest::new(EclairRestConfig {
        url: "http://node".to_string(),
        username: String::new(),
        password: "p\u{e4}ss:w\nrd".to_string(),
    })
    .unwrap();
    assert_eq!(node.headers[0].value, "Basic OnDDpHNzOncKcmQ=");
}

#[test]
fn eclair_reads_the_status_of_an_answer() {
    assert_eq!(EclairRest::on_response(200), ResponseClass::Success);
    assert_eq!(EclairRest::on_response(500), ResponseClass::ServerError);
    assert_eq!(EclairRest::on_response(404), ResponseClass::Failure);
    assert_eq!(EclairRest::on_response(201), ResponseClass::Failure);
    assert_eq!(EclairRest::on_response(503), ResponseClass::Failure);
}

#[test]
fn eclair_server_error_is_classified() {
    match EclairRest::on_server_error(ApiError { message: "permission denied".to_string() }) {
        Error::Unauthorized => {}
        other => panic!("unexpected {:?}", other),
    }
    match EclairRest::on_server_error(ApiError { message: "invoice expired".to_string() }) {
        Error::ApiError(text) => assert_eq!(text, "invoice expired"),
        other => panic!("unexpected {:?}", other),
    }
}

#[test]
fn eclair_invoice_request_uses_millisatoshis_when_both_amounts_are_given() {
    let request = CreateInvoiceRequest::from(CreateInvoiceParams {
        amount: Some(5),
        amount_msat: Some(1234),
        ..eclair_invoice_params()
    });
    assert_eq!(request.amount_msat, 1234);
}

#[test]
fn eclair_invoice_request_fills_in_what_is_missing() {
    let request = CreateInvoiceRequest::from(eclair_invoice_params());
    assert_eq!(request.amount_msat, 0);
    assert_eq!(request.expire_in, 3600);
    assert_eq!(request.description, None);
    let request = CreateInvoiceRequest::from(CreateInvoiceParams {
        amount: Some(5),
        description: Some("tea".to_string()),
        description_hash: Some("hash".to_string()),
        expire_in: Some(60),
        fallback_address: Some("bc1q".to_string()),
        payment_preimage: Some("00".to_string()),
        ..eclair_invoice_params()
    });
    assert_eq!(request.amount_msat, 5000);
    assert_eq!(request.expire_in, 60);
    assert_eq!(request.description.as_deref(), Some("tea"));
    assert_eq!(request.description_hash.as_deref(), Some("hash"));
    assert_eq!(request.fallback_address.as_deref(), Some("bc1q"));
    assert_eq!(request.payment_preimage.as_deref(), Some("00"));
}

#[test]
fn eclair_invoice_result_carries_the_description_as_label() {
    let result = CreateInvoiceResponse {
        serialized: "lnbc1".to_string(),
        payment_hash: "abcd".to_string(),
        description: Some("tea".to_string()),
    }
    .into();
    assert_eq!(result.payment_request, "lnbc1");
    assert_eq!(result.payment_hash, "abcd");
    assert_eq!(result.label.as_deref(), Some("tea"));
}

#[test]
fn eclair_calls_go_to_their_paths() {
    let node = eclair_node();
    let (call, _) = node.create_invoice(eclair_invoice_params());
    assert_eq!(call.url, "http://127.0.0.1:8283/createinvoice");
    assert_eq!(call.method, Method::Post);
    assert_eq!(call.encoding, Encoding::Form);
    let (call, body) = node.pay_invoice(eclair_pay_params());
    assert_eq!(call.url, "http://127.0.0.1:8283/payinvoice");
    assert_eq!(body.invoice, "lnbc1");
    let (call, body) = node.decode_invoice("lnbc2".to_string());
    assert_eq!(call.url, "http://127.0.0.1:8283/parseinvoice");
    assert_eq!(body.invoice, "lnbc2");
    assert_eq!(node.info_call().url, "http://127.0.0.1:8283/getinfo");
    assert_eq!(node.info_call().encoding, Encoding::Empty);
    assert_eq!(node.channels_call().url, "http://127.0.0.1:8283/channels");
    assert_eq!(DecodeInvoiceRequest::from("x".to_string()).invoice, "x");
}

#[test]
fn eclair_pay_request_resolves_amounts_and_cuts_the_percentage() {
    let request = PayInvoiceRequest::from(PayInvoiceParams {
        amount: Some(3),
        amount_msat: Some(7),
        max_fee_sat: None,
        max_fee_msat: Some(5_999),
        max_fee_percent: Some(Percent { bits: 2.75f64.to_bits() }),
        ..eclair_pay_params()
    });
    assert_eq!(request.amount_msat, Some(3000));
    assert_eq!(request.max_fee_flat_sat, Some(5));
    assert_eq!(request.max_fee_pct, Some(2));
    assert!(request.blocking);
    assert_eq!(request.max_attempts, None);
    assert_eq!(request.external_id, None);
    assert_eq!(request.path_finding_experiment_name, None);
    let request = PayInvoiceRequest::from(eclair_pay_params());
    assert_eq!(request.amount_msat, None);
    assert_eq!(request.max_fee_flat_sat, None);
    assert_eq!(request.max_fee_pct, None);
}

#[test]
fn eclair_flat_fee_ceiling_goes_out_in_satoshis() {
    let request = PayInvoiceRequest::from(PayInvoiceParams {
        amount: Some(2),
        max_fee_sat: Some(5),
        ..eclair_pay_params()
    });
    assert_eq!(request.invoice, "lnbc1");
    assert_eq!(request.amount_msat, Some(2000));
    assert_eq!(request.max_fee_flat_sat, Some(5));
    assert!(request.blocking);
    let request = PayInvoiceRequest::from(PayInvoiceParams {
        max_fee_sat: Some(5),
        max_fee_msat: Some(9_000),
        ..eclair_pay_params()
    });
    assert_eq!(request.max_fee_flat_sat, Some(5));
    let request = PayInvoiceRequest::from(PayInvoiceParams {
        max_fee_sat: Some(u64::MAX),
        ..eclair_pay_params()
    });
    assert_eq!(request.max_fee_flat_sat, Some(u64::MAX));
    let request = PayInvoiceRequest::from(PayInvoiceParams {
        max_fee_msat: Some(999),
        ..eclair_pay_params()
    });
    assert_eq!(request.max_fee_flat_sat, Some(0));
}

#[test]
fn eclair_failed_payment_reports_the_route_error() {
    let response = failed(Some(vec![
        eclair_failure(Some("FeeInsufficient"), Some("generic")),
        eclair_failure(Some("later"), None),
    ]));
    assert_eq!(api_error(response.try_into()), "FeeInsufficient");
}

#[test]
fn eclair_failed_payment_falls_back_on_the_error_text() {
    let response = failed(Some(vec![eclair_failure(None, Some("route not found"))]));
    assert_eq!(api_error(response.try_into()), "route not found");
}

#[test]
fn eclair_failed_payment_without_a_reason_has_a_stock_message() {
    let stock = "error paying invoice, couldn't extract error message";
    assert_eq!(api_error(failed(None).try_into()), stock);
    assert_eq!(api_error(failed(Some(vec![])).try_into()), stock);
    assert_eq!(api_error(failed(Some(vec![eclair_failure(None, None)])).try_into()), stock);
}

#[test]
fn eclair_failed_payment_is_an_error_even_with_a_preimage() {
    let mut response = failed(Some(vec![eclair_failure(Some("boom"), None)]));
    response.payment_preimage = Some("preimage".to_string());
    response.parts = Some(vec![part(1)]);
    assert_eq!(api_error(response.try_into()), "boom");
}

#[test]
fn eclair_fees_are_the_sum_of_the_parts() {
    let result = sent(Some(vec![part(10), part(0), part(32)])).try_into().unwrap();
    assert_eq!(result.fees_msat, Some(42));
    assert_eq!(result.payment_hash, "hash");
    assert_eq!(result.payment_preimage, "preimage");
    assert_eq!(sent(Some(vec![part(7)])).try_into().unwrap().fees_msat, Some(7));
    assert_eq!(sent(Some(vec![])).try_into().unwrap().fees_msat, Some(0));
    assert_eq!(sent(None).try_into().unwrap().fees_msat, None);
    assert_eq!(
        sent(Some(vec![part(i64::MAX), part(i64::MAX), part(1)])).try_into().unwrap().fees_msat,
        Some(u64::MAX)
    );
}

#[test]
fn eclair_fees_that_cannot_be_summed_are_a_conversion_error() {
    for parts in [vec![part(5), part(-1)], vec![part(i64::MAX), part(i64::MAX), part(2)]] {
        match sent(Some(parts)).try_into() {
            Err(Error::ConversionError(text)) => assert_eq!(text, "couldn't add up the fees paid"),
            other => panic!("unexpected {:?}", other),
        }
    }
}

#[test]
fn eclair_payment_without_preimage_is_an_error() {
    let mut response = sent(Some(vec![part(1)]));
    response.payment_preimage = None;
    assert_eq!(api_error(response.try_into()), "invoice paid but missing preimage");
}

#[test]
fn eclair_feature_words_are_mapped() {
    assert_eq!(
        extract_feature_status(Some("optional".to_string())),
        FeatureActivationStatus::Optional
    );
    assert_eq!(
        extract_feature_status(Some("mandatory".to_string())),
        FeatureActivationStatus::Mandatory
    );
    assert_eq!(
        extract_feature_status(Some("Mandatory".to_string())),
        FeatureActivationStatus::Unknown
    );
    assert_eq!(extract_feature_status(None), FeatureActivationStatus::Unknown);
}

#[test]
fn eclair_decoded_invoice_is_mapped() {
    let result = eclair_decoded_answer().try_into().unwrap();
    assert_eq!(result.creation_date, 1_643_718_891);
    assert_eq!(result.amount, Some(50));
    assert_eq!(result.amount_msat, Some(50_999));
    assert_eq!(result.destination.as_deref(), Some("03ab"));
    assert_eq!(result.memo.as_deref(), Some("coffee"));
    assert_eq!(result.payment_hash, "7f6a");
    assert_eq!(result.expiry, 3600);
    assert_eq!(result.min_final_cltv_expiry, 30);
    let features = result.features.unwrap();
    assert_eq!(features.var_onion_optin, FeatureActivationStatus::Mandatory);
    assert_eq!(features.payment_secret, FeatureActivationStatus::Mandatory);
    assert_eq!(features.basic_mpp, FeatureActivationStatus::Optional);
    assert_eq!(features.option_payment_metadata, FeatureActivationStatus::Unknown);
    assert_eq!(result.route_hints.len(), 2);
    assert_eq!(result.route_hints[0].hop_hints.len(), 2);
    assert_eq!(result.route_hints[1].hop_hints.len(), 0);
    let hop = &result.route_hints[0].hop_hints[1];
    assert_eq!(hop.node_id, "02n2");
    assert_eq!(hop.chan_id, "4x5x6");
    assert_eq!(hop.fee_base_msat, 2);
    assert_eq!(hop.fee_proportional_millionths, 30);
    assert_eq!(hop.cltv_expiry_delta, 4);
    assert_eq!(result.route_hints[0].hop_hints[0].node_id, "02n1");
}

#[test]
fn eclair_decoded_invoice_without_cltv_expiry_has_the_default() {
    let mut answer = eclair_decoded_answer();
    answer.min_final_cltv_expiry = None;
    assert_eq!(answer.try_into().unwrap().min_final_cltv_expiry, 18);
    let mut answer = eclair_decoded_answer();
    answer.min_final_cltv_expiry = Some(0);
    assert_eq!(answer.try_into().unwrap().min_final_cltv_expiry, 0);
}

#[test]
fn eclair_networks_are_mapped() {
    assert!(matches!(info("mainnet").into().network, Network::Mainnet));
    assert!(matches!(info("testnet").into().network, Network::Testnet));
    assert!(matches!(info("regtest").into().network, Network::Regtest));
    match info("signet").into().network {
        Network::Unknown(name) => assert_eq!(name, "signet"),
        other => panic!("unexpected {:?}", other),
    }
    match info("bitcoin").into().network {
        Network::Unknown(name) => assert_eq!(name, "bitcoin"),
        other => panic!("unexpected {:?}", other),
    }
}

#[test]
fn eclair_node_info_starts_without_channels() {
    let node_info = info("regtest").into();
    assert_eq!(node_info.backend, Backend::EclairRest);
    assert_eq!(node_info.version, "0.7.0");
    assert_eq!(node_info.node_pubkey, "02aa");
    assert_eq!(node_info.channels.active, 0);
    assert_eq!(node_info.channels.inactive, 0);
    assert_eq!(node_info.channels.pending, 0);
}

#[test]
fn eclair_channel_is_never_in_the_closed_state() {
    assert!(is_channel_in_state(&channel(ChannelState::Normal), ChannelState::Normal));
    assert!(is_channel_in_state(&channel(ChannelState::Offline), ChannelState::Offline));
    assert!(is_channel_in_state(&channel(ChannelState::Pending), ChannelState::Pending));
    assert!(!is_channel_in_state(&channel(ChannelState::Closed), ChannelState::Closed));
    assert!(!is_channel_in_state(&channel(ChannelState::Normal), ChannelState::Offline));
    assert!(!is_channel_in_state(&channel(ChannelState::Closed), ChannelState::Normal));
}

#[test]
fn eclair_channels_are_counted_by_state() {
    let channels = vec![
        channel(ChannelState::Normal),
        channel(ChannelState::Closed),
        channel(ChannelState::Offline),
        channel(ChannelState::Normal),
        channel(ChannelState::Pending),
        channel(ChannelState::Normal),
    ];
    let counted = EclairRest::node_info(info("regtest").into(), &channels);
    assert_eq!(counted.channels.active, 3);
    assert_eq!(counted.channels.inactive, 1);
    assert_eq!(counted.channels.pending, 1);
    assert_eq!(counted.version, "0.7.0");
    let counted = EclairRest::node_info(info("regtest").into(), &Vec::new());
    assert_eq!(counted.channels.active, 0);
}

#[test]
fn eclair_get_info_asks_twice_then_returns() {
    let node = eclair_node();
    let (state, action) = node.get_info(GetInfoState::Start, GetInfoEvent::Begin);
    match action {
        GetInfoAction::Send(call) => assert_eq!(call.url, "http://127.0.0.1:8283/getinfo"),
        other => panic!("unexpected {:?}", other),
    }
    assert!(matches!(state, GetInfoState::AwaitingInfo));
    let (state, action) = node.get_info(state, GetInfoEvent::Info(info("signet")));
    match action {
        GetInfoAction::Send(call) => assert_eq!(call.url, "http://127.0.0.1:8283/channels"),
        other => panic!("unexpected {:?}", other),
    }
    assert!(matches!(state, GetInfoState::AwaitingChannels(_)));
    let channels = vec![channel(ChannelState::Normal), channel(ChannelState::Pending)];
    let (state, action) = node.get_info(state, GetInfoEvent::Channels(channels));
    assert!(matches!(state, GetInfoState::Finished));
    match action {
        GetInfoAction::Return(node_info) => {
            assert_eq!(node_info.channels.active, 1);
            assert_eq!(node_info.channels.pending, 1);
            assert_eq!(node_info.channels.inactive, 0);
            assert_eq!(node_info.node_pubkey, "02aa");
            match node_info.network {
                Network::Unknown(name) => assert_eq!(name, "signet"),
                other => panic!("unexpected {:?}", other),
            }
        }
        other => panic!("unexpected {:?}", other),
    }
}

#[test]
fn eclair_get_info_fails_on_an_event_out_of_turn() {
    let node = eclair_node();
    let (state, action) = node.get_info(GetInfoState::Start, GetInfoEvent::Channels(Vec::new()));
    assert!(matches!(state, GetInfoState::Finished));
    match action {
        GetInfoAction::Fail(Error::UnknownError(text)) => assert_eq!(text, "answer out of turn"),
        other => panic!("unexpected {:?}", other),
    }
    let (_, action) = node.get_info(GetInfoState::AwaitingInfo, GetInfoEvent::Begin);
    assert!(matches!(action, GetInfoAction::Fail(_)));
    let (_, action) = node.get_info(GetInfoState::Finished, GetInfoEvent::Begin);
    assert!(matches!(action, GetInfoAction::Fail(_)));
}

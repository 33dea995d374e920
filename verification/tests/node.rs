use una_core::backends::cln::grpc::pb;
use una_core::backends::eclair::rest::types as eclair;
use una_core::backends::lnd::rest::types as lnd;
use una_core::error::{ConfigError, Error};
use una_core::node::{Decoding, Node, NodeBackend, Request, Response};
use una_core::types::{Backend, CreateInvoiceParams, Network, NodeConfig, PayInvoiceParams};

fn node_text(s: &str) -> Option<String> {
    Some(s.to_string())
}

fn node_config() -> NodeConfig {
    NodeConfig {
        url: node_text("https://127.0.0.1:8080"),
        macaroon: node_text("0201036c6e64"),
        tls_certificate: node_text("0a0b"),
        tls_client_key: node_text("0c"),
        tls_client_certificate: node_text("0d"),
        username: node_text("alice"),
        password: node_text("secret"),
    }
}

fn node_node(backend: Backend) -> Node {
    Node::new(backend, node_config()).unwrap()
}

fn node_invoice_params() -> CreateInvoiceParams {
    CreateInvoiceParams {
        amount: Some(2),
        amount_msat: Some(1500),
        description: Some("tea".to_string()),
        description_hash: None,
        label: Some("label".to_string()),
        expire_in: None,
        fallback_address: None,
        payment_preimage: None,
        cltv_expiry: None,
    }
}

fn node_pay_params() -> PayInvoiceParams {
    PayInvoiceParams {
        payment_request: "lnbc1".to_string(),
        amount: Some(2),
        amount_msat: None,
        max_fee_sat: None,
        max_fee_msat: Some(10_500),
        max_fee_percent: None,
    }
}

fn misfit<T: std::fmt::Debug>(result: Result<T, Error>) {
    match result {
        Err(Error::UnknownError(text)) => assert_eq!(text, "answer does not fit the request"),
        other => panic!("unexpected {:?}", other),
    }
}

fn eclair_info() -> eclair::GetInfoResponse {
    eclair::GetInfoResponse {
        version: "0.7.0".to_string(),
        node_id: "02aa".to_string(),
        alias: "eclair".to_string(),
        color: "#49daaa".to_string(),
        network: "regtest".to_string(),
    }
}

fn cln_info(network: &str) -> pb::GetinfoResponse {
    pb::GetinfoResponse {
        id: vec![2],
        alias: "cln".to_string(),
        color: vec![],
        num_peers: 0,
        num_pending_channels: 0,
        num_active_channels: 1,
        num_inactive_channels: 0,
        version: "v0.11.2".to_string(),
        lightning_dir: "/data".to_string(),
        blockheight: 1,
        network: network.to_string(),
    }
}

#[test]
fn node_is_made_for_each_backend_that_is_served() {
    let lnd_node = node_node(Backend::LndRest);
    assert_eq!(lnd_node.backend, Backend::LndRest);
    match &lnd_node.node {
        NodeBackend::LndRest(adapter) => {
            assert_eq!(adapter.config.tls_certificate, vec![0x0a, 0x0b]);
            assert_eq!(adapter.headers[0].value, "0201036c6e64");
        }
        other => panic!("unexpected {:?}", other),
    }
    let cln_node = node_node(Backend::ClnGrpc);
    assert_eq!(cln_node.backend, Backend::ClnGrpc);
    match &cln_node.node {
        NodeBackend::ClnGrpc(adapter) => {
            assert_eq!(adapter.tls.ca_certificate, vec![0x0a, 0x0b]);
            assert_eq!(adapter.tls.client_key, vec![0x0c]);
            assert_eq!(adapter.tls.client_certificate, vec![0x0d]);
        }
        other => panic!("unexpected {:?}", other),
    }
    let eclair_node = node_node(Backend::EclairRest);
    assert_eq!(eclair_node.backend, Backend::EclairRest);
    match &eclair_node.node {
        NodeBackend::EclairRest(adapter) => {
            assert_eq!(adapter.headers[0].value, "Basic YWxpY2U6c2VjcmV0");
        }
        other => panic!("unexpected {:?}", other),
    }
}

#[test]
fn node_is_not_made_for_lnd_over_grpc() {
    assert!(matches!(Node::new(Backend::LndGrpc, node_config()), Err(Error::InvalidBackend)));
}

#[test]
fn node_is_not_made_for_an_invalid_backend() {
    assert!(matches!(Node::new(Backend::InvalidBackend, node_config()), Err(Error::InvalidBackend)));
    assert!(matches!(
        Node::new(Backend::from("Lnd"), node_config()),
        Err(Error::InvalidBackend)
    ));
}

#[test]
fn node_is_not_made_from_a_faulty_configuration() {
    match Node::new(Backend::LndRest, NodeConfig { macaroon: None, ..node_config() }) {
        Err(Error::ConfigError(ConfigError::MissingField(name))) => assert_eq!(name, "macaroon"),
        other => panic!("unexpected {:?}", other),
    }
    match Node::new(Backend::LndRest, NodeConfig { url: node_text("not-a-url"), ..node_config() }) {
        Err(Error::ConfigError(ConfigError::InvalidField(name))) => assert_eq!(name, "url"),
        other => panic!("unexpected {:?}", other),
    }
    match Node::new(Backend::ClnGrpc, NodeConfig { tls_client_key: node_text("0g"), ..node_config() }) {
        Err(Error::ConfigError(ConfigError::ParsingHexError(name))) => {
            assert_eq!(name, "tls_client_key")
        }
        other => panic!("unexpected {:?}", other),
    }
    match Node::new(Backend::EclairRest, NodeConfig { password: None, ..node_config() }) {
        Err(Error::ConfigError(ConfigError::MissingField(name))) => assert_eq!(name, "password"),
        other => panic!("unexpected {:?}", other),
    }
    match Node::new(Backend::LndRest, NodeConfig { macaroon: node_text("a\nb"), ..node_config() }) {
        Err(Error::ConfigError(ConfigError::ParsingHexError(name))) => {
            assert_eq!(name, "macaroon")
        }
        other => panic!("unexpected {:?}", other),
    }
    let config = NodeConfig { username: node_text("a\nb"), password: node_text(""), ..node_config() };
    assert!(Node::new(Backend::EclairRest, config).is_ok());
}

#[test]
fn backend_is_selected_by_name() {
    assert_eq!(Backend::from("LndRest"), Backend::LndRest);
    assert_eq!(Backend::from("LndGrpc"), Backend::LndGrpc);
    assert_eq!(Backend::from("ClnGrpc"), Backend::ClnGrpc);
    assert_eq!(Backend::from("EclairRest"), Backend::EclairRest);
    assert_eq!(Backend::from("InvalidBackend"), Backend::InvalidBackend);
    assert_eq!(Backend::from("lndrest"), Backend::InvalidBackend);
    assert_eq!(Backend::from(""), Backend::InvalidBackend);
}

#[test]
fn backend_has_its_name() {
    for backend in [
        Backend::LndRest,
        Backend::LndGrpc,
        Backend::ClnGrpc,
        Backend::EclairRest,
        Backend::InvalidBackend,
    ] {
        assert_eq!(Backend::from(backend.to_string().as_str()), backend);
    }
    assert_eq!(Backend::EclairRest.to_string(), "EclairRest");
}

#[test]
fn network_is_named_in_the_backends_words() {
    assert!(matches!(Network::from_name(&"bitcoin".to_string(), "bitcoin"), Network::Mainnet));
    assert!(matches!(Network::from_name(&"regtest".to_string(), "bitcoin"), Network::Regtest));
    assert!(matches!(Network::from_name(&"testnet".to_string(), "mainnet"), Network::Testnet));
    match Network::from_name(&"signet".to_string(), "mainnet") {
        Network::Unknown(name) => assert_eq!(name, "signet"),
        other => panic!("unexpected {:?}", other),
    }
}

#[test]
fn millisatoshis_count_when_both_amounts_are_given() {
    assert_eq!(node_invoice_params().resolved_amount_msat(), Some(1500));
    let only_sat = CreateInvoiceParams { amount_msat: None, ..node_invoice_params() };
    assert_eq!(only_sat.resolved_amount_msat(), Some(2000));
    let neither = CreateInvoiceParams { amount: None, amount_msat: None, ..node_invoice_params() };
    assert_eq!(neither.resolved_amount_msat(), None);
}

#[test]
fn every_backend_is_asked_for_the_millisatoshi_amount() {
    match node_node(Backend::LndRest).create_invoice(node_invoice_params()).unwrap() {
        Request::LndCreateInvoice(call, body) => {
            assert_eq!(call.url, "https://127.0.0.1:8080/v1/invoices");
            assert_eq!(body.value_msat, 1500);
            assert_eq!(body.memo.as_deref(), Some("tea"));
        }
        other => panic!("unexpected {:?}", other),
    }
    match node_node(Backend::ClnGrpc).create_invoice(node_invoice_params()).unwrap() {
        Request::ClnInvoice(body) => {
            assert_eq!(
                body.msatoshi,
                Some(pb::AmountOrAny {
                    value: Some(pb::AmountOrAnyValue::Amount(pb::Amount { msat: 1500 }))
                })
            );
            assert_eq!(body.label, "label");
        }
        other => panic!("unexpected {:?}", other),
    }
    match node_node(Backend::EclairRest).create_invoice(node_invoice_params()).unwrap() {
        Request::EclairCreateInvoice(call, body) => {
            assert_eq!(call.url, "https://127.0.0.1:8080/createinvoice");
            assert_eq!(body.amount_msat, 1500);
        }
        other => panic!("unexpected {:?}", other),
    }
}

#[test]
fn created_invoice_is_read_by_the_nodes_backend() {
    let answer = Response::LndCreateInvoice(lnd::CreateInvoiceResponse {
        r_hash: "/+8=".to_string(),
        payment_request: "lnbc1".to_string(),
        add_index: "1".to_string(),
        payment_addr: "AA==".to_string(),
    });
    let result = node_node(Backend::LndRest).created_invoice(answer.clone()).unwrap();
    assert_eq!(result.payment_hash, "ffef");
    assert_eq!(result.label, None);
    misfit(node_node(Backend::ClnGrpc).created_invoice(answer.clone()));
    misfit(node_node(Backend::EclairRest).created_invoice(answer));

    let answer = Response::ClnInvoice(
        pb::InvoiceResponse {
            bolt11: "lnbc1".to_string(),
            payment_hash: vec![0xab],
            payment_secret: vec![],
            expires_at: 0,
        },
        "label".to_string(),
    );
    let result = node_node(Backend::ClnGrpc).created_invoice(answer.clone()).unwrap();
    assert_eq!(result.payment_hash, "ab");
    assert_eq!(result.label.as_deref(), Some("label"));
    misfit(node_node(Backend::LndRest).created_invoice(answer));

    let answer = Response::EclairCreateInvoice(eclair::CreateInvoiceResponse {
        serialized: "lnbc1".to_string(),
        payment_hash: "cd".to_string(),
        description: Some("tea".to_string()),
    });
    let result = node_node(Backend::EclairRest).created_invoice(answer.clone()).unwrap();
    assert_eq!(result.payment_hash, "cd");
    assert_eq!(result.label.as_deref(), Some("tea"));
    misfit(node_node(Backend::LndRest).created_invoice(answer));
}

#[test]
fn node_is_asked_about_itself_as_its_backend_wants() {
    match node_node(Backend::LndRest).get_info() {
        Request::LndGetInfo(call) => assert_eq!(call.url, "https://127.0.0.1:8080/v1/getinfo"),
        other => panic!("unexpected {:?}", other),
    }
    assert!(matches!(node_node(Backend::ClnGrpc).get_info(), Request::ClnGetinfo(_)));
    match node_node(Backend::EclairRest).get_info() {
        Request::EclairGetInfo(first, second) => {
            assert_eq!(first.url, "https://127.0.0.1:8080/getinfo");
            assert_eq!(second.url, "https://127.0.0.1:8080/channels");
        }
        other => panic!("unexpected {:?}", other),
    }
}

#[test]
fn node_info_maps_the_network_for_every_backend() {
    let info = node_node(Backend::ClnGrpc).node_info(Response::ClnGetinfo(cln_info("regtest"))).unwrap();
    assert!(matches!(info.network, Network::Regtest));
    assert_eq!(info.backend, Backend::ClnGrpc);
    let info = node_node(Backend::ClnGrpc).node_info(Response::ClnGetinfo(cln_info("signet"))).unwrap();
    match info.network {
        Network::Unknown(name) => assert_eq!(name, "signet"),
        other => panic!("unexpected {:?}", other),
    }
    let channels = vec![
        eclair::GetChannelsResponse { state: eclair::ChannelState::Normal },
        eclair::GetChannelsResponse { state: eclair::ChannelState::Offline },
        eclair::GetChannelsResponse { state: eclair::ChannelState::Offline },
    ];
    let info = node_node(Backend::EclairRest)
        .node_info(Response::EclairGetInfo(eclair_info(), channels))
        .unwrap();
    assert!(matches!(info.network, Network::Regtest));
    assert_eq!(info.backend, Backend::EclairRest);
    assert_eq!(info.channels.active, 1);
    assert_eq!(info.channels.inactive, 2);
    assert_eq!(info.channels.pending, 0);
    misfit(node_node(Backend::LndRest).node_info(Response::ClnGetinfo(cln_info("regtest"))));
    misfit(node_node(Backend::EclairRest).node_info(Response::ClnGetinfo(cln_info("regtest"))));
}

#[test]
fn payment_is_asked_as_the_backend_wants() {
    match node_node(Backend::LndRest).pay_invoice(node_pay_params()) {
        Request::LndPayInvoice(call, body) => {
            assert_eq!(call.url, "https://127.0.0.1:8080/v1/channels/transactions");
            assert_eq!(body.amt_msat.as_deref(), Some("2000"));
            assert_eq!(body.fee_limit.unwrap().fixed_msat.as_deref(), Some("10500"));
        }
        other => panic!("unexpected {:?}", other),
    }
    match node_node(Backend::ClnGrpc).pay_invoice(node_pay_params()) {
        Request::ClnPay(body) => {
            assert_eq!(body.msatoshi, Some(pb::Amount { msat: 2000 }));
            assert_eq!(body.maxfee, Some(pb::Amount { msat: 10_500 }));
        }
        other => panic!("unexpected {:?}", other),
    }
    match node_node(Backend::EclairRest).pay_invoice(node_pay_params()) {
        Request::EclairPayInvoice(call, body) => {
            assert_eq!(call.url, "https://127.0.0.1:8080/payinvoice");
            assert_eq!(body.amount_msat, Some(2000));
            assert_eq!(body.max_fee_flat_sat, Some(10));
        }
        other => panic!("unexpected {:?}", other),
    }
}

#[test]
fn payment_result_is_read_by_the_nodes_backend() {
    let answer = Response::ClnPay(pb::PayResponse {
        payment_preimage: vec![1],
        destination: None,
        payment_hash: vec![2],
        parts: 1,
        amount_msat: Some(pb::Amount { msat: 10 }),
        amount_sent_msat: Some(pb::Amount { msat: 12 }),
        warning_partial_completion: None,
        status: 0,
    });
    let result = node_node(Backend::ClnGrpc).paid_invoice(answer.clone()).unwrap();
    assert_eq!(result.fees_msat, Some(2));
    assert_eq!(result.payment_preimage, "01");
    misfit(node_node(Backend::LndRest).paid_invoice(answer.clone()));
    misfit(node_node(Backend::EclairRest).paid_invoice(answer));
    let answer = Response::LndPayInvoice(lnd::SendPaymentSyncResponse {
        payment_error: "no route".to_string(),
        payment_preimage: String::new(),
        payment_route: None,
        payment_hash: String::new(),
    });
    match node_node(Backend::LndRest).paid_invoice(answer) {
        Err(Error::ApiError(text)) => assert_eq!(text, "no route"),
        other => panic!("unexpected {:?}", other),
    }
}

#[test]
fn invoice_is_fetched_from_lnd_only() {
    match node_node(Backend::LndRest).get_invoice("7f6a".to_string()).unwrap() {
        Request::LndGetInvoice(call) => {
            assert_eq!(call.url, "https://127.0.0.1:8080/v1/invoice/7f6a")
        }
        other => panic!("unexpected {:?}", other),
    }
    assert!(matches!(
        node_node(Backend::ClnGrpc).get_invoice("7f6a".to_string()),
        Err(Error::NotImplemented)
    ));
    assert!(matches!(
        node_node(Backend::EclairRest).get_invoice("7f6a".to_string()),
        Err(Error::NotImplemented)
    ));
    misfit(node_node(Backend::ClnGrpc).fetched_invoice(Response::ClnGetinfo(cln_info("regtest"))));
}

#[test]
fn invoice_is_read_by_the_node_or_on_the_spot() {
    match node_node(Backend::LndRest).decode_invoice("lnbc1".to_string()).unwrap() {
        Decoding::Ask(Request::LndDecodeInvoice(call)) => {
            assert_eq!(call.url, "https://127.0.0.1:8080/v1/payreq/lnbc1")
        }
        other => panic!("unexpected {:?}", other),
    }
    match node_node(Backend::EclairRest).decode_invoice("lnbc1".to_string()).unwrap() {
        Decoding::Ask(Request::EclairDecodeInvoice(call, body)) => {
            assert_eq!(call.url, "https://127.0.0.1:8080/parseinvoice");
            assert_eq!(body.invoice, "lnbc1");
        }
        other => panic!("unexpected {:?}", other),
    }
    let coffee = "lnbc2500u1pvjluezsp5zyg3zyg3zyg3zyg3zyg3zyg3zyg3zyg3zyg3zyg3zyg3zyg3zygspp5qqqsyqcyq5rqwzqfqqqsyqcyq5rqwzqfqqqsyqcyq5rqwzqfqypqdq5xysxxatsyp3k7enxv4jsxqzpu9qrsgquk0rl77nj30yxdy8j9vdx85fkpmdla2087ne0xh8nhedh8w27kyke0lp53ut353s06fv3qfegext0eh0ymjpf39tuven09sam30g4vgpfna3rh";
    match node_node(Backend::ClnGrpc).decode_invoice(coffee.to_string()).unwrap() {
        Decoding::Done(result) => assert_eq!(result.memo.as_deref(), Some("1 cup coffee")),
        other => panic!("unexpected {:?}", other),
    }
    assert!(matches!(
        node_node(Backend::ClnGrpc).decode_invoice("lnbc1".to_string()),
        Err(Error::ConversionError(_))
    ));
    misfit(node_node(Backend::ClnGrpc).decoded_invoice(Response::ClnGetinfo(cln_info("regtest"))));
}

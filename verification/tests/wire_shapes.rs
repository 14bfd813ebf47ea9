use node_control::address::PeerAddress;
use node_control::engine::BalanceSnapshot;
use node_control::engine::ChannelRecord;
use node_control::engine::EngineCall;
use node_control::engine::PaymentRecord;
use node_control::engine::PaymentStatus;
use node_control::engine::PeerRecord;
use node_control::error::ErrorKind;
use node_control::error::RpcError;
use node_control::identity::NodeId;
use node_control::invoice::Invoice;
use node_control::rpc::connect_peer;
use node_control::rpc::connect_peer_done;
use node_control::rpc::funding_address;
use node_control::rpc::get_balance;
use node_control::rpc::get_invoice;
use node_control::rpc::get_invoice_done;
use node_control::rpc::get_payment;
use node_control::rpc::get_payment_done;
use node_control::rpc::list_channels;
use node_control::rpc::list_peers;
use node_control::rpc::open_channel;
use node_control::rpc::open_channel_done;
use node_control::rpc::pay_invoice;
use node_control::rpc::pay_invoice_done;
use node_control::rpc::status_text;
use node_control::rpc::sync;
use node_control::rpc::CompactChannel;
use node_control::rpc::ConnectPeerRequest;
use node_control::rpc::ConnectPeerResponse;
use node_control::rpc::GetInvoiceRequest;
use node_control::rpc::OpenChannelRequest;
use node_control::rpc::PayInvoiceRequest;

const GENERATOR: &str = "0279be667ef9dcbbac55a06295ce870b07029bfcdb2dce28d959f2815b16f81798";
const GENERATOR_UNCOMPRESSED: &str = "0479be667ef9dcbbac55a06295ce870b07029bfcdb2dce28d959f2815b16f81798483ada7726a3c4655da4fbfc0e1108a8fd17b448a68554199c47d08ffb10d4b8";
const SAMPLE_INVOICE: &str = "lnbc100p1psj9jhxdqud3jxktt5w46x7unfv9kz6mn0v3jsnp4q0d3p2sfluzdx45tqcs\
h2pu5qc7lgq0xs578ngs6s0s68ua4h7cvspp5q6rmq35js88zp5dvwrv9m459tnk2zunwj5jalqtyxqulh0l\
5gflssp5nf55ny5gcrfl30xuhzj3nphgj27rstekmr9fw3ny5989s300gyus9qyysgqcqpcrzjqw2sxwe993\
h5pcm4dxzpvttgza8zhkqxpgffcrf5v25nwpr3cmfg7z54kuqq8rgqqqqqqqq2qqqqq9qq9qrzjqd0ylaqcl\
j9424x9m8h2vcukcgnm6s56xfgu3j78zyqzhgs4hlpzvznlugqq9vsqqqqqqqlgqqqqqeqq9qrzjqwldmj9d\
ha74df76zhx6l9we0vjdquygcdt3kssupehe64g6yyp5yz5rhuqqwccqqyqqqqlgqqqqjcqq9qrzjqf9e58a\
guqr0rcun0ajlvmzq3ek63cw2w282gv3z5uupmuwvgjtq2z55qsqqg6qqqyqqqrtnqqqzq3cqygrzjqvphms\
ywntrrhqjcraumvc4y6r8v4z5v593trte429v4hredj7ms5z52usqq9ngqqqqqqqlgqqqqqqgq9qrzjq2v0v\
p62g49p7569ev48cmulecsxe59lvaw3wlxm7r982zxa9zzj7z5l0cqqxusqqyqqqqlgqqqqqzsqygarl9fh3\
8s0gyuxjjgux34w75dnc6xp2l35j7es3jd4ugt3lu0xzre26yg5m7ke54n2d5sym4xcmxtl8238xxvw5h5h5\
j5r6drg6k6zcqj0fcwg";

fn generator_bytes() -> [u8; 33] {
    let mut bytes = [0u8; 33];
    bytes[0] = 0x02;
    let x: [u8; 32] = [
        0x79, 0xbe, 0x66, 0x7e, 0xf9, 0xdc, 0xbb, 0xac, 0x55, 0xa0, 0x62, 0x95, 0xce, 0x87, 0x0b,
        0x07, 0x02, 0x9b, 0xfc, 0xdb, 0x2d, 0xce, 0x28, 0xd9, 0x59, 0xf2, 0x81, 0x5b, 0x16, 0xf8,
        0x17, 0x98,
    ];
    bytes[1..].copy_from_slice(&x);
    bytes
}

#[test]
fn node_id_is_read_from_compressed_text() {
    let id = NodeId::parse(GENERATOR).expect("a key");
    assert_eq!(id.bytes, generator_bytes());
}

#[test]
fn node_id_is_read_from_uncompressed_text_and_held_compressed() {
    let id = NodeId::parse(GENERATOR_UNCOMPRESSED).expect("a key");
    assert_eq!(id.bytes, generator_bytes());
}

#[test]
fn node_id_takes_upper_case_text() {
    let id = NodeId::parse(&GENERATOR.to_uppercase()).expect("a key");
    assert_eq!(id.bytes, generator_bytes());
}

#[test]
fn node_id_is_written_as_lowercase_hex() {
    let id = NodeId { bytes: generator_bytes() };
    assert_eq!(id.to_hex(), GENERATOR);
    assert_eq!(NodeId::parse(&id.to_hex()), Some(id));
}

#[test]
fn node_id_refuses_what_is_no_key() {
    assert_eq!(NodeId::parse(""), None);
    assert_eq!(NodeId::parse("02"), None);
    assert_eq!(NodeId::parse(&GENERATOR[..64]), None);
    assert_eq!(NodeId::parse(&format!("{}00", GENERATOR)), None);
    assert_eq!(NodeId::parse(&"zz".repeat(33)), None);
    // The right length, but no such kind of key.
    assert_eq!(NodeId::parse(&format!("05{}", &GENERATOR[2..])), None);
}

#[test]
fn addresses_are_told_from_other_text() {
    assert!(PeerAddress::parse("127.0.0.1:9735").is_some());
    assert!(PeerAddress::parse("[::1]:9735").is_some());
    assert!(PeerAddress::parse("example.com:9735").is_some());
    assert!(PeerAddress::parse("not-an-address").is_none());
    assert!(PeerAddress::parse("127.0.0.1").is_none());
    assert!(PeerAddress::parse("127.0.0.1:notaport").is_none());
    assert!(PeerAddress::parse("127.0.0.1:70000").is_none());
    assert!(PeerAddress::parse("bad host:9735").is_none());
    assert!(PeerAddress::parse("").is_none());
}

#[test]
fn an_address_keeps_its_text() {
    let address = PeerAddress::parse("127.0.0.1:9735").expect("an address");
    assert_eq!(address.as_str(), "127.0.0.1:9735");
    assert_eq!(address.clone(), address);
}

#[test]
fn invoices_are_told_from_other_text() {
    let invoice = Invoice::parse(SAMPLE_INVOICE).expect("an invoice");
    assert_eq!(invoice.as_str(), SAMPLE_INVOICE);
    assert_eq!(invoice.clone(), invoice);
    assert!(Invoice::parse("").is_none());
    assert!(Invoice::parse("lnbc1notaninvoice").is_none());
    // One character of the signature changed.
    let mut forged = SAMPLE_INVOICE.to_string();
    forged.pop();
    forged.push('q');
    assert!(Invoice::parse(&forged).is_none());
}

#[test]
fn connect_peer_asks_for_a_connection_that_is_not_kept() {
    let req = ConnectPeerRequest {
        pubkey: GENERATOR.to_string(),
        ip_port: "127.0.0.1:9735".to_string(),
    };
    let call = connect_peer(&req).expect("a call");
    assert_eq!(
        call,
        EngineCall::Connect {
            node_id: NodeId { bytes: generator_bytes() },
            address: PeerAddress::parse("127.0.0.1:9735").unwrap(),
            persist: false,
        }
    );
}

#[test]
fn connect_peer_refuses_a_bad_key_before_a_bad_address() {
    let both_bad = ConnectPeerRequest {
        pubkey: "nokey".to_string(),
        ip_port: "not-an-address".to_string(),
    };
    assert_eq!(connect_peer(&both_bad), Err(RpcError::InvalidPublicKey));
    let bad_address = ConnectPeerRequest {
        pubkey: GENERATOR.to_string(),
        ip_port: "not-an-address".to_string(),
    };
    assert_eq!(connect_peer(&bad_address), Err(RpcError::InvalidAddress));
}

#[test]
fn open_channel_scales_both_amounts() {
    let req = OpenChannelRequest {
        pubkey: GENERATOR.to_string(),
        ip_port: "example.com:9735".to_string(),
        funding_sats: 100_000,
        push_sats: 2_500,
    };
    let call = open_channel(&req).expect("a call");
    assert_eq!(
        call,
        EngineCall::OpenChannel {
            node_id: NodeId { bytes: generator_bytes() },
            address: PeerAddress::parse("example.com:9735").unwrap(),
            channel_amount: 100_000_000,
            push_amount: 2_500_000,
            announce: true,
        }
    );
}

#[test]
fn open_channel_with_an_invalid_address_is_a_client_error() {
    let req = OpenChannelRequest {
        pubkey: GENERATOR.to_string(),
        ip_port: "not-an-address".to_string(),
        funding_sats: 100_000,
        push_sats: 0,
    };
    let failure = open_channel(&req).expect_err("a failure");
    assert_eq!(failure, RpcError::InvalidAddress);
    assert_eq!(failure.kind(), ErrorKind::BadRequest);
    assert_eq!(failure.status(), 400);
}

#[test]
fn open_channel_refuses_in_the_order_key_address_amount() {
    let mut req = OpenChannelRequest {
        pubkey: "nokey".to_string(),
        ip_port: "not-an-address".to_string(),
        funding_sats: u64::MAX,
        push_sats: u64::MAX,
    };
    assert_eq!(open_channel(&req), Err(RpcError::InvalidPublicKey));
    req.pubkey = GENERATOR.to_string();
    assert_eq!(open_channel(&req), Err(RpcError::InvalidAddress));
    req.ip_port = "127.0.0.1:9735".to_string();
    assert_eq!(open_channel(&req), Err(RpcError::AmountTooLarge));
    req.funding_sats = 1;
    assert_eq!(open_channel(&req), Err(RpcError::AmountTooLarge));
    req.push_sats = 1;
    assert!(open_channel(&req).is_ok());
}

#[test]
fn pay_invoice_asks_for_the_invoice_to_be_paid() {
    let req = PayInvoiceRequest { invoice: SAMPLE_INVOICE.to_string() };
    assert_eq!(
        pay_invoice(&req),
        Ok(EngineCall::SendPayment { invoice: Invoice::parse(SAMPLE_INVOICE).unwrap() })
    );
    let bad = PayInvoiceRequest { invoice: "lnbc1notaninvoice".to_string() };
    assert_eq!(pay_invoice(&bad), Err(RpcError::InvalidInvoice));
}

#[test]
fn get_invoice_scales_the_amount_and_keeps_the_rest() {
    let req = GetInvoiceRequest {
        amount_sats: 1234,
        description: "coffee".to_string(),
        expiry_secs: 3600,
    };
    assert_eq!(
        get_invoice(&req),
        Ok(EngineCall::ReceivePayment {
            amount: 1_234_000,
            description: "coffee".to_string(),
            expiry_secs: 3600,
        })
    );
    let too_much = GetInvoiceRequest {
        amount_sats: u64::MAX / 1000 + 1,
        description: String::new(),
        expiry_secs: 1,
    };
    assert_eq!(get_invoice(&too_much), Err(RpcError::AmountTooLarge));
}

#[test]
fn get_payment_reads_the_hash() {
    let text = "11".repeat(32);
    assert_eq!(get_payment(&text), Ok(EngineCall::LookupPayment { hash: [0x11; 32] }));
    assert_eq!(get_payment("11"), Err(RpcError::InvalidPaymentHash));
    assert_eq!(get_payment(&"xy".repeat(32)), Err(RpcError::InvalidPaymentHash));
}

#[test]
fn a_channel_is_listed_with_its_identifiers_in_hex() {
    let record = ChannelRecord {
        channel_id: [0xab; 32],
        counterparty_node_id: NodeId { bytes: generator_bytes() },
        channel_value_sats: 100_000,
        user_channel_id: 0x0123_4567_89ab_cdef_0123_4567_89ab_cdef,
        outbound_capacity_msat: 90_000_000,
        inbound_capacity_msat: 5_000_000,
        is_channel_ready: true,
        is_usable: false,
    };
    let listed = CompactChannel::from(record);
    assert_eq!(
        listed,
        CompactChannel {
            channel_id: "ab".repeat(32),
            counterparty_node_id: GENERATOR.to_string(),
            channel_value_sats: 100_000,
            user_channel_id: 0x0123_4567_89ab_cdef_0123_4567_89ab_cdef,
            outbound_capacity_msat: 90_000_000,
            inbound_capacity_msat: 5_000_000,
            is_channel_ready: true,
            is_usable: false,
        }
    );
}

#[test]
fn channels_are_listed_in_the_order_given() {
    let mut records = Vec::new();
    for i in 0..3u8 {
        records.push(ChannelRecord {
            channel_id: [i; 32],
            counterparty_node_id: NodeId { bytes: generator_bytes() },
            channel_value_sats: 1000 + i as u64,
            user_channel_id: i as u128,
            outbound_capacity_msat: 0,
            inbound_capacity_msat: 0,
            is_channel_ready: false,
            is_usable: false,
        });
    }
    let response = list_channels(records.clone());
    assert_eq!(response.channels.len(), 3);
    for (i, channel) in response.channels.iter().enumerate() {
        assert_eq!(*channel, CompactChannel::from(records[i]));
        assert_eq!(channel.user_channel_id, i as u128);
    }
    assert!(list_channels(Vec::new()).channels.is_empty());
}

#[test]
fn peers_are_listed_with_key_in_hex_and_address_as_given() {
    let records = vec![
        PeerRecord {
            node_id: NodeId { bytes: generator_bytes() },
            address: "127.0.0.1:9735".to_string(),
        },
        PeerRecord { node_id: NodeId { bytes: [3u8; 33] }, address: "example.com:1".to_string() },
    ];
    let response = list_peers(records);
    assert_eq!(response.peers.len(), 2);
    assert_eq!(response.peers[0].node_id, GENERATOR);
    assert_eq!(response.peers[0].address, "127.0.0.1:9735");
    assert_eq!(response.peers[1].node_id, "03".repeat(33));
    assert_eq!(response.peers[1].address, "example.com:1");
    assert!(list_peers(Vec::new()).peers.is_empty());
}

#[test]
fn status_words_are_fixed() {
    assert_eq!(status_text(PaymentStatus::Pending), "pending");
    assert_eq!(status_text(PaymentStatus::Succeeded), "succeeded");
    assert_eq!(status_text(PaymentStatus::Failed), "failed");
}

#[test]
fn a_payment_is_reported_with_status_and_preimage() {
    let pending = PaymentRecord { status: PaymentStatus::Pending, preimage: None };
    let response = get_payment_done(Some(pending)).expect("a response");
    assert_eq!(response.status, "pending");
    assert_eq!(response.preimage, None);

    let done = PaymentRecord { status: PaymentStatus::Succeeded, preimage: Some([0xc4; 32]) };
    let response = get_payment_done(Some(done)).expect("a response");
    assert_eq!(response.status, "succeeded");
    assert_eq!(response.preimage, Some("c4".repeat(32)));

    let failed = PaymentRecord { status: PaymentStatus::Failed, preimage: None };
    assert_eq!(get_payment_done(Some(failed)).expect("a response").status, "failed");
}

#[test]
fn an_unknown_payment_is_not_found() {
    let failure = get_payment_done(None).expect_err("a failure");
    assert_eq!(failure, RpcError::PaymentNotFound);
    assert_eq!(failure.kind(), ErrorKind::NotFound);
    assert_eq!(failure.status(), 404);
}

#[test]
fn simple_responses_carry_what_the_engine_gave() {
    assert_eq!(funding_address("bcrt1qexample".to_string()).address, "bcrt1qexample");
    assert_eq!(connect_peer_done(), ConnectPeerResponse {});
    assert_eq!(open_channel_done(77).user_channel_id, 77);
    assert_eq!(open_channel_done(u128::MAX).user_channel_id, u128::MAX);
    assert_eq!(pay_invoice_done([0x5a; 32]).payment_hash, "5a".repeat(32));
    assert_eq!(get_invoice_done("lnbc1...".to_string()).invoice, "lnbc1...");
    assert!(sync().synced);
    let balance = get_balance(BalanceSnapshot {
        total_onchain_balance_sats: 50_000,
        spendable_onchain_balance_sats: 42_000,
    });
    assert_eq!(balance.total_onchain_balance_sats, 50_000);
    assert_eq!(balance.spendable_onchain_balance_sats, 42_000);
}

#[test]
fn failures_have_class_status_and_reason() {
    let cases = [
        (RpcError::InvalidPublicKey, ErrorKind::BadRequest, 400, "invalid public key"),
        (RpcError::InvalidAddress, ErrorKind::BadRequest, 400, "invalid network address"),
        (RpcError::InvalidInvoice, ErrorKind::BadRequest, 400, "invalid invoice"),
        (RpcError::InvalidPaymentHash, ErrorKind::BadRequest, 400, "invalid payment hash"),
        (RpcError::AmountTooLarge, ErrorKind::BadRequest, 400, "amount too large"),
        (RpcError::PaymentNotFound, ErrorKind::NotFound, 404, "payment not found"),
        (RpcError::Engine("insufficient funds".to_string()), ErrorKind::Engine, 500, "insufficient funds"),
        (RpcError::UnexpectedReply, ErrorKind::Engine, 500, "unexpected reply from the node"),
    ];
    for (failure, kind, status, reason) in cases {
        assert_eq!(failure.kind(), kind);
        assert_eq!(failure.status(), status);
        assert_eq!(kind.status(), status);
        assert_eq!(failure.message(), reason);
    }
}

use bitcoin::absolute::LockTime;
use bitcoin::consensus::encode::{deserialize, serialize};
use bitcoin::transaction::Version;
use bitcoin::{Amount, ScriptBuf, Transaction, TxIn, TxOut};

use corewallet::account::account_summary;
use corewallet::network::{parse_cookie, ConfigError, Network};
use corewallet::page::{body_ids, build_page, next_page_id, page_window, visible_descriptors, PER_PAGE};
use corewallet::seed::{register_outcome, register_request, BackendOutcome, RegisterError};
use corewallet::tx::{fee_sat, format_gdk_tx, Direction, TxBody, TxDescriptor, TxError};

const TXID: &str = "f4184fc596403b9d638783cf57adfe4c75c605f6356fbc91338530e9831e9e16";
const BLOCK: &str = "00000000d1145790a8694403d4063f323d499e655c83426834d4ce2f8dd4a2ee";
const PHRASE: &str = "abandon abandon abandon abandon abandon abandon abandon abandon abandon abandon abandon about";

fn descriptor(category: &str, fee: Option<i64>) -> TxDescriptor {
    TxDescriptor {
        category: Some(category.to_string()),
        txid: Some(TXID.to_string()),
        blockhash: Some(BLOCK.to_string()),
        time: Some(1_560_000_000),
        label: Some("rent".to_string()),
        fee,
        replaceable: Some("no".to_string()),
    }
}

fn body(weight: u64) -> TxBody {
    TxBody { txid: TXID.to_string(), raw: vec![0x02, 0x00, 0xab, 0xff], version: 2, lock_time: 0, weight }
}

fn sample_tx() -> Transaction {
    Transaction {
        version: Version(2),
        lock_time: LockTime::from_consensus(654_321),
        input: vec![TxIn::default()],
        output: vec![TxOut { value: Amount::from_sat(5_000), script_pubkey: ScriptBuf::new() }],
    }
}

#[test]
fn send_descriptor_translates_to_outgoing_record() {
    let t = format_gdk_tx(&descriptor("send", Some(-1000)), &body(568)).unwrap();
    assert_eq!(t.direction, Direction::Outgoing);
    assert_eq!(t.fee, 1000);
    assert_eq!(t.vsize, 142);
    assert_eq!(t.weight, 568);
    let rate = t.fee as f64 / t.vsize as f64;
    assert!((rate - 7.04).abs() < 0.01);
    assert_eq!(t.transaction, "0200abff");
    assert_eq!(t.size, 4);
    assert_eq!(t.block_height, 1);
    assert_eq!(t.memo, Some("rent".to_string()));
    assert_eq!(t.created_at, 1_560_000_000);
    assert!(!t.rbf_optin);
}

#[test]
fn receive_descriptor_without_fee_is_incoming_and_free() {
    let mut d = descriptor("receive", None);
    d.replaceable = Some("yes".to_string());
    let t = format_gdk_tx(&d, &body(801)).unwrap();
    assert_eq!(t.direction, Direction::Incoming);
    assert_eq!(t.fee, 0);
    assert_eq!(t.vsize, 200);
    assert!(t.rbf_optin);
}

#[test]
fn unknown_category_and_missing_fields_fail() {
    assert_eq!(format_gdk_tx(&descriptor("generate", None), &body(400)).unwrap_err(), TxError::InvalidCategory);
    let mut d = descriptor("send", None);
    d.time = None;
    assert_eq!(format_gdk_tx(&d, &body(400)).unwrap_err(), TxError::MissingField);
    let mut d = descriptor("send", None);
    d.category = None;
    assert_eq!(format_gdk_tx(&d, &body(400)).unwrap_err(), TxError::MissingField);
    let mut d = descriptor("send", None);
    d.replaceable = None;
    assert_eq!(format_gdk_tx(&d, &body(400)).unwrap_err(), TxError::MissingField);
}

#[test]
fn fee_is_absolute_satoshi() {
    assert_eq!(fee_sat(Some(-1000)), 1000);
    assert_eq!(fee_sat(Some(250)), 250);
    assert_eq!(fee_sat(None), 0);
    assert_eq!(fee_sat(Some(i64::MIN)), 9_223_372_036_854_775_808);
}

#[test]
fn encoded_body_decodes_to_same_transaction() {
    let tx = sample_tx();
    let raw = serialize(&tx);
    let b = TxBody {
        txid: tx.compute_txid().to_string(),
        raw: raw.clone(),
        version: tx.version.0,
        lock_time: tx.lock_time.to_consensus_u32(),
        weight: tx.weight().to_wu(),
    };
    let t = format_gdk_tx(&descriptor("send", Some(-300)), &b).unwrap();
    let back: Transaction = deserialize(&hex::decode(&t.transaction).unwrap()).unwrap();
    assert_eq!(back.compute_txid().to_string(), t.txhash);
    assert_eq!(back.version.0, t.version);
    assert_eq!(back.lock_time.to_consensus_u32(), t.lock_time);
    assert_eq!(t.lock_time, 654_321);
    assert_eq!(t.size, raw.len());
}

#[test]
fn immature_entries_never_reach_the_page() {
    let listed = vec![
        descriptor("send", Some(-10)),
        descriptor("immature", None),
        descriptor("receive", None),
        descriptor("immature", None),
    ];
    let visible = visible_descriptors(&listed);
    assert_eq!(visible.len(), 2);
    assert_eq!(visible[0].category.as_deref(), Some("send"));
    assert_eq!(visible[1].category.as_deref(), Some("receive"));
    let page = build_page(0, listed.len(), &visible, &vec![body(400), body(404)]).unwrap();
    assert_eq!(page.list.len(), 2);
    assert_eq!(page.list[0].direction, Direction::Outgoing);
    assert_eq!(page.list[1].direction, Direction::Incoming);
    assert_eq!(page.next_page_id, None);
}

#[test]
fn full_page_points_to_the_next_one() {
    let listed: Vec<TxDescriptor> = (0..10).map(|_| descriptor("receive", None)).collect();
    let visible = visible_descriptors(&listed);
    let bodies: Vec<TxBody> = (0..10).map(|_| body(400)).collect();
    let page = build_page(3, listed.len(), &visible, &bodies).unwrap();
    assert_eq!(page.page_id, 3);
    assert_eq!(page.next_page_id, Some(4));
    assert_eq!(next_page_id(7, 10), Some(8));
    assert_eq!(next_page_id(7, 9), None);
    assert_eq!(next_page_id(0, 0), None);
    assert_eq!(next_page_id(u32::MAX, 10), Some(4_294_967_296));
}

#[test]
fn one_bad_entry_fails_the_page() {
    let visible = vec![descriptor("send", None), descriptor("weird", None), descriptor("other", None)];
    let bodies = vec![body(400), body(400), body(400)];
    assert_eq!(build_page(0, 3, &visible, &bodies).unwrap_err(), TxError::InvalidCategory);
}

#[test]
fn page_window_skips_earlier_pages() {
    assert_eq!(page_window(0), (PER_PAGE, 0));
    assert_eq!(page_window(3), (10, 30));
    assert_eq!(page_window(u32::MAX), (10, 42_949_672_950));
}

#[test]
fn body_ids_checks_identifiers() {
    let (t, b) = body_ids(&descriptor("send", None)).unwrap();
    assert_eq!(t, TXID);
    assert_eq!(b, BLOCK);
    let mut d = descriptor("send", None);
    d.txid = Some("abcd".to_string());
    assert_eq!(body_ids(&d).unwrap_err(), TxError::InvalidHex);
    let mut d = descriptor("send", None);
    d.blockhash = Some(BLOCK.replace('0', "g"));
    assert_eq!(body_ids(&d).unwrap_err(), TxError::InvalidHex);
    let mut d = descriptor("send", None);
    d.blockhash = None;
    assert_eq!(body_ids(&d).unwrap_err(), TxError::MissingField);
}

#[test]
fn unreadable_cookie_is_a_configuration_error() {
    let net = Network::regtest("http://127.0.0.1:18443".to_string(), "/nonexistent/.cookie".to_string());
    assert_eq!(net.resolve_credential(None), Err(ConfigError::CookieUnreadable));
}

#[test]
fn credentials_resolve_in_order() {
    let mut net = Network::regtest("http://127.0.0.1:18443".to_string(), "/tmp/.cookie".to_string());
    assert_eq!(
        net.resolve_credential(Some("__cookie__:abc:def".to_string())),
        Ok(("__cookie__".to_string(), "abc:def".to_string()))
    );
    assert_eq!(net.resolve_credential(Some("nocolon".to_string())), Err(ConfigError::CookieMalformed));
    net.rpc_cred = Some(("alice".to_string(), "pw".to_string()));
    assert_eq!(net.resolve_credential(None), Ok(("alice".to_string(), "pw".to_string())));
    net.rpc_cred = None;
    net.rpc_cookie = None;
    assert_eq!(net.resolve_credential(Some("a:b".to_string())), Err(ConfigError::MissingCredentials));
}

#[test]
fn cookie_splits_at_first_colon() {
    assert_eq!(parse_cookie(&"user:pass".to_string()), Ok(("user".to_string(), "pass".to_string())));
    assert_eq!(parse_cookie(&":".to_string()), Ok((String::new(), String::new())));
    assert_eq!(parse_cookie(&String::new()), Err(ConfigError::CookieMalformed));
    assert_eq!(parse_cookie(&"é:ü:x".to_string()), Ok(("é".to_string(), "ü:x".to_string())));
}

#[test]
fn registry_lists_regtest() {
    let nets = Network::networks("http://node:18443".to_string(), "/home/u/.bitcoin/regtest/.cookie".to_string());
    assert_eq!(nets.len(), 1);
    let n = Network::network(&nets, &"regtest".to_string()).unwrap();
    assert_eq!(n.name, "Regtest");
    assert_eq!(n.rpc_url, "http://node:18443");
    assert_eq!(n.tx_explorer_url, "https://blockstream.info/tx/");
    assert_eq!(n.network, "regtest");
    assert!(n.rpc_cred.is_none());
    assert!(Network::network(&nets, &"mainnet".to_string()).is_none());
}

#[test]
fn account_balance_in_every_denomination() {
    let a = account_summary(150_000_000);
    assert_eq!(a.satoshi, "150000000");
    assert_eq!(a.btc, "1.5");
    assert_eq!(a.mbtc, "1500");
    assert_eq!(a.bits, "1500000");
    assert_eq!(a.ubts, "1500000");
    assert_eq!(a.fiat_rate, "420");
    assert_eq!(a.fiat_currency, "USD");
    assert_eq!(a.fiat, "630");
}

#[test]
fn account_small_and_empty_balances() {
    let a = account_summary(1);
    assert_eq!(a.btc, "0.00000001");
    assert_eq!(a.mbtc, "0.00001");
    assert_eq!(a.bits, "0.01");
    let z = account_summary(0);
    assert_eq!(z.satoshi, "0");
    assert_eq!(z.btc, "0");
    assert_eq!(z.fiat, "0");
    let m = account_summary(u64::MAX);
    assert_eq!(m.btc, "184467440737.09551615");
    assert_eq!(m.fiat, "77476325109580.116783");
}

#[test]
fn registering_twice_submits_the_same_key() {
    let phrase = PHRASE.to_string();
    let first = register_request(&phrase).unwrap();
    let second = register_request(&phrase).unwrap();
    assert_eq!(first, second);
    assert!(first.starts_with('9') || first.starts_with('8'));
    assert!(register_outcome(BackendOutcome::Success).is_ok());
    let dup = "Already have this key (either as an HD seed or as a loose private key)".to_string();
    assert!(register_outcome(BackendOutcome::Rpc { code: -5, message: dup }).is_ok());
    assert!(register_outcome(BackendOutcome::NoErrorOrResult).is_ok());
}

#[test]
fn other_backend_errors_are_surfaced() {
    let r = register_outcome(BackendOutcome::Rpc { code: -5, message: "Invalid private key".to_string() });
    assert!(matches!(r, Err(RegisterError::Rpc { code: -5, ref message }) if message == "Invalid private key"));
    let dup = "Already have this key (either as an HD seed or as a loose private key)".to_string();
    assert!(matches!(register_outcome(BackendOutcome::Rpc { code: -4, message: dup }), Err(RegisterError::Rpc { code: -4, .. })));
    assert!(matches!(
        register_outcome(BackendOutcome::Other { message: "timeout".to_string() }),
        Err(RegisterError::Backend { .. })
    ));
}

#[test]
fn invalid_mnemonic_is_refused() {
    let r = register_request(&"abandon abandon abandon".to_string());
    assert!(matches!(r, Err(RegisterError::InvalidMnemonic)));
    let r = register_request(&"abandon abandon abandon abandon abandon abandon abandon abandon abandon abandon abandon abandon".to_string());
    assert!(matches!(r, Err(RegisterError::InvalidMnemonic)));
}

use neutron_interchain_txs::contract::get_port_id;
use neutron_interchain_txs::decimal::decimal_string;
use neutron_interchain_txs::hex::{decode_hex, encode_hex};
use neutron_interchain_txs::kv_key::{split_on, KVKey, KVKeys};

fn key(path: &str, bytes: &[u8]) -> KVKey {
    KVKey { path: path.to_string(), key: bytes.to_vec() }
}

#[test]
fn encode_hex_is_lowercase_two_digits_per_byte() {
    assert_eq!(encode_hex(&[]), "");
    assert_eq!(encode_hex(&[0x00, 0xff, 0x10, 0xab]), "00ff10ab");
}

#[test]
fn decode_hex_accepts_both_cases() {
    assert_eq!(decode_hex("00ff10ab"), Some(vec![0x00, 0xff, 0x10, 0xab]));
    assert_eq!(decode_hex("ABcd"), Some(vec![0xab, 0xcd]));
    assert_eq!(decode_hex(""), Some(vec![]));
}

#[test]
fn decode_hex_rejects_odd_length_and_non_digits() {
    assert_eq!(decode_hex("abc"), None);
    assert_eq!(decode_hex("0g"), None);
    assert_eq!(decode_hex("+a"), None);
    assert_eq!(decode_hex("a "), None);
}

#[test]
fn encode_example_key() {
    assert_eq!(key("bank", &[0xAB, 0x01]).into_string(), "bank/ab01");
}

#[test]
fn decode_example_key() {
    let k = KVKey::from_string("bank/ab01").unwrap();
    assert_eq!(k.path, "bank");
    assert_eq!(k.key, vec![0xAB, 0x01]);
}

#[test]
fn key_round_trip() {
    let k = key("staking", &[0x31, 0x00, 0xfe, 0x7f]);
    let back = KVKey::from_string(&k.into_string()).unwrap();
    assert_eq!(back.path, k.path);
    assert_eq!(back.key, k.key);
    let empty = key("", &[]);
    assert_eq!(empty.into_string(), "/");
    let back = KVKey::from_string("/").unwrap();
    assert_eq!(back.path, "");
    assert!(back.key.is_empty());
}

#[test]
fn key_without_delimiter_is_malformed() {
    assert!(KVKey::from_string("bank").is_none());
    assert!(KVKey::from_string("").is_none());
    assert!(KVKey::from_string("ab01").is_none());
}

#[test]
fn key_with_bad_hex_is_malformed() {
    assert!(KVKey::from_string("bank/abc").is_none());
    assert!(KVKey::from_string("bank/zz").is_none());
    assert!(KVKey::from_string("bank/a").is_none());
}

#[test]
fn key_ignores_pieces_after_the_second() {
    let k = KVKey::from_string("bank/ab01/ff").unwrap();
    assert_eq!(k.path, "bank");
    assert_eq!(k.key, vec![0xab, 0x01]);
}

#[test]
fn keys_round_trip() {
    let keys = KVKeys(vec![key("bank", &[0xAB, 0x01]), key("staking", &[]), key("", &[0x05])]);
    let text = keys.into_string();
    assert_eq!(text, "bank/ab01,staking/,/05");
    let back = KVKeys::from_string(&text).unwrap();
    assert_eq!(back.0.len(), 3);
    for (a, b) in back.0.iter().zip(keys.0.iter()) {
        assert_eq!(a.path, b.path);
        assert_eq!(a.key, b.key);
    }
}

#[test]
fn keys_with_empty_piece_fail() {
    assert!(KVKeys::from_string("bank/ab01,").is_none());
    assert!(KVKeys::from_string(",bank/ab01").is_none());
    assert!(KVKeys::from_string("").is_none());
    assert!(KVKeys::from_string("bank/ab01,bank/zz").is_none());
}

#[test]
fn empty_key_list_encodes_to_empty_string() {
    assert_eq!(KVKeys(vec![]).into_string(), "");
}

#[test]
fn split_keeps_empty_pieces() {
    assert_eq!(split_on("a,,b,", ','), vec!["a", "", "b", ""]);
    assert_eq!(split_on("", ','), vec![""]);
}

#[test]
fn decimal_of_numbers() {
    assert_eq!(decimal_string(0), "0");
    assert_eq!(decimal_string(1234567), "1234567");
    assert_eq!(decimal_string(u128::MAX), u128::MAX.to_string());
}

#[test]
fn port_id_joins_prefix_contract_and_label() {
    assert_eq!(get_port_id("contract", "acc-1"), "icacontroller.contract.acc-1");
}

use aptos_lc::endpoints::{
    aptos_inclusion_proof_endpoint, epoch_change_proof_url, inclusion_proof_url, ledger_info_url,
    node_epoch, ACCEPT_BCS, ACCOUNT, APTOS_ACCOUNT_INCLUSION_ENDPOINT,
    APTOS_EPOCH_CHANGE_PROOF_ENDPOINT, APTOS_LEDGER_INFO_ENDPOINT,
};
use aptos_lc::error::ClientError;
use aptos_lc::merkle::MerkleError;
use aptos_lc::text::{decimal_string, parse_u64, push_decimal, push_hex};

#[test]
fn endpoint_paths() {
    assert_eq!(APTOS_LEDGER_INFO_ENDPOINT, "/ledger_info");
    assert_eq!(APTOS_EPOCH_CHANGE_PROOF_ENDPOINT, "/epoch_change_proof");
    assert_eq!(APTOS_ACCOUNT_INCLUSION_ENDPOINT, "/account_inclusion/");
    assert_eq!(ACCEPT_BCS, "application/x-bcs");
    assert_eq!(ACCOUNT, "0x2d91309b5b07a8be428ccd75d0443e81542ffcd059d0ab380cefc552229b1a");
}

#[test]
fn urls_are_base_then_path() {
    assert_eq!(ledger_info_url("http://node:8080/v1"), "http://node:8080/v1/ledger_info");
    assert_eq!(
        epoch_change_proof_url("http://node:8080/v1", None),
        "http://node:8080/v1/epoch_change_proof"
    );
    assert_eq!(
        epoch_change_proof_url("http://node:8080/v1", Some(6)),
        "http://node:8080/v1/epoch_change_proof?epoch_number=6"
    );
    assert_eq!(
        epoch_change_proof_url("", Some(u64::MAX)),
        "/epoch_change_proof?epoch_number=18446744073709551615"
    );
    assert_eq!(epoch_change_proof_url("x", Some(0)), "x/epoch_change_proof?epoch_number=0");
    assert_eq!(aptos_inclusion_proof_endpoint("0xabc"), "/account_inclusion/0xabc");
    assert_eq!(
        inclusion_proof_url("http://node", ACCOUNT),
        "http://node/account_inclusion/0x2d91309b5b07a8be428ccd75d0443e81542ffcd059d0ab380cefc552229b1a"
    );
}

#[test]
fn node_epoch_is_decimal_text() {
    assert_eq!(node_epoch("5"), Ok(5));
    assert_eq!(node_epoch("0"), Ok(0));
    assert_eq!(node_epoch("007"), Ok(7));
    assert_eq!(node_epoch("+12"), Ok(12));
    assert_eq!(node_epoch("18446744073709551615"), Ok(u64::MAX));
    assert_eq!(node_epoch("18446744073709551616"), Err(ClientError::Decode));
    assert_eq!(node_epoch("99999999999999999999999"), Err(ClientError::Decode));
    assert_eq!(node_epoch(""), Err(ClientError::Decode));
    assert_eq!(node_epoch("+"), Err(ClientError::Decode));
    assert_eq!(node_epoch("++1"), Err(ClientError::Decode));
    assert_eq!(node_epoch("-1"), Err(ClientError::Decode));
    assert_eq!(node_epoch(" 1"), Err(ClientError::Decode));
    assert_eq!(node_epoch("1 "), Err(ClientError::Decode));
    assert_eq!(node_epoch("12a"), Err(ClientError::Decode));
    assert_eq!(node_epoch("1_000"), Err(ClientError::Decode));
    assert_eq!(node_epoch("\u{663}"), Err(ClientError::Decode));
}

#[test]
fn parse_agrees_with_the_standard_library() {
    let samples = [
        "0", "1", "10", "+0", "+", "", "-0", "00", "18446744073709551615", "18446744073709551616",
        "1844674407370955161", "184467440737095516150", "+18446744073709551615", "9a", "a9", "\u{e9}",
    ];
    for sample in samples {
        assert_eq!(parse_u64(sample), sample.parse::<u64>().ok(), "{}", sample);
    }
}

#[test]
fn decimal_text_of_numbers() {
    assert_eq!(decimal_string(0), "0");
    assert_eq!(decimal_string(9), "9");
    assert_eq!(decimal_string(10), "10");
    assert_eq!(decimal_string(1234567890), "1234567890");
    assert_eq!(decimal_string(u64::MAX), "18446744073709551615");
    let mut text = String::from("n=");
    push_decimal(&mut text, 405);
    assert_eq!(text, "n=405");
    for number in [0u64, 7, 99, 100, 101, 65535, 1 << 40, u64::MAX - 1] {
        assert_eq!(decimal_string(number), number.to_string());
        assert_eq!(parse_u64(&decimal_string(number)), Some(number));
    }
}

#[test]
fn merkle_error_messages() {
    assert_eq!(MerkleError::Index(12).message(), "Index not supported: 12");
    assert_eq!(
        MerkleError::Hash { source: String::from("bad input") }.message(),
        "Error while computing the Merkle root: bad input"
    );
    assert_eq!(
        MerkleError::InvalidBranchLength { expected: 5, actual: 3 }.message(),
        "Unexpected branch length received. Expected 5, got 3"
    );
    assert_eq!(
        MerkleError::InvalidGeneralizedIndex {
            depth: 6,
            generalized_index: 105,
            generalized_index_depth: 7,
        }
        .message(),
        "Unexpected generalized index for the depth. Generalized index 105 (depth 7) is not valid for depth 6"
    );
}

#[test]
fn bytes_in_hexadecimal() {
    let mut text = String::from("0x");
    push_hex(&mut text, &[0x00, 0x09, 0x0a, 0x10, 0x9f, 0xa0, 0xff]);
    assert_eq!(text, "0x00090a109fa0ff");
    let mut empty = String::new();
    push_hex(&mut empty, &[]);
    assert_eq!(empty, "");
    for byte in 0..=255u8 {
        let mut one = String::new();
        push_hex(&mut one, &[byte]);
        assert_eq!(one, format!("{:02x}", byte));
    }
}

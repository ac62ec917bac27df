//! Record codec symmetry: decoding the canonical encoding recovers the
//! record, across varied and boundary field values, and malformed bytes
//! are rejected.

use cross_chain_token_bridge::codec::{
    decode_deposit_record, decode_withdrawal_record, encode_deposit_record,
    encode_withdrawal_record,
};
use cross_chain_token_bridge::state::{
    DepositRecordCompressedAccount, WithdrawalRecordCompressedAccount,
};

fn deposit_record(
    addr: &str,
    mint_addr: &str,
    amount: u64,
    timestamp: i64,
    deposit_id: u128,
) -> DepositRecordCompressedAccount {
    DepositRecordCompressedAccount {
        owner: [7u8; 32],
        source_chain_id: 1,
        dest_chain_id: 31337,
        dest_chain_addr: addr.to_string(),
        dest_chain_mint_addr: mint_addr.to_string(),
        mint: [9u8; 32],
        amount,
        timestamp,
        deposit_id,
    }
}

fn assert_deposit_eq(a: &DepositRecordCompressedAccount, b: &DepositRecordCompressedAccount) {
    assert_eq!(a.owner, b.owner);
    assert_eq!(a.source_chain_id, b.source_chain_id);
    assert_eq!(a.dest_chain_id, b.dest_chain_id);
    assert_eq!(a.dest_chain_addr, b.dest_chain_addr);
    assert_eq!(a.dest_chain_mint_addr, b.dest_chain_mint_addr);
    assert_eq!(a.mint, b.mint);
    assert_eq!(a.amount, b.amount);
    assert_eq!(a.timestamp, b.timestamp);
    assert_eq!(a.deposit_id, b.deposit_id);
}

#[test]
fn deposit_round_trip_varied_values() {
    let cases = vec![
        deposit_record("0xabc", "0xdeadbeef", 10000, 1750482928, 1),
        deposit_record("", "", 1, 0, 0),
        deposit_record("x", "y", u64::MAX, i64::MIN, u128::MAX),
        deposit_record(
            // Boundary: longest accepted recipient address (64 bytes).
            "0123456789012345678901234567890123456789012345678901234567890123",
            // Boundary: longest accepted mint address (50 bytes).
            "01234567890123456789012345678901234567890123456789",
            5,
            -1,
            42,
        ),
        deposit_record("2sQCd2fMbvU2yAAbjU4NQgVfeaTi", "2MPHj8Zrer3RSmZok3ShPcveeRF5", 10000, 1750482928, 1),
    ];
    for rec in &cases {
        let bytes = encode_deposit_record(rec);
        let decoded = decode_deposit_record(&bytes).expect("round trip must decode");
        assert_deposit_eq(rec, &decoded);
    }
}

#[test]
fn deposit_decode_rejects_malformed() {
    let rec = deposit_record("0xabc", "mintaddr", 10, 7, 3);
    let bytes = encode_deposit_record(&rec);
    // Trailing byte: the whole input must be consumed.
    let mut extended = bytes.clone();
    extended.push(0);
    assert!(decode_deposit_record(&extended).is_none());
    // Truncated input.
    assert!(decode_deposit_record(&bytes[..bytes.len() - 1]).is_none());
    assert!(decode_deposit_record(&[]).is_none());
    // A string region that is not UTF-8.
    let mut bad = bytes.clone();
    bad[44] = 0xff;
    assert!(decode_deposit_record(&bad).is_none());
}

fn withdrawal_record(
    depositer: &str,
    token_mint: &str,
    amount: u64,
    timestamp: i64,
    withdrawal_id: u128,
) -> WithdrawalRecordCompressedAccount {
    WithdrawalRecordCompressedAccount {
        depositer: depositer.to_string(),
        source_chain_id: 31337,
        dest_chain_id: 1,
        dest_chain_addr: [3u8; 32],
        dest_chain_mint_addr: [4u8; 32],
        token_mint: token_mint.to_string(),
        amount,
        timestamp,
        withdrawal_id,
    }
}

fn assert_withdrawal_eq(
    a: &WithdrawalRecordCompressedAccount,
    b: &WithdrawalRecordCompressedAccount,
) {
    assert_eq!(a.depositer, b.depositer);
    assert_eq!(a.source_chain_id, b.source_chain_id);
    assert_eq!(a.dest_chain_id, b.dest_chain_id);
    assert_eq!(a.dest_chain_addr, b.dest_chain_addr);
    assert_eq!(a.dest_chain_mint_addr, b.dest_chain_mint_addr);
    assert_eq!(a.token_mint, b.token_mint);
    assert_eq!(a.amount, b.amount);
    assert_eq!(a.timestamp, b.timestamp);
    assert_eq!(a.withdrawal_id, b.withdrawal_id);
}

#[test]
fn withdrawal_round_trip_varied_values() {
    let cases = vec![
        withdrawal_record("", "0xdeadbeef", 10000, 1750482928, 1),
        withdrawal_record("someone", "", 1, i64::MAX, u128::MAX),
        withdrawal_record("0xabc", "mint", u64::MAX, -7, 0),
    ];
    for rec in &cases {
        let bytes = encode_withdrawal_record(rec);
        let decoded = decode_withdrawal_record(&bytes).expect("round trip must decode");
        assert_withdrawal_eq(rec, &decoded);
    }
}

#[test]
fn withdrawal_decode_rejects_malformed() {
    let rec = withdrawal_record("d", "t", 5, 6, 7);
    let bytes = encode_withdrawal_record(&rec);
    let mut extended = bytes.clone();
    extended.push(1);
    assert!(decode_withdrawal_record(&extended).is_none());
    assert!(decode_withdrawal_record(&bytes[..bytes.len() - 1]).is_none());
    assert!(decode_withdrawal_record(&[]).is_none());
}

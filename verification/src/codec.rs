//! The record codec: a canonical byte encoding of the two record shapes,
//! used both for tree-hash commitment and for off-chain decoding by the
//! relayer. Encoding and decoding are exactly symmetric:
//! `decode(encode(r))` recovers `r` for every well-formed record.
//!
//! Layout: fixed 32-byte keys as raw bytes, integers little-endian,
//! strings as a little-endian `u32` byte length followed by the UTF-8
//! bytes. A record is rejected unless the whole input is consumed.

use vstd::prelude::*;
use vstd::array::ArrayAdditionalExecFns;
use vstd::bytes::{
    spec_u128_from_le_bytes, spec_u128_to_le_bytes, spec_u32_from_le_bytes, spec_u32_to_le_bytes,
    spec_u64_from_le_bytes, spec_u64_to_le_bytes, u128_from_le_bytes, u128_to_le_bytes,
    u32_from_le_bytes, u32_to_le_bytes, u64_from_le_bytes, u64_to_le_bytes,
};
use vstd::slice::{slice_subrange, slice_to_vec};
use vstd::utf8::{decode_utf8, encode_utf8, valid_utf8};
use crate::field_encode::string_from_utf8;
use crate::state::{
    DepositRecordCompressedAccount, DepositRecordV, WithdrawalRecordCompressedAccount,
    WithdrawalRecordV,
};

verus! {

/// The canonical encoding of a deposit record, over its view.
pub open spec fn enc_deposit(r: DepositRecordV) -> Seq<u8> {
    r.owner + spec_u32_to_le_bytes(r.source_chain_id) + spec_u32_to_le_bytes(r.dest_chain_id)
        + spec_u32_to_le_bytes(encode_utf8(r.dest_chain_addr).len() as u32) + encode_utf8(
        r.dest_chain_addr,
    ) + spec_u32_to_le_bytes(encode_utf8(r.dest_chain_mint_addr).len() as u32) + encode_utf8(
        r.dest_chain_mint_addr,
    ) + r.mint + spec_u64_to_le_bytes(r.amount) + spec_u64_to_le_bytes(r.timestamp as u64)
        + spec_u128_to_le_bytes(r.deposit_id)
}

/// The view-level parse of a deposit record encoding: `Some` exactly on
/// byte strings of the canonical shape, consumed in full.
pub open spec fn parse_deposit(bytes: Seq<u8>) -> Option<DepositRecordV> {
    let len = bytes.len() as int;
    if len < 44 {
        None
    } else {
        let owner = bytes.subrange(0, 32);
        let sc = spec_u32_from_le_bytes(bytes.subrange(32, 36));
        let dc = spec_u32_from_le_bytes(bytes.subrange(36, 40));
        let alen = spec_u32_from_le_bytes(bytes.subrange(40, 44)) as int;
        if 44 + alen + 4 > len {
            None
        } else {
            let abytes = bytes.subrange(44, 44 + alen);
            let p1 = 44 + alen;
            let mlen = spec_u32_from_le_bytes(bytes.subrange(p1, p1 + 4)) as int;
            if p1 + 4 + mlen + 64 > len {
                None
            } else {
                let mbytes = bytes.subrange(p1 + 4, p1 + 4 + mlen);
                let p2 = p1 + 4 + mlen;
                if !valid_utf8(abytes) || !valid_utf8(mbytes) || len != p2 + 64 {
                    None
                } else {
                    Some(
                        DepositRecordV {
                            owner,
                            source_chain_id: sc,
                            dest_chain_id: dc,
                            dest_chain_addr: decode_utf8(abytes),
                            dest_chain_mint_addr: decode_utf8(mbytes),
                            mint: bytes.subrange(p2, p2 + 32),
                            amount: spec_u64_from_le_bytes(bytes.subrange(p2 + 32, p2 + 40)),
                            timestamp: spec_u64_from_le_bytes(
                                bytes.subrange(p2 + 40, p2 + 48),
                            ) as i64,
                            deposit_id: spec_u128_from_le_bytes(bytes.subrange(p2 + 48, p2 + 64)),
                        },
                    )
                }
            }
        }
    }
}

/// Bounds under which a deposit-record view can be encoded: fixed-width
/// keys and string bytes that fit the length prefix.
pub open spec fn deposit_view_encodable(r: DepositRecordV) -> bool {
    &&& r.owner.len() == 32
    &&& r.mint.len() == 32
    &&& encode_utf8(r.dest_chain_addr).len() <= u32::MAX
    &&& encode_utf8(r.dest_chain_mint_addr).len() <= u32::MAX
}

/// Round trip: parsing the canonical encoding of any encodable deposit
/// record view yields exactly that view.
pub proof fn lemma_deposit_round_trip(r: DepositRecordV)
    requires
        deposit_view_encodable(r),
    ensures
        parse_deposit(enc_deposit(r)) == Some(r),
{
    broadcast use vstd::utf8::encode_utf8_valid_utf8, vstd::utf8::encode_utf8_decode_utf8;

    vstd::bytes::lemma_auto_spec_u32_to_from_le_bytes();
    vstd::bytes::lemma_auto_spec_u64_to_from_le_bytes();
    vstd::bytes::lemma_auto_spec_u128_to_from_le_bytes();
    let b = enc_deposit(r);
    let ab = encode_utf8(r.dest_chain_addr);
    let mb = encode_utf8(r.dest_chain_mint_addr);
    let alen = ab.len() as int;
    let mlen = mb.len() as int;
    let p1 = 44 + alen;
    let p2 = p1 + 4 + mlen;
    assert(b.len() == p2 + 64);
    assert(b.subrange(0, 32) =~= r.owner);
    assert(b.subrange(32, 36) =~= spec_u32_to_le_bytes(r.source_chain_id));
    assert(b.subrange(36, 40) =~= spec_u32_to_le_bytes(r.dest_chain_id));
    assert(b.subrange(40, 44) =~= spec_u32_to_le_bytes(ab.len() as u32));
    assert(b.subrange(44, 44 + alen) =~= ab);
    assert(b.subrange(p1, p1 + 4) =~= spec_u32_to_le_bytes(mb.len() as u32));
    assert(b.subrange(p1 + 4, p1 + 4 + mlen) =~= mb);
    assert(b.subrange(p2, p2 + 32) =~= r.mint);
    assert(b.subrange(p2 + 32, p2 + 40) =~= spec_u64_to_le_bytes(r.amount));
    assert(b.subrange(p2 + 40, p2 + 48) =~= spec_u64_to_le_bytes(r.timestamp as u64));
    assert(b.subrange(p2 + 48, p2 + 64) =~= spec_u128_to_le_bytes(r.deposit_id));
    let ts = r.timestamp;
    assert(((ts as u64) as i64) == ts) by (bit_vector);
    assert(parse_deposit(b) == Some(r));
}

/// Encode a deposit record into its canonical byte form.
pub fn encode_deposit_record(r: &DepositRecordCompressedAccount) -> (out: Vec<u8>)
    requires
        encode_utf8(r.dest_chain_addr@).len() <= u32::MAX,
        encode_utf8(r.dest_chain_mint_addr@).len() <= u32::MAX,
    ensures
        out@ == enc_deposit(r@),
{
    let mut out: Vec<u8> = Vec::new();
    out.extend_from_slice(r.owner.as_slice());
    let mut t = u32_to_le_bytes(r.source_chain_id);
    out.append(&mut t);
    let mut t = u32_to_le_bytes(r.dest_chain_id);
    out.append(&mut t);
    let ab = r.dest_chain_addr.as_str().as_bytes();
    let mut t = u32_to_le_bytes(ab.len() as u32);
    out.append(&mut t);
    out.extend_from_slice(ab);
    let mb = r.dest_chain_mint_addr.as_str().as_bytes();
    let mut t = u32_to_le_bytes(mb.len() as u32);
    out.append(&mut t);
    out.extend_from_slice(mb);
    out.extend_from_slice(r.mint.as_slice());
    let mut t = u64_to_le_bytes(r.amount);
    out.append(&mut t);
    let mut t = u64_to_le_bytes(r.timestamp as u64);
    out.append(&mut t);
    let mut t = u128_to_le_bytes(r.deposit_id);
    out.append(&mut t);
    proof {
        assert(out@ =~= enc_deposit(r@));
    }
    out
}

/// Copy 32 bytes out of `bytes` starting at `pos`.
fn read_bytes32(bytes: &[u8], pos: usize) -> (out: [u8; 32])
    requires
        pos + 32 <= bytes@.len(),
    ensures
        out@ =~= bytes@.subrange(pos as int, pos as int + 32),
{
    let blen = bytes.len();
    let mut out = [0u8; 32];
    let mut i: usize = 0;
    while i < 32
        invariant
            i <= 32,
            pos + 32 <= blen == bytes@.len(),
            out@.len() == 32,
            forall|j: int| 0 <= j < i ==> out@[j] == bytes@[pos + j],
        decreases 32 - i,
    {
        out[i] = *vstd::slice::slice_index_get(bytes, pos + i);
        i = i + 1;
    }
    out
}

/// Decode a deposit record from its canonical byte form. Returns `Some`
/// exactly when the view-level parse does, and then the record's view is
/// that parse.
pub fn decode_deposit_record(bytes: &[u8]) -> (r: Option<DepositRecordCompressedAccount>)
    ensures
        r is Some <==> parse_deposit(bytes@) is Some,
        r matches Some(rec) ==> parse_deposit(bytes@) == Some(rec@),
{
    let len = bytes.len();
    if len < 44 {
        return None;
    }
    let owner = read_bytes32(bytes, 0);
    let source_chain_id = u32_from_le_bytes(slice_subrange(bytes, 32, 36));
    let dest_chain_id = u32_from_le_bytes(slice_subrange(bytes, 36, 40));
    let alen = u32_from_le_bytes(slice_subrange(bytes, 40, 44)) as usize;
    if alen > len - 44 || 4 > len - 44 - alen {
        return None;
    }
    let p1 = 44 + alen;
    let mlen = u32_from_le_bytes(slice_subrange(bytes, p1, p1 + 4)) as usize;
    if mlen > len - p1 - 4 || 64 > len - p1 - 4 - mlen {
        return None;
    }
    let p2 = p1 + 4 + mlen;
    let dest_chain_addr = match string_from_utf8(slice_to_vec(slice_subrange(bytes, 44, p1))) {
        Some(s) => s,
        None => {
            return None;
        },
    };
    let dest_chain_mint_addr = match string_from_utf8(
        slice_to_vec(slice_subrange(bytes, p1 + 4, p2)),
    ) {
        Some(s) => s,
        None => {
            return None;
        },
    };
    if len - p2 != 64 {
        return None;
    }
    let mint = read_bytes32(bytes, p2);
    let amount = u64_from_le_bytes(slice_subrange(bytes, p2 + 32, p2 + 40));
    let timestamp = u64_from_le_bytes(slice_subrange(bytes, p2 + 40, p2 + 48)) as i64;
    let deposit_id = u128_from_le_bytes(slice_subrange(bytes, p2 + 48, p2 + 64));
    let rec = DepositRecordCompressedAccount {
        owner,
        source_chain_id,
        dest_chain_id,
        dest_chain_addr,
        dest_chain_mint_addr,
        mint,
        amount,
        timestamp,
        deposit_id,
    };
    Some(rec)
}

/// The canonical encoding of a withdrawal record, over its view.
pub open spec fn enc_withdrawal(r: WithdrawalRecordV) -> Seq<u8> {
    spec_u32_to_le_bytes(encode_utf8(r.depositer).len() as u32) + encode_utf8(r.depositer)
        + spec_u64_to_le_bytes(r.source_chain_id) + spec_u64_to_le_bytes(r.dest_chain_id)
        + r.dest_chain_addr + r.dest_chain_mint_addr + spec_u32_to_le_bytes(
        encode_utf8(r.token_mint).len() as u32,
    ) + encode_utf8(r.token_mint) + spec_u64_to_le_bytes(r.amount) + spec_u64_to_le_bytes(
        r.timestamp as u64,
    ) + spec_u128_to_le_bytes(r.withdrawal_id)
}

/// The view-level parse of a withdrawal record encoding.
pub open spec fn parse_withdrawal(bytes: Seq<u8>) -> Option<WithdrawalRecordV> {
    let len = bytes.len() as int;
    if len < 4 {
        None
    } else {
        let dlen = spec_u32_from_le_bytes(bytes.subrange(0, 4)) as int;
        if 4 + dlen + 84 > len {
            None
        } else {
            let dbytes = bytes.subrange(4, 4 + dlen);
            let p1 = 4 + dlen;
            let tmlen = spec_u32_from_le_bytes(bytes.subrange(p1 + 80, p1 + 84)) as int;
            if p1 + 84 + tmlen + 32 > len {
                None
            } else {
                let tmbytes = bytes.subrange(p1 + 84, p1 + 84 + tmlen);
                let p2 = p1 + 84 + tmlen;
                if !valid_utf8(dbytes) || !valid_utf8(tmbytes) || len != p2 + 32 {
                    None
                } else {
                    Some(
                        WithdrawalRecordV {
                            depositer: decode_utf8(dbytes),
                            source_chain_id: spec_u64_from_le_bytes(bytes.subrange(p1, p1 + 8)),
                            dest_chain_id: spec_u64_from_le_bytes(bytes.subrange(p1 + 8, p1 + 16)),
                            dest_chain_addr: bytes.subrange(p1 + 16, p1 + 48),
                            dest_chain_mint_addr: bytes.subrange(p1 + 48, p1 + 80),
                            token_mint: decode_utf8(tmbytes),
                            amount: spec_u64_from_le_bytes(bytes.subrange(p2, p2 + 8)),
                            timestamp: spec_u64_from_le_bytes(
                                bytes.subrange(p2 + 8, p2 + 16),
                            ) as i64,
                            withdrawal_id: spec_u128_from_le_bytes(
                                bytes.subrange(p2 + 16, p2 + 32),
                            ),
                        },
                    )
                }
            }
        }
    }
}

/// Bounds under which a withdrawal-record view can be encoded.
pub open spec fn withdrawal_view_encodable(r: WithdrawalRecordV) -> bool {
    &&& r.dest_chain_addr.len() == 32
    &&& r.dest_chain_mint_addr.len() == 32
    &&& encode_utf8(r.depositer).len() <= u32::MAX
    &&& encode_utf8(r.token_mint).len() <= u32::MAX
}

/// Round trip: parsing the canonical encoding of any encodable
/// withdrawal record view yields exactly that view.
pub proof fn lemma_withdrawal_round_trip(r: WithdrawalRecordV)
    requires
        withdrawal_view_encodable(r),
    ensures
        parse_withdrawal(enc_withdrawal(r)) == Some(r),
{
    broadcast use vstd::utf8::encode_utf8_valid_utf8, vstd::utf8::encode_utf8_decode_utf8;

    vstd::bytes::lemma_auto_spec_u32_to_from_le_bytes();
    vstd::bytes::lemma_auto_spec_u64_to_from_le_bytes();
    vstd::bytes::lemma_auto_spec_u128_to_from_le_bytes();
    let b = enc_withdrawal(r);
    let db = encode_utf8(r.depositer);
    let tmb = encode_utf8(r.token_mint);
    let dlen = db.len() as int;
    let tmlen = tmb.len() as int;
    let p1 = 4 + dlen;
    let p2 = p1 + 84 + tmlen;
    assert(b.len() == p2 + 32);
    assert(b.subrange(0, 4) =~= spec_u32_to_le_bytes(db.len() as u32));
    assert(b.subrange(4, 4 + dlen) =~= db);
    assert(b.subrange(p1, p1 + 8) =~= spec_u64_to_le_bytes(r.source_chain_id));
    assert(b.subrange(p1 + 8, p1 + 16) =~= spec_u64_to_le_bytes(r.dest_chain_id));
    assert(b.subrange(p1 + 16, p1 + 48) =~= r.dest_chain_addr);
    assert(b.subrange(p1 + 48, p1 + 80) =~= r.dest_chain_mint_addr);
    assert(b.subrange(p1 + 80, p1 + 84) =~= spec_u32_to_le_bytes(tmb.len() as u32));
    assert(b.subrange(p1 + 84, p1 + 84 + tmlen) =~= tmb);
    assert(b.subrange(p2, p2 + 8) =~= spec_u64_to_le_bytes(r.amount));
    assert(b.subrange(p2 + 8, p2 + 16) =~= spec_u64_to_le_bytes(r.timestamp as u64));
    assert(b.subrange(p2 + 16, p2 + 32) =~= spec_u128_to_le_bytes(r.withdrawal_id));
    let ts = r.timestamp;
    assert(((ts as u64) as i64) == ts) by (bit_vector);
    assert(parse_withdrawal(b) == Some(r));
}

/// Encode a withdrawal record into its canonical byte form.
pub fn encode_withdrawal_record(r: &WithdrawalRecordCompressedAccount) -> (out: Vec<u8>)
    requires
        encode_utf8(r.depositer@).len() <= u32::MAX,
        encode_utf8(r.token_mint@).len() <= u32::MAX,
    ensures
        out@ == enc_withdrawal(r@),
{
    let mut out: Vec<u8> = Vec::new();
    let db = r.depositer.as_str().as_bytes();
    let mut t = u32_to_le_bytes(db.len() as u32);
    out.append(&mut t);
    out.extend_from_slice(db);
    let mut t = u64_to_le_bytes(r.source_chain_id);
    out.append(&mut t);
    let mut t = u64_to_le_bytes(r.dest_chain_id);
    out.append(&mut t);
    out.extend_from_slice(r.dest_chain_addr.as_slice());
    out.extend_from_slice(r.dest_chain_mint_addr.as_slice());
    let tmb = r.token_mint.as_str().as_bytes();
    let mut t = u32_to_le_bytes(tmb.len() as u32);
    out.append(&mut t);
    out.extend_from_slice(tmb);
    let mut t = u64_to_le_bytes(r.amount);
    out.append(&mut t);
    let mut t = u64_to_le_bytes(r.timestamp as u64);
    out.append(&mut t);
    let mut t = u128_to_le_bytes(r.withdrawal_id);
    out.append(&mut t);
    proof {
        assert(out@ =~= enc_withdrawal(r@));
    }
    out
}

/// Decode a withdrawal record from its canonical byte form. Returns
/// `Some` exactly when the view-level parse does, and then the record's
/// view is that parse.
pub fn decode_withdrawal_record(bytes: &[u8]) -> (r: Option<WithdrawalRecordCompressedAccount>)
    ensures
        r is Some <==> parse_withdrawal(bytes@) is Some,
        r matches Some(rec) ==> parse_withdrawal(bytes@) == Some(rec@),
{
    let len = bytes.len();
    if len < 4 {
        return None;
    }
    let dlen = u32_from_le_bytes(slice_subrange(bytes, 0, 4)) as usize;
    if dlen > len - 4 || 84 > len - 4 - dlen {
        return None;
    }
    let p1 = 4 + dlen;
    let depositer = match string_from_utf8(slice_to_vec(slice_subrange(bytes, 4, p1))) {
        Some(s) => s,
        None => {
            return None;
        },
    };
    let source_chain_id = u64_from_le_bytes(slice_subrange(bytes, p1, p1 + 8));
    let dest_chain_id = u64_from_le_bytes(slice_subrange(bytes, p1 + 8, p1 + 16));
    let dest_chain_addr = read_bytes32(bytes, p1 + 16);
    let dest_chain_mint_addr = read_bytes32(bytes, p1 + 48);
    let tmlen = u32_from_le_bytes(slice_subrange(bytes, p1 + 80, p1 + 84)) as usize;
    if tmlen > len - p1 - 84 || 32 > len - p1 - 84 - tmlen {
        return None;
    }
    let p2 = p1 + 84 + tmlen;
    let token_mint = match string_from_utf8(slice_to_vec(slice_subrange(bytes, p1 + 84, p2))) {
        Some(s) => s,
        None => {
            return None;
        },
    };
    if len - p2 != 32 {
        return None;
    }
    let amount = u64_from_le_bytes(slice_subrange(bytes, p2, p2 + 8));
    let timestamp = u64_from_le_bytes(slice_subrange(bytes, p2 + 8, p2 + 16)) as i64;
    let withdrawal_id = u128_from_le_bytes(slice_subrange(bytes, p2 + 16, p2 + 32));
    let rec = WithdrawalRecordCompressedAccount {
        depositer,
        source_chain_id,
        dest_chain_id,
        dest_chain_addr,
        dest_chain_mint_addr,
        token_mint,
        amount,
        timestamp,
        withdrawal_id,
    };
    Some(rec)
}

} // verus!

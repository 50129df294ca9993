use cache_rpc::codec::{EncodeError, WireAccountData};
use cache_rpc::types::{AccountData, AccountInfo, Encoding, Pubkey, Slice};

fn key(byte: u8) -> Pubkey {
    Pubkey::new(vec![byte; 32])
}

fn sample_account(data: Vec<u8>) -> AccountInfo {
    AccountInfo {
        lamports: 10,
        owner: key(2),
        executable: false,
        rent_epoch: 0,
        data: AccountData { data },
    }
}

fn wire(acc: &AccountInfo, e: Encoding, s: Option<Slice>) -> Result<WireAccountData, EncodeError> {
    e.with_account_data(&acc.data).slice(s).to_wire()
}

#[test]
fn full_width_slice_reproduces_full_value() {
    let acc = sample_account(vec![5, 6, 7, 8]);
    let full = wire(&acc, Encoding::Base64, None).unwrap();
    let sliced = wire(&acc, Encoding::Base64, Some(Slice { offset: 0, length: 4 })).unwrap();
    assert_eq!(full.payload, sliced.payload);
    assert_eq!(full.encoding_name, "base64");
}

#[test]
fn out_of_bounds_slice_is_invalid_slice_error() {
    let acc = sample_account(vec![5, 6, 7, 8]);
    let r = wire(&acc, Encoding::Base64, Some(Slice { offset: 2, length: 3 }));
    assert_eq!(r.unwrap_err(), EncodeError::InvalidSlice);
    let r = wire(&acc, Encoding::Base58, Some(Slice { offset: 5, length: 0 }));
    assert_eq!(r.unwrap_err(), EncodeError::InvalidSlice);
}

#[test]
fn interior_slice_encodes_requested_range() {
    let acc = sample_account(vec![5, 6, 7, 8]);
    let sliced = wire(&acc, Encoding::Base64, Some(Slice { offset: 1, length: 2 })).unwrap();
    assert_eq!(base64::decode(&sliced.payload).unwrap(), vec![6, 7]);
}

#[test]
fn base58_round_trip() {
    let data = vec![0, 1, 2, 250, 251, 252];
    let acc = sample_account(data.clone());
    let w = wire(&acc, Encoding::Base58, None).unwrap();
    assert_eq!(w.encoding_name, "base58");
    assert_eq!(bs58::decode(&w.payload).into_vec().unwrap(), data);
}

#[test]
fn base64_round_trip() {
    let data = vec![0, 1, 2, 250, 251, 252];
    let acc = sample_account(data.clone());
    let w = wire(&acc, Encoding::Base64, None).unwrap();
    assert_eq!(w.encoding_name, "base64");
    assert_eq!(base64::decode(&w.payload).unwrap(), data);
}

#[test]
fn base64_zstd_round_trip() {
    let data = vec![9u8; 4096];
    let acc = sample_account(data.clone());
    let w = wire(&acc, Encoding::Base64Zstd, None).unwrap();
    assert_eq!(w.encoding_name, "base64+zstd");
    let compressed = base64::decode(&w.payload).unwrap();
    assert_eq!(zstd::decode_all(&compressed[..]).unwrap(), data);
}

#[test]
fn decode_wire_payload_inverts_each_encoding() {
    let data = vec![1, 2, 3, 4, 5];
    let acc = sample_account(data.clone());
    for e in [Encoding::Base58, Encoding::Base64, Encoding::Base64Zstd] {
        let w = wire(&acc, e, None).unwrap();
        let back = cache_rpc::codec::decode_wire_payload(&w.payload, e).unwrap();
        assert_eq!(back, data);
    }
}

#[test]
fn decode_wire_payload_rejects_bad_text() {
    assert!(cache_rpc::codec::decode_wire_payload("!!!not-base64!!!", Encoding::Base64).is_none());
    assert!(cache_rpc::codec::decode_wire_payload("0OIl", Encoding::Base58).is_none());
}

#[test]
fn empty_payload_encodes_to_empty_strings() {
    let acc = sample_account(Vec::new());
    let w58 = wire(&acc, Encoding::Base58, None).unwrap();
    let w64 = wire(&acc, Encoding::Base64, None).unwrap();
    assert_eq!(w58.payload, "");
    assert_eq!(w64.payload, "");
}

#[test]
fn encoding_names_round_trip() {
    for e in [Encoding::Base58, Encoding::Base64, Encoding::Base64Zstd] {
        let n = e.name();
        assert_eq!(Encoding::from_name(&n), Some(e));
    }
    assert_eq!(Encoding::from_name(&String::from("jsonParsed")), None);
}

#[test]
fn pubkey_base58_round_trip() {
    let p = key(7);
    let s = p.to_base58();
    let q = Pubkey::from_base58(&s).unwrap();
    assert_eq!(q.bytes, vec![7u8; 32]);
    // the all-zero key encodes to 32 '1' characters, not to its own bytes
    let z = key(0);
    assert_eq!(z.to_base58(), "1".repeat(32));
    // text that decodes to the wrong width is rejected
    assert!(Pubkey::from_base58("abc").is_none());
}

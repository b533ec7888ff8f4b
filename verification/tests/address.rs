use eth_transfer::address::Address;
use eth_transfer::error::TransferError;
use eth_transfer::hash::TxHash;
use eth_transfer::identity::Identity;

const VITALIK: [u8; 20] = [
    0xd8, 0xda, 0x6b, 0xf2, 0x69, 0x64, 0xaf, 0x9d, 0x7e, 0xed, 0x9e, 0x03, 0xe5, 0x34, 0x15, 0xd3,
    0x7a, 0xa9, 0x60, 0x45,
];

const FIRST_DEV_ACCOUNT: [u8; 20] = [
    0xf3, 0x9f, 0xd6, 0xe5, 0x1a, 0xad, 0x88, 0xf6, 0xf4, 0xce, 0x6a, 0xb8, 0x82, 0x72, 0x79, 0xcf,
    0xff, 0xb9, 0x22, 0x66,
];

const FIRST_DEV_KEY: &str = "0xac0974bec39a17e36ba4a6b4d238ff944bacb478cbed5efcae784d7bf4f2ff80";

#[test]
fn address_from_str_reads_hexadecimal() {
    let expected = Ok(Address::from_bytes(VITALIK));
    assert_eq!(Address::from_str("0xd8da6bf26964af9d7eed9e03e53415d37aa96045"), expected);
    assert_eq!(Address::from_str("0xd8dA6BF26964aF9D7eEd9e03E53415D37aA96045"), expected);
    assert_eq!(Address::from_str("d8da6bf26964af9d7eed9e03e53415d37aa96045"), expected);
}

#[test]
fn address_from_str_rejects_malformed_text() {
    let invalid = Err(TransferError::InvalidAddress);
    assert_eq!(Address::from_str(""), invalid);
    assert_eq!(Address::from_str("0x"), invalid);
    assert_eq!(Address::from_str("0xd8da6bf26964af9d7eed9e03e53415d37aa960"), invalid);
    assert_eq!(Address::from_str("0xd8da6bf26964af9d7eed9e03e53415d37aa9604500"), invalid);
    assert_eq!(Address::from_str("0xg8da6bf26964af9d7eed9e03e53415d37aa96045"), invalid);
    assert_eq!(Address::from_str("vitalik.eth"), invalid);
}

#[test]
fn address_from_parsed_takes_the_verdict() {
    assert_eq!(Address::from_parsed(Some(VITALIK)), Ok(Address { bytes: VITALIK }));
    assert_eq!(Address::from_parsed(None), Err(TransferError::InvalidAddress));
}

#[test]
fn address_bytes_round_trip() {
    assert_eq!(Address::from_bytes(VITALIK).to_bytes(), VITALIK);
    assert_eq!(Address::from_bytes([0u8; 20]).to_bytes(), [0u8; 20]);
}

#[test]
fn address_to_string_is_checksummed() {
    assert_eq!(
        Address::from_bytes(VITALIK).to_string(),
        "0xd8dA6BF26964aF9D7eEd9e03E53415D37aA96045"
    );
    assert_eq!(
        Address::from_bytes([0u8; 20]).to_string(),
        "0x0000000000000000000000000000000000000000"
    );
}

#[test]
fn address_text_parses_back_to_the_address() {
    let address = Address::from_bytes(FIRST_DEV_ACCOUNT);
    assert_eq!(Address::from_str(&address.to_string()), Ok(address));
}

#[test]
fn address_display_is_cut_in_the_middle() {
    let address = Address::from_bytes(VITALIK);
    assert_eq!(address.to_display_string(10), "0xd8d...96045");
    assert_eq!(address.to_display_string(42), "0xd8dA6BF26964aF9D7eEd9e03E53415D37aA96045");
    assert_eq!(address.to_display_string(41), "0xd8dA6BF26964aF9D7e...d9e03E53415D37aA96045");
}

#[test]
fn identity_from_str_derives_the_address() {
    let identity = Identity::from_str(FIRST_DEV_KEY).ok().expect("a valid key");
    assert_eq!(identity.address(), Address::from_bytes(FIRST_DEV_ACCOUNT));
    assert_eq!(identity.key(), FIRST_DEV_KEY);
    assert_eq!(identity.address().to_string(), "0xf39Fd6e51aad88F6F4ce6aB8827279cffFb92266");
}

#[test]
fn identity_from_str_takes_a_key_without_prefix() {
    let identity = Identity::from_str(&FIRST_DEV_KEY[2..]).ok().expect("a valid key");
    assert_eq!(identity.address(), Address::from_bytes(FIRST_DEV_ACCOUNT));
}

#[test]
fn identity_from_str_rejects_malformed_keys() {
    let invalid = Some(TransferError::InvalidCredential);
    assert_eq!(Identity::from_str("").err(), invalid);
    assert_eq!(Identity::from_str("0x1234").err(), invalid);
    assert_eq!(Identity::from_str(&FIRST_DEV_KEY[..64]).err(), invalid);
    assert_eq!(Identity::from_str("not a key").err(), invalid);
    assert_eq!(
        Identity::from_str("0xzz0974bec39a17e36ba4a6b4d238ff944bacb478cbed5efcae784d7bf4f2ff80")
            .err(),
        invalid
    );
}

#[test]
fn identity_from_str_rejects_the_zero_key() {
    let zero = "0x0000000000000000000000000000000000000000000000000000000000000000";
    assert_eq!(Identity::from_str(zero).err(), Some(TransferError::InvalidCredential));
}

#[test]
fn identity_from_derived_takes_the_verdict() {
    let identity = Identity::from_derived("key", Some(VITALIK)).ok().expect("derived");
    assert_eq!(identity.key(), "key");
    assert_eq!(identity.address(), Address { bytes: VITALIK });
    assert_eq!(
        Identity::from_derived(FIRST_DEV_KEY, None).err(),
        Some(TransferError::InvalidCredential)
    );
}

#[test]
fn tx_hash_is_printed_in_hexadecimal() {
    let mut bytes = [0u8; 32];
    for (i, byte) in bytes.iter_mut().enumerate() {
        *byte = (i * 8 + 7) as u8;
    }
    let hash = TxHash::from_bytes(bytes);
    assert_eq!(
        hash.to_string(),
        "0x070f171f272f373f474f575f676f777f878f979fa7afb7bfc7cfd7dfe7eff7ff"
    );
    assert_eq!(
        hash.sent_notice(),
        "Sent transaction: 0x070f171f272f373f474f575f676f777f878f979fa7afb7bfc7cfd7dfe7eff7ff"
    );
    assert_eq!(
        TxHash::from_bytes([0u8; 32]).to_string(),
        "0x0000000000000000000000000000000000000000000000000000000000000000"
    );
}

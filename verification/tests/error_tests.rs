use zcash_tx_decryptor::error::Error;

#[test]
fn every_error_has_its_sentence() {
    assert_eq!(Error::MalformedInput.message(), "Raw transaction hex is invalid (not hex or empty)");
    assert_eq!(
        Error::ParseError("unexpected end".to_string()).message(),
        "Failed to parse transaction from raw hex: unexpected end"
    );
    assert_eq!(
        Error::UnknownClassification.message(),
        "An output has an unknown transfer classification"
    );
    assert_eq!(Error::AmountOverflow.message(), "Amount exceeds i64 range");
    assert_eq!(Error::InvalidIdentifier.message(), "TXID must be 64 hex characters");
    assert_eq!(
        Error::UnknownKeyFormat.message(),
        "Invalid UFVK format. Expected to start with 'uview1' (mainnet) or 'uviewtest1' (testnet)"
    );
    assert_eq!(
        Error::InvalidViewingKey("bad checksum".to_string()).message(),
        "Failed to decode UFVK: bad checksum"
    );
}

use zcash_tx_decryptor::envelope::parse;
use zcash_tx_decryptor::error::Error;
use zcash_tx_decryptor::ruleset::resolve;
use zcash_tx_decryptor::ruleset::Network;
use zcash_tx_decryptor::ruleset::RuleSet;

fn empty_v5(id: [u8; 4]) -> Vec<u8> {
    let mut bytes = vec![0x05, 0x00, 0x00, 0x80, 0x0a, 0x27, 0xa7, 0x26];
    bytes.extend_from_slice(&id);
    bytes.extend_from_slice(&[0; 4]);
    bytes.extend_from_slice(&[0; 4]);
    bytes.extend_from_slice(&[0, 0, 0, 0, 0]);
    bytes
}

#[test]
fn parses_an_empty_version_five_transaction() {
    let raw = empty_v5([0xb4, 0xd0, 0xd6, 0xc2]);
    let parsed = parse(&raw, RuleSet { id: 0xc2d6_d0b4 }).unwrap();
    assert_eq!(parsed.size_bytes(), 25);
    assert_eq!(parsed.size_bytes(), raw.len());
}

#[test]
fn truncated_transaction_is_a_parse_error() {
    let raw = empty_v5([0xb4, 0xd0, 0xd6, 0xc2]);
    for len in 1..raw.len() {
        let result = parse(&raw[..len], RuleSet { id: 0xc2d6_d0b4 });
        assert!(matches!(result, Err(Error::ParseError(_))));
    }
}

#[test]
fn parse_error_carries_the_text_of_the_parser() {
    let unknown = empty_v5([0xef, 0xbe, 0xad, 0xde]);
    assert_eq!(
        parse(&unknown, RuleSet { id: 0xc8e7_1055 }).err(),
        Some(Error::ParseError("invalid consensus branch id 0xdeadbeef".to_string()))
    );
    assert_eq!(
        parse(&unknown, RuleSet { id: 1 }).err(),
        Some(Error::ParseError("Unknown consensus branch ID".to_string()))
    );
    let first = parse(&unknown[..5], RuleSet { id: 0xc8e7_1055 }).err();
    let again = parse(&unknown[..5], RuleSet { id: 0xc8e7_1055 }).err();
    assert_eq!(first, again);
}

#[test]
fn parse_error_carries_a_diagnostic() {
    match parse(&[0x05, 0x00, 0x00, 0x80, 0xff, 0xff, 0xff, 0xff], RuleSet { id: 0xc2d6_d0b4 }) {
        Err(Error::ParseError(diagnostic)) => assert!(!diagnostic.is_empty()),
        other => panic!("expected a parse error, got {:?}", other),
    }
}

#[test]
fn unknown_identifier_in_the_header_is_a_parse_error() {
    let raw = empty_v5([0xef, 0xbe, 0xad, 0xde]);
    let result = parse(&raw, RuleSet { id: 0xc8e7_1055 });
    assert!(matches!(result, Err(Error::ParseError(_))));
}

#[test]
fn rule_set_that_names_no_branch_is_a_parse_error() {
    let raw = empty_v5([0x55, 0x10, 0xe7, 0xc8]);
    let result = parse(&raw, RuleSet { id: 1 });
    assert!(matches!(result, Err(Error::ParseError(_))));
}

#[test]
fn empty_input_is_a_parse_error() {
    assert!(matches!(parse(&[], RuleSet { id: 0xc8e7_1055 }), Err(Error::ParseError(_))));
}

#[test]
fn patched_bytes_inside_the_window_are_parsed() {
    let raw = empty_v5([0xf0, 0x4d, 0xec, 0x4d]);
    let found = resolve(Network::Main, 3_200_000, &raw).unwrap();
    assert!(found.patched);
    assert_eq!(found.bytes, empty_v5([0x55, 0x10, 0xe7, 0xc8]));
    assert_eq!(found.rule_set, RuleSet { id: 0xc8e7_1055 });
    let parsed = parse(&found.bytes, found.rule_set).unwrap();
    assert_eq!(parsed.size_bytes(), raw.len());
}

#[test]
fn unpatched_bytes_below_the_window_are_parsed_as_they_are() {
    let raw = empty_v5([0xb4, 0xd0, 0xd6, 0xc2]);
    let found = resolve(Network::Test, 2_500_000, &raw).unwrap();
    assert!(!found.patched);
    assert_eq!(found.bytes, raw);
    assert!(parse(&found.bytes, found.rule_set).is_ok());
}

use zcash_tx_decryptor::aggregate::aggregate;
use zcash_tx_decryptor::aggregate::sum_transfers;
use zcash_tx_decryptor::aggregate::TransferTotals;
use zcash_tx_decryptor::error::Error;
use zcash_tx_decryptor::outputs::DecryptedOutput;
use zcash_tx_decryptor::outputs::OutputInfo;
use zcash_tx_decryptor::outputs::Protocol;
use zcash_tx_decryptor::outputs::TransferType;

fn output(protocol: Protocol, index: usize, transfer: TransferType, value: u64) -> DecryptedOutput {
    DecryptedOutput { protocol, value, index, transfer, memo: Vec::new() }
}

fn record(protocol: &str, index: usize, transfer_type: &str, direction: &str, amount: i64) -> OutputInfo {
    OutputInfo {
        protocol: protocol.to_string(),
        amount_zats: amount,
        index,
        transfer_type: transfer_type.to_string(),
        direction: direction.to_string(),
        memo: String::new(),
    }
}

#[test]
fn aggregation_preserves_order_and_splits_totals() {
    let outputs = vec![
        output(Protocol::Sapling, 0, TransferType::Incoming, 5),
        output(Protocol::Sapling, 1, TransferType::Outgoing, 3),
        output(Protocol::Orchard, 0, TransferType::Internal, 2),
    ];
    let (records, totals) = aggregate(&outputs).unwrap();
    assert_eq!(totals, TransferTotals { incoming: 5, internal: 2, outgoing: 3 });
    assert_eq!(records, vec![
        record("Sapling", 0, "Incoming", "received", 5),
        record("Sapling", 1, "Outgoing", "sent", 3),
        record("Orchard", 0, "WalletInternal", "change", 2),
    ]);
}

#[test]
fn records_follow_the_order_given_not_the_index() {
    let outputs = vec![
        output(Protocol::Orchard, 7, TransferType::Outgoing, 1),
        output(Protocol::Sapling, 3, TransferType::Incoming, 2),
        output(Protocol::Sapling, 1, TransferType::Incoming, 4),
    ];
    let (records, totals) = aggregate(&outputs).unwrap();
    assert_eq!(records.iter().map(|r| r.index).collect::<Vec<_>>(), vec![7, 3, 1]);
    assert_eq!(records.iter().map(|r| r.amount_zats).collect::<Vec<_>>(), vec![1, 2, 4]);
    assert_eq!(records[0].protocol, "Orchard");
    assert_eq!(totals, TransferTotals { incoming: 6, internal: 0, outgoing: 1 });
}

#[test]
fn no_outputs_give_no_records_and_zero_totals() {
    let (records, totals) = aggregate(&[]).unwrap();
    assert!(records.is_empty());
    assert_eq!(totals, TransferTotals { incoming: 0, internal: 0, outgoing: 0 });
    assert_eq!(totals, TransferTotals::new());
}

#[test]
fn values_of_one_class_add_up() {
    let outputs = vec![
        output(Protocol::Sapling, 0, TransferType::Incoming, 100_000_000),
        output(Protocol::Sapling, 1, TransferType::Incoming, 250),
        output(Protocol::Orchard, 0, TransferType::Incoming, 1),
        output(Protocol::Orchard, 1, TransferType::Internal, 40),
        output(Protocol::Orchard, 2, TransferType::Internal, 2),
    ];
    let (_, totals) = aggregate(&outputs).unwrap();
    assert_eq!(totals, TransferTotals { incoming: 100_000_251, internal: 42, outgoing: 0 });
    assert_eq!(sum_transfers(&outputs), Ok(totals));
}

#[test]
fn unrecognized_classification_fails_aggregation() {
    let outputs = vec![
        output(Protocol::Sapling, 0, TransferType::Incoming, 5),
        output(Protocol::Sapling, 1, TransferType::Unrecognized, 3),
        output(Protocol::Orchard, 0, TransferType::Internal, 2),
    ];
    assert_eq!(aggregate(&outputs), Err(Error::UnknownClassification));
    assert_eq!(sum_transfers(&outputs), Err(Error::UnknownClassification));
    let alone = vec![output(Protocol::Orchard, 0, TransferType::Unrecognized, 0)];
    assert_eq!(aggregate(&alone), Err(Error::UnknownClassification));
}

#[test]
fn unrecognized_classification_comes_before_overflow() {
    let outputs = vec![
        output(Protocol::Sapling, 0, TransferType::Incoming, u64::MAX),
        output(Protocol::Sapling, 1, TransferType::Unrecognized, 3),
    ];
    assert_eq!(aggregate(&outputs), Err(Error::UnknownClassification));
}

#[test]
fn totals_beyond_the_signed_range_are_refused() {
    let limit = i64::MAX as u64;
    let at_limit = vec![output(Protocol::Sapling, 0, TransferType::Incoming, limit)];
    let (records, totals) = aggregate(&at_limit).unwrap();
    assert_eq!(totals.incoming, limit);
    assert_eq!(records[0].amount_zats, i64::MAX);

    let beyond = vec![output(Protocol::Sapling, 0, TransferType::Incoming, limit + 1)];
    assert_eq!(aggregate(&beyond), Err(Error::AmountOverflow));

    let outgoing = vec![output(Protocol::Sapling, 0, TransferType::Outgoing, limit + 1)];
    assert_eq!(aggregate(&outgoing), Err(Error::AmountOverflow));

    let together = vec![
        output(Protocol::Sapling, 0, TransferType::Incoming, limit),
        output(Protocol::Sapling, 1, TransferType::Internal, 1),
    ];
    assert_eq!(aggregate(&together), Err(Error::AmountOverflow));

    let apart = vec![
        output(Protocol::Sapling, 0, TransferType::Incoming, limit),
        output(Protocol::Sapling, 1, TransferType::Outgoing, limit),
    ];
    assert!(aggregate(&apart).is_ok());
}

#[test]
fn accumulators_saturate_and_never_fall() {
    let mut totals = TransferTotals::new();
    let mut before = totals;
    for value in [1, u64::MAX - 1, 7, u64::MAX, 0, 3] {
        assert_eq!(totals.record(TransferType::Incoming, value), Ok(()));
        assert!(totals.incoming >= before.incoming);
        assert_eq!(totals.internal, 0);
        assert_eq!(totals.outgoing, 0);
        before = totals;
    }
    assert_eq!(totals.incoming, u64::MAX);

    let saturated = vec![
        output(Protocol::Sapling, 0, TransferType::Outgoing, u64::MAX),
        output(Protocol::Sapling, 1, TransferType::Outgoing, u64::MAX),
    ];
    assert_eq!(sum_transfers(&saturated), Ok(TransferTotals {
        incoming: 0,
        internal: 0,
        outgoing: u64::MAX,
    }));
}

#[test]
fn record_counts_under_the_class_given() {
    let mut totals = TransferTotals::new();
    assert_eq!(totals.record(TransferType::Incoming, 5), Ok(()));
    assert_eq!(totals.record(TransferType::Internal, 2), Ok(()));
    assert_eq!(totals.record(TransferType::Outgoing, 3), Ok(()));
    assert_eq!(totals.record(TransferType::Outgoing, 4), Ok(()));
    assert_eq!(totals, TransferTotals { incoming: 5, internal: 2, outgoing: 7 });
    assert_eq!(totals.record(TransferType::Unrecognized, 9), Err(Error::UnknownClassification));
    assert_eq!(totals, TransferTotals { incoming: 5, internal: 2, outgoing: 7 });
}

#[test]
fn total_received_is_incoming_plus_internal() {
    let totals = TransferTotals { incoming: 5, internal: 2, outgoing: 3 };
    assert_eq!(totals.total_received(), Ok(7));
    let large = TransferTotals { incoming: i64::MAX as u64 - 10, internal: 10, outgoing: 0 };
    assert_eq!(large.total_received(), Ok(i64::MAX));
    assert!(large.is_representable());
    let over = TransferTotals { incoming: i64::MAX as u64 - 10, internal: 11, outgoing: 0 };
    assert_eq!(over.total_received(), Err(Error::AmountOverflow));
    assert!(!over.is_representable());
    let wrapping = TransferTotals { incoming: u64::MAX, internal: u64::MAX, outgoing: 0 };
    assert_eq!(wrapping.total_received(), Err(Error::AmountOverflow));
    let outgoing_only = TransferTotals { incoming: 1, internal: 1, outgoing: u64::MAX };
    assert_eq!(outgoing_only.total_received(), Ok(2));
    assert!(!outgoing_only.is_representable());
}

#[test]
fn record_of_one_output() {
    let with_memo = DecryptedOutput {
        protocol: Protocol::Orchard,
        value: 12,
        index: 4,
        transfer: TransferType::Outgoing,
        memo: b"thanks".to_vec(),
    };
    assert_eq!(OutputInfo::from_output(&with_memo), Ok(OutputInfo {
        protocol: "Orchard".to_string(),
        amount_zats: 12,
        index: 4,
        transfer_type: "Outgoing".to_string(),
        direction: "sent".to_string(),
        memo: "thanks".to_string(),
    }));
    let unknown = output(Protocol::Sapling, 0, TransferType::Unrecognized, u64::MAX);
    assert_eq!(OutputInfo::from_output(&unknown), Err(Error::UnknownClassification));
    let too_large = output(Protocol::Sapling, 0, TransferType::Incoming, u64::MAX);
    assert_eq!(OutputInfo::from_output(&too_large), Err(Error::AmountOverflow));
}

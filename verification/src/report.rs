//! The summary of one transaction, and its assembly from the parts.
//!
//! Assembly is all or nothing: either every field of the summary is there, or
//! an error says why there is no summary.

use vstd::prelude::*;
use vstd::string::*;

use crate::aggregate::aggregate;
use crate::aggregate::aggregated;
use crate::aggregate::all_recognized;
use crate::aggregate::TransferTotals;
use crate::error::Error;
use crate::hexstr::is_hex;
use crate::hexstr::is_hex_digit;
use crate::hexstr::is_hex_text;
use crate::outputs::output_views;
use crate::outputs::record_views;
use crate::outputs::DecryptedOutput;
use crate::outputs::OutputInfo;
use crate::outputs::OutputView;
use crate::outputs::RecordView;

verus! {

/// Number of characters kept from each end of an identifier.
pub const SHORT_PART_LEN: usize = 16;

/// Smallest length of an identifier that can be shortened.
pub const MIN_ID_LEN: usize = 32;

/// A point in time: seconds since the Unix epoch, and nanoseconds into the
/// second.
#[derive(Clone, Copy, Debug, PartialEq, Eq, Structural)]
pub struct Timestamp {
    pub secs: i64,
    pub nanos: u32,
}

/// The summary of one transaction as seen through one viewing key.
#[derive(Clone, Debug, PartialEq, Eq)]
pub struct TransactionDetails {
    /// Full transaction identifier, as the caller gave it.
    pub transaction_id: String,
    /// Shortened identifier for display.
    pub transaction_hash: String,
    /// Total received: incoming and change together.
    pub amount_zats: i64,
    /// Received from outside the wallet.
    pub incoming_zats: i64,
    /// Change: sent by the wallet to itself.
    pub change_zats: i64,
    /// Sent to somebody else.
    pub outgoing_zats: i64,
    /// Always zero: a viewing key does not show what the inputs were worth,
    /// so the fee is not computed. Zero here is no statement about the fee.
    pub fee_zats: i64,
    /// When the summary was made; not taken from the chain.
    pub timestamp: Timestamp,
    /// Height at which the transaction was confirmed, as the caller gave it.
    pub block_height: u32,
    /// One record per decrypted output, in discovery order.
    pub outputs: Vec<OutputInfo>,
    /// Size of the raw transaction in bytes.
    pub tx_size_bytes: usize,
}

/// A [`TransactionDetails`] as contracts see it.
pub struct DetailsView {
    pub transaction_id: Seq<char>,
    pub transaction_hash: Seq<char>,
    pub amount_zats: int,
    pub incoming_zats: int,
    pub change_zats: int,
    pub outgoing_zats: int,
    pub fee_zats: int,
    pub timestamp: Timestamp,
    pub block_height: u32,
    pub outputs: Seq<RecordView>,
    pub tx_size_bytes: usize,
}

impl View for TransactionDetails {
    type V = DetailsView;

    open spec fn view(&self) -> DetailsView {
        DetailsView {
            transaction_id: self.transaction_id@,
            transaction_hash: self.transaction_hash@,
            amount_zats: self.amount_zats as int,
            incoming_zats: self.incoming_zats as int,
            change_zats: self.change_zats as int,
            outgoing_zats: self.outgoing_zats as int,
            fee_zats: self.fee_zats as int,
            timestamp: self.timestamp,
            block_height: self.block_height,
            outputs: record_views(self.outputs@),
            tx_size_bytes: self.tx_size_bytes,
        }
    }
}

/// Whether an identifier can be shortened: hexadecimal digits only, and at
/// least 32 of them.
pub open spec fn can_shorten(id: Seq<char>) -> bool {
    id.len() >= MIN_ID_LEN && is_hex(id)
}

/// The display form of an identifier: its first 16 characters, an ellipsis
/// of three dots, its last 16 characters.
pub open spec fn shortened(id: Seq<char>) -> Seq<char>
    recommends
        can_shorten(id),
{
    id.take(SHORT_PART_LEN as int) + "..."@ + id.skip(id.len() - SHORT_PART_LEN)
}

/// The summary that the parts make up, or the reason why they make none: an
/// identifier that cannot be shortened first, then totals beyond the signed
/// range.
pub open spec fn assembled(
    txid: Seq<char>,
    height: u32,
    size_bytes: usize,
    records: Seq<RecordView>,
    totals: TransferTotals,
    timestamp: Timestamp,
) -> Result<DetailsView, Error> {
    if !can_shorten(txid) {
        Err(Error::InvalidIdentifier)
    } else if !totals.representable() {
        Err(Error::AmountOverflow)
    } else {
        Ok(
            DetailsView {
                transaction_id: txid,
                transaction_hash: shortened(txid),
                amount_zats: totals.incoming + totals.internal,
                incoming_zats: totals.incoming as int,
                change_zats: totals.internal as int,
                outgoing_zats: totals.outgoing as int,
                fee_zats: 0,
                timestamp,
                block_height: height,
                outputs: records,
                tx_size_bytes: size_bytes,
            },
        )
    }
}

/// The summary of a transaction with the decrypted outputs `outputs`, or the
/// reason why there is none: an identifier that cannot be shortened first,
/// then what stops the aggregation.
pub open spec fn summarized(
    txid: Seq<char>,
    height: u32,
    size_bytes: usize,
    outputs: Seq<OutputView>,
    timestamp: Timestamp,
) -> Result<DetailsView, Error> {
    if !can_shorten(txid) {
        Err(Error::InvalidIdentifier)
    } else {
        match aggregated(outputs) {
            Ok((records, totals)) => assembled(txid, height, size_bytes, records, totals, timestamp),
            Err(failure) => Err(failure),
        }
    }
}

/// The shape of a shortened identifier: 35 characters, of which the first 16
/// are the first 16 of the identifier, the next three are dots, and the last
/// 16 are the last 16 of the identifier.
pub proof fn lemma_shortened_form(id: Seq<char>)
    requires
        id.len() >= MIN_ID_LEN,
    ensures
        shortened(id).len() == 2 * SHORT_PART_LEN + 3,
        shortened(id).subrange(0, SHORT_PART_LEN as int) == id.subrange(0, SHORT_PART_LEN as int),
        shortened(id).subrange(SHORT_PART_LEN as int, SHORT_PART_LEN + 3) == seq!['.', '.', '.'],
        shortened(id).subrange(SHORT_PART_LEN + 3, 2 * SHORT_PART_LEN + 3) == id.subrange(
            id.len() - SHORT_PART_LEN,
            id.len() as int,
        ),
{
    reveal_strlit("...");
    let short = shortened(id);
    assert("..."@ =~= seq!['.', '.', '.']);
    assert(short.subrange(0, SHORT_PART_LEN as int) =~= id.subrange(0, SHORT_PART_LEN as int));
    assert(short.subrange(SHORT_PART_LEN as int, SHORT_PART_LEN + 3) =~= seq!['.', '.', '.']);
    assert(short.subrange(SHORT_PART_LEN + 3, 2 * SHORT_PART_LEN + 3) =~= id.subrange(
        id.len() - SHORT_PART_LEN,
        id.len() as int,
    ));
}

/// An identifier of fewer than 32 characters leaves no summary: assembly
/// fails, and the reason given is the identifier, whatever the totals are.
pub proof fn lemma_short_identifier_is_refused(
    txid: Seq<char>,
    height: u32,
    size_bytes: usize,
    records: Seq<RecordView>,
    totals: TransferTotals,
    timestamp: Timestamp,
)
    requires
        txid.len() < MIN_ID_LEN,
    ensures
        assembled(txid, height, size_bytes, records, totals, timestamp) == Err::<
            DetailsView,
            Error,
        >(Error::InvalidIdentifier),
{
}

/// In every summary the total received is incoming and change together,
/// exactly, the fee is zero, and each amount is the total it came from.
pub proof fn lemma_total_received_is_exact(
    txid: Seq<char>,
    height: u32,
    size_bytes: usize,
    records: Seq<RecordView>,
    totals: TransferTotals,
    timestamp: Timestamp,
)
    requires
        assembled(txid, height, size_bytes, records, totals, timestamp) is Ok,
    ensures
        ({
            let details = assembled(txid, height, size_bytes, records, totals, timestamp).unwrap();
            &&& details.amount_zats == details.incoming_zats + details.change_zats
            &&& details.amount_zats == totals.incoming + totals.internal
            &&& details.amount_zats <= i64::MAX
            &&& details.outgoing_zats <= i64::MAX
            &&& details.incoming_zats == totals.incoming
            &&& details.change_zats == totals.internal
            &&& details.outgoing_zats == totals.outgoing
            &&& details.fee_zats == 0
        }),
{
}

/// An identifier that cannot be shortened leaves no summary, whatever the
/// outputs are; with one that can, an output whose classification is not
/// recognised leaves none either.
pub proof fn lemma_summary_is_all_or_nothing(
    txid: Seq<char>,
    height: u32,
    size_bytes: usize,
    outputs: Seq<OutputView>,
    timestamp: Timestamp,
)
    ensures
        !can_shorten(txid) ==> summarized(txid, height, size_bytes, outputs, timestamp) == Err::<
            DetailsView,
            Error,
        >(Error::InvalidIdentifier),
        can_shorten(txid) && !all_recognized(outputs) ==> summarized(
            txid,
            height,
            size_bytes,
            outputs,
            timestamp,
        ) == Err::<DetailsView, Error>(Error::UnknownClassification),
        summarized(txid, height, size_bytes, outputs, timestamp) is Ok <==> can_shorten(txid)
            && aggregated(outputs) is Ok,
{
}

/// Shortens a transaction identifier for display.
///
/// An identifier of fewer than 32 characters, or with a character that is no
/// hexadecimal digit, is refused.
pub fn shorten_txid(txid: &str) -> (result: Result<String, Error>)
    ensures
        result is Ok <==> can_shorten(txid@),
        result matches Ok(short) ==> short@ == shortened(txid@),
        result matches Err(failure) ==> failure == Error::InvalidIdentifier,
{
    if !is_hex_text(txid) {
        return Err(Error::InvalidIdentifier);
    }
    assert(is_ascii(txid)) by {
        assert forall|i: int| 0 <= i < txid@.len() implies '\0' <= #[trigger] txid@[i]
            <= '\u{7f}' by {
            assert(is_hex_digit(txid@[i]));
        }
    }
    let len = txid.as_bytes().len();
    assert(len == txid@.len()) by {
        is_ascii_spec_bytes(txid);
        assert(txid.spec_bytes().len() == txid@.len());
    }
    if len < MIN_ID_LEN {
        return Err(Error::InvalidIdentifier);
    }
    let head = txid.substring_ascii(0, SHORT_PART_LEN);
    let tail = txid.substring_ascii(len - SHORT_PART_LEN, len);
    let mut short = head.to_owned();
    short.append("...");
    short.append(tail);
    assert(short@ =~= shortened(txid@));
    Ok(short)
}

/// Puts a summary together from parts that fit.
fn compose(
    txid: &str,
    short: String,
    height: u32,
    size_bytes: usize,
    records: Vec<OutputInfo>,
    totals: TransferTotals,
    received: i64,
    timestamp: Timestamp,
) -> (details: TransactionDetails)
    requires
        can_shorten(txid@),
        short@ == shortened(txid@),
        totals.representable(),
        received == totals.incoming + totals.internal,
    ensures
        Ok::<DetailsView, Error>(details@) == assembled(
            txid@,
            height,
            size_bytes,
            record_views(records@),
            totals,
            timestamp,
        ),
{
    TransactionDetails {
        transaction_id: txid.to_owned(),
        transaction_hash: short,
        amount_zats: received,
        incoming_zats: totals.incoming as i64,
        change_zats: totals.internal as i64,
        outgoing_zats: totals.outgoing as i64,
        fee_zats: 0,
        timestamp,
        block_height: height,
        outputs: records,
        tx_size_bytes: size_bytes,
    }
}

/// Assembles the summary of a transaction from its identifier, the height
/// and the size that the caller knows, the records and totals of the
/// aggregation, and the time of the summary.
///
/// The total received is incoming and internal together, exactly; the fee is
/// zero. An identifier that cannot be shortened is refused, and so are totals
/// that do not fit the signed amounts of the summary.
pub fn assemble(
    txid: &str,
    height: u32,
    size_bytes: usize,
    records: Vec<OutputInfo>,
    totals: TransferTotals,
    timestamp: Timestamp,
) -> (result: Result<TransactionDetails, Error>)
    ensures
        match result {
            Ok(details) => Ok::<DetailsView, Error>(details@) == assembled(
                txid@,
                height,
                size_bytes,
                record_views(records@),
                totals,
                timestamp,
            ),
            Err(failure) => Err::<DetailsView, Error>(failure) == assembled(
                txid@,
                height,
                size_bytes,
                record_views(records@),
                totals,
                timestamp,
            ),
        },
{
    let short = match shorten_txid(txid) {
        Ok(short) => short,
        Err(failure) => {
            return Err(failure);
        },
    };
    let received = match totals.total_received() {
        Ok(received) => received,
        Err(failure) => {
            return Err(failure);
        },
    };
    if !totals.is_representable() {
        return Err(Error::AmountOverflow);
    }
    Ok(compose(txid, short, height, size_bytes, records, totals, received, timestamp))
}

/// Builds the summary of a transaction from the outputs that trial
/// decryption recognised.
///
/// The records of the summary follow the order of `outputs`. The identifier
/// is checked before anything is counted.
pub fn build_transaction_details(
    txid: &str,
    height: u32,
    tx_size_bytes: usize,
    outputs: &[DecryptedOutput],
    timestamp: Timestamp,
) -> (result: Result<TransactionDetails, Error>)
    ensures
        match result {
            Ok(details) => Ok::<DetailsView, Error>(details@) == summarized(
                txid@,
                height,
                tx_size_bytes,
                output_views(outputs@),
                timestamp,
            ),
            Err(failure) => Err::<DetailsView, Error>(failure) == summarized(
                txid@,
                height,
                tx_size_bytes,
                output_views(outputs@),
                timestamp,
            ),
        },
{
    let short = match shorten_txid(txid) {
        Ok(short) => short,
        Err(failure) => {
            return Err(failure);
        },
    };
    let (records, totals) = match aggregate(outputs) {
        Ok(parts) => parts,
        Err(failure) => {
            return Err(failure);
        },
    };
    let received = match totals.total_received() {
        Ok(received) => received,
        Err(failure) => {
            return Err(failure);
        },
    };
    Ok(compose(txid, short, height, tx_size_bytes, records, totals, received, timestamp))
}

} // verus!

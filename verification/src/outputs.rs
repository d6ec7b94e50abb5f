//! The shielded outputs that trial decryption recognised, and the record that
//! the summary keeps of each.

use vstd::prelude::*;
use vstd::utf8::*;

use crate::error::Error;

verus! {

/// The shielded protocol an output belongs to.
#[derive(Clone, Copy, Debug, PartialEq, Eq, Structural)]
pub enum Protocol {
    /// The Sapling shielded protocol.
    Sapling,
    /// The Orchard shielded protocol.
    Orchard,
}

/// How an output relates to the holder of the viewing key.
#[derive(Clone, Copy, Debug, PartialEq, Eq, Structural)]
pub enum TransferType {
    /// Received from outside the wallet.
    Incoming,
    /// Sent by the wallet to itself: change.
    Internal,
    /// Sent to somebody else, visible through the outgoing viewing key.
    Outgoing,
    /// Any relation that the summary has no direction for. It is never
    /// counted: an output that carries it stops the aggregation.
    Unrecognized,
}

/// One shielded output that trial decryption recognised.
#[derive(Clone, Debug, PartialEq, Eq)]
pub struct DecryptedOutput {
    /// The protocol of the bundle the output sits in.
    pub protocol: Protocol,
    /// The value of the note, in the smallest monetary unit.
    pub value: u64,
    /// The position of the output within its protocol's list.
    pub index: usize,
    /// How the output relates to the key holder.
    pub transfer: TransferType,
    /// The memo field of the note. No memo was set where it is empty, all
    /// zero, or the no-memo marker followed by nothing but zeros.
    pub memo: Vec<u8>,
}

/// A [`DecryptedOutput`] as contracts see it.
pub struct OutputView {
    pub protocol: Protocol,
    pub value: u64,
    pub index: usize,
    pub transfer: TransferType,
    pub memo: Seq<u8>,
}

impl View for DecryptedOutput {
    type V = OutputView;

    open spec fn view(&self) -> OutputView {
        OutputView {
            protocol: self.protocol,
            value: self.value,
            index: self.index,
            transfer: self.transfer,
            memo: self.memo@,
        }
    }
}

/// The views of a list of outputs, in the same order.
pub open spec fn output_views(outputs: Seq<DecryptedOutput>) -> Seq<OutputView> {
    outputs.map_values(|output: DecryptedOutput| output@)
}

/// What the summary keeps of a single decrypted output.
#[derive(Clone, Debug, PartialEq, Eq)]
pub struct OutputInfo {
    /// Protocol: "Sapling" or "Orchard".
    pub protocol: String,
    /// Amount in the smallest monetary unit.
    pub amount_zats: i64,
    /// Index of the output within its bundle.
    pub index: usize,
    /// Transfer type: "Incoming", "WalletInternal" or "Outgoing".
    pub transfer_type: String,
    /// Direction label: "received", "change" or "sent".
    pub direction: String,
    /// Memo text attached to the output; empty when there is none.
    pub memo: String,
}

/// An [`OutputInfo`] as contracts see it.
pub struct RecordView {
    pub protocol: Seq<char>,
    pub amount_zats: int,
    pub index: usize,
    pub transfer_type: Seq<char>,
    pub direction: Seq<char>,
    pub memo: Seq<char>,
}

impl View for OutputInfo {
    type V = RecordView;

    open spec fn view(&self) -> RecordView {
        RecordView {
            protocol: self.protocol@,
            amount_zats: self.amount_zats as int,
            index: self.index,
            transfer_type: self.transfer_type@,
            direction: self.direction@,
            memo: self.memo@,
        }
    }
}

/// The views of a list of records, in the same order.
pub open spec fn record_views(records: Seq<OutputInfo>) -> Seq<RecordView> {
    records.map_values(|record: OutputInfo| record@)
}

/// The name a protocol goes by in records.
pub open spec fn protocol_label(protocol: Protocol) -> Seq<char> {
    match protocol {
        Protocol::Sapling => "Sapling"@,
        Protocol::Orchard => "Orchard"@,
    }
}

/// The transfer type and the direction that records show for a
/// classification; none for one that is not recognised.
pub open spec fn display_pair(transfer: TransferType) -> Option<(Seq<char>, Seq<char>)> {
    match transfer {
        TransferType::Incoming => Some(("Incoming"@, "received"@)),
        TransferType::Internal => Some(("WalletInternal"@, "change"@)),
        TransferType::Outgoing => Some(("Outgoing"@, "sent"@)),
        TransferType::Unrecognized => None,
    }
}

impl Protocol {
    /// The name the protocol goes by in records.
    pub fn label(self) -> (name: &'static str)
        ensures
            name@ == protocol_label(self),
    {
        match self {
            Protocol::Sapling => "Sapling",
            Protocol::Orchard => "Orchard",
        }
    }
}

impl TransferType {
    /// Whether the classification is one of the three that are counted.
    pub open spec fn recognized(self) -> bool {
        self != TransferType::Unrecognized
    }

    /// The transfer type and the direction that records show.
    ///
    /// The mapping is closed: a classification outside the three counted ones
    /// has no labels and is an error, never a default.
    pub fn labels(self) -> (result: Result<(&'static str, &'static str), Error>)
        ensures
            result is Ok <==> self.recognized(),
            result matches Ok(pair) ==> display_pair(self) == Some((pair.0@, pair.1@)),
            result matches Err(failure) ==> failure == Error::UnknownClassification,
    {
        match self {
            TransferType::Incoming => Ok(("Incoming", "received")),
            TransferType::Internal => Ok(("WalletInternal", "change")),
            TransferType::Outgoing => Ok(("Outgoing", "sent")),
            TransferType::Unrecognized => Err(Error::UnknownClassification),
        }
    }
}

/// `bytes` without the zero bytes at its end.
pub open spec fn without_padding(bytes: Seq<u8>) -> Seq<u8>
    decreases bytes.len(),
{
    if bytes.len() > 0 && bytes.last() == 0 {
        without_padding(bytes.drop_last())
    } else {
        bytes
    }
}

/// The text that lossy UTF-8 decoding makes of `bytes`: the text they
/// encode, with a replacement character for each run that encodes none.
pub uninterp spec fn lossy_text(bytes: Seq<u8>) -> Seq<char>;

/// The first byte of a memo field that says that no memo was set.
pub const NO_MEMO_MARKER: u8 = 0xf6;

/// Whether the memo field `bytes` holds no memo: nothing but padding, or the
/// no-memo marker and nothing but padding after it.
pub open spec fn is_unset_memo(bytes: Seq<u8>) -> bool {
    let content = without_padding(bytes);
    content.len() == 0 || (content.len() == 1 && content[0] == NO_MEMO_MARKER)
}

/// The memo text of a record whose note carries the memo field `bytes`:
/// empty when no memo was set, else the lossy decoding of the field without
/// its padding.
pub open spec fn memo_text(bytes: Seq<u8>) -> Seq<char> {
    if is_unset_memo(bytes) {
        Seq::<char>::empty()
    } else {
        lossy_text(without_padding(bytes))
    }
}

/// Calls `String::from_utf8_lossy` and takes the text as an owned string.
///
/// Trusted: the text is a function of the bytes alone, named [`lossy_text`];
/// where the bytes are valid UTF-8 it is the text they encode.
#[verifier::external_body]
fn decode_lossy(bytes: &[u8]) -> (text: String)
    ensures
        text@ == lossy_text(bytes@),
        valid_utf8(bytes@) ==> text@ == decode_utf8(bytes@),
{
    String::from_utf8_lossy(bytes).into_owned()
}

/// The length of `bytes` once the zero bytes at its end are dropped.
pub fn content_len(bytes: &[u8]) -> (len: usize)
    ensures
        len <= bytes@.len(),
        bytes@.take(len as int) == without_padding(bytes@),
{
    let mut len: usize = bytes.len();
    assert(bytes@.take(len as int) =~= bytes@);
    while len > 0 && bytes[len - 1] == 0
        invariant
            len <= bytes@.len(),
            without_padding(bytes@.take(len as int)) == without_padding(bytes@),
        decreases len,
    {
        assert(bytes@.take(len as int).drop_last() =~= bytes@.take(len - 1));
        len -= 1;
    }
    len
}

/// The memo text for a memo field.
///
/// A field that holds no memo gives the empty string: no marker, no
/// replacement character, no padding. Where the field without its padding is
/// valid UTF-8, the text is the one it encodes.
pub fn memo_to_text(bytes: &[u8]) -> (text: String)
    ensures
        text@ == memo_text(bytes@),
        is_unset_memo(bytes@) ==> text@.len() == 0,
        valid_utf8(without_padding(bytes@)) ==> text@ == decode_utf8(without_padding(bytes@)),
{
    let len = content_len(bytes);
    if len == 0 || (len == 1 && bytes[0] == NO_MEMO_MARKER) {
        proof {
            let content = without_padding(bytes@);
            assert(content =~= bytes@.take(len as int));
            if len == 1 {
                assert(content[0] == bytes@[0]);
                assert(!valid_first_scalar(content));
            }
        }
        String::new()
    } else {
        let content = vstd::slice::slice_subrange(bytes, 0, len);
        assert(content@ =~= bytes@.take(len as int));
        decode_lossy(content)
    }
}

} // verus!

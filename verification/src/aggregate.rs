//! Totals by transfer direction, and the aggregation of decrypted outputs
//! into records and totals.
//!
//! Each total is an unsigned accumulator that saturates: it never wraps, and
//! once it has reached the largest value it stays there. The summary holds
//! signed amounts, so totals that do not fit a signed field are refused when
//! the aggregation ends.

use vstd::prelude::*;

use crate::error::Error;
use crate::outputs::display_pair;
use crate::outputs::is_unset_memo;
use crate::outputs::memo_text;
use crate::outputs::memo_to_text;
use crate::outputs::output_views;
use crate::outputs::protocol_label;
use crate::outputs::record_views;
use crate::outputs::DecryptedOutput;
use crate::outputs::OutputInfo;
use crate::outputs::OutputView;
use crate::outputs::RecordView;
use crate::outputs::TransferType;

verus! {

/// The value seen so far in each direction, in the smallest monetary unit.
#[derive(Clone, Copy, Debug, PartialEq, Eq, Structural)]
pub struct TransferTotals {
    /// Received from outside the wallet.
    pub incoming: u64,
    /// Sent by the wallet to itself: change.
    pub internal: u64,
    /// Sent to somebody else.
    pub outgoing: u64,
}

/// The largest amount that a signed field of the summary holds.
pub const MAX_AMOUNT: u64 = 0x7fff_ffff_ffff_ffff;

/// `amount` as an accumulator holds it: itself, or the largest value of the
/// accumulator where it is beyond that.
pub open spec fn capped(amount: nat) -> u64 {
    if amount >= u64::MAX {
        u64::MAX
    } else {
        amount as u64
    }
}

/// The sum of the values of the outputs classified as `transfer`.
pub open spec fn class_sum(outputs: Seq<OutputView>, transfer: TransferType) -> nat
    decreases outputs.len(),
{
    if outputs.len() == 0 {
        0
    } else {
        let last = outputs.last();
        class_sum(outputs.drop_last(), transfer) + if last.transfer == transfer {
            last.value as nat
        } else {
            0
        }
    }
}

/// The totals that accumulating `outputs` in order arrives at.
pub open spec fn totals_of(outputs: Seq<OutputView>) -> TransferTotals {
    TransferTotals {
        incoming: capped(class_sum(outputs, TransferType::Incoming)),
        internal: capped(class_sum(outputs, TransferType::Internal)),
        outgoing: capped(class_sum(outputs, TransferType::Outgoing)),
    }
}

/// Whether every output carries one of the three counted classifications.
pub open spec fn all_recognized(outputs: Seq<OutputView>) -> bool {
    forall|i: int| 0 <= i < outputs.len() ==> (#[trigger] outputs[i]).transfer.recognized()
}

/// The record that the summary keeps of `output`.
pub open spec fn record_of(output: OutputView) -> RecordView
    recommends
        output.transfer.recognized(),
{
    RecordView {
        protocol: protocol_label(output.protocol),
        amount_zats: output.value as int,
        index: output.index,
        transfer_type: display_pair(output.transfer).unwrap().0,
        direction: display_pair(output.transfer).unwrap().1,
        memo: memo_text(output.memo),
    }
}

/// What may stand in the way of a record for `output`, if anything: an
/// unrecognised classification first, then a value beyond the signed range.
pub open spec fn record_failure(output: OutputView) -> Option<Error> {
    if !output.transfer.recognized() {
        Some(Error::UnknownClassification)
    } else if output.value > MAX_AMOUNT {
        Some(Error::AmountOverflow)
    } else {
        None
    }
}

/// What aggregation makes of `outputs`: one record per output in the order
/// given, and the totals; or the reason why there is no summary.
pub open spec fn aggregated(outputs: Seq<OutputView>) -> Result<
    (Seq<RecordView>, TransferTotals),
    Error,
> {
    if !all_recognized(outputs) {
        Err(Error::UnknownClassification)
    } else if !totals_of(outputs).representable() {
        Err(Error::AmountOverflow)
    } else {
        Ok((outputs.map_values(|output: OutputView| record_of(output)), totals_of(outputs)))
    }
}

impl TransferTotals {
    /// Whether each total, and incoming and internal together, fit a signed
    /// amount of the summary.
    pub open spec fn representable(self) -> bool {
        self.incoming + self.internal <= MAX_AMOUNT && self.outgoing <= MAX_AMOUNT
    }

    /// The totals after `value` has been counted under `transfer`.
    pub open spec fn credited(self, transfer: TransferType, value: u64) -> TransferTotals {
        match transfer {
            TransferType::Incoming => TransferTotals {
                incoming: capped((self.incoming + value) as nat),
                ..self
            },
            TransferType::Internal => TransferTotals {
                internal: capped((self.internal + value) as nat),
                ..self
            },
            TransferType::Outgoing => TransferTotals {
                outgoing: capped((self.outgoing + value) as nat),
                ..self
            },
            TransferType::Unrecognized => self,
        }
    }

    /// Totals with nothing counted.
    pub fn new() -> (totals: TransferTotals)
        ensures
            totals == (TransferTotals { incoming: 0, internal: 0, outgoing: 0 }),
            totals == totals_of(Seq::<OutputView>::empty()),
    {
        TransferTotals { incoming: 0, internal: 0, outgoing: 0 }
    }

    /// Counts `value` under `transfer`, saturating.
    ///
    /// No total ever gets smaller. A classification that is not recognised
    /// is refused and leaves the totals as they were.
    pub fn record(&mut self, transfer: TransferType, value: u64) -> (result: Result<(), Error>)
        ensures
            *final(self) == old(self).credited(transfer, value),
            final(self).incoming >= old(self).incoming,
            final(self).internal >= old(self).internal,
            final(self).outgoing >= old(self).outgoing,
            result is Ok <==> transfer.recognized(),
            result matches Err(failure) ==> failure == Error::UnknownClassification,
    {
        match transfer {
            TransferType::Incoming => {
                self.incoming = self.incoming.saturating_add(value);
                Ok(())
            },
            TransferType::Internal => {
                self.internal = self.internal.saturating_add(value);
                Ok(())
            },
            TransferType::Outgoing => {
                self.outgoing = self.outgoing.saturating_add(value);
                Ok(())
            },
            TransferType::Unrecognized => Err(Error::UnknownClassification),
        }
    }

    /// Whether the totals fit the signed amounts of the summary.
    pub fn is_representable(&self) -> (fits: bool)
        ensures
            fits == self.representable(),
    {
        self.outgoing <= MAX_AMOUNT && self.incoming <= MAX_AMOUNT && self.internal <= MAX_AMOUNT
            - self.incoming
    }

    /// What was received in all: incoming and internal together, exactly.
    ///
    /// Fails where the sum does not fit a signed amount; it is never
    /// truncated.
    pub fn total_received(&self) -> (result: Result<i64, Error>)
        ensures
            result is Ok <==> self.incoming + self.internal <= MAX_AMOUNT,
            result matches Ok(total) ==> total == self.incoming + self.internal,
            result matches Err(failure) ==> failure == Error::AmountOverflow,
    {
        if self.incoming <= MAX_AMOUNT && self.internal <= MAX_AMOUNT - self.incoming {
            Ok((self.incoming + self.internal) as i64)
        } else {
            Err(Error::AmountOverflow)
        }
    }
}

/// Counting one more output adds its value to the sum of its class and
/// leaves the sums of the other classes alone.
pub proof fn lemma_class_sum_push(outputs: Seq<OutputView>, next: OutputView, transfer: TransferType)
    ensures
        class_sum(outputs.push(next), transfer) == class_sum(outputs, transfer) + if next.transfer
            == transfer {
            next.value as nat
        } else {
            0
        },
{
    assert(outputs.push(next).drop_last() =~= outputs);
}

/// Accumulating with saturation arrives at the capped sum: the totals after
/// one more output are the totals before it, credited with its value.
pub proof fn lemma_totals_step(outputs: Seq<OutputView>, next: OutputView)
    requires
        next.transfer.recognized(),
    ensures
        totals_of(outputs.push(next)) == totals_of(outputs).credited(next.transfer, next.value),
{
    lemma_class_sum_push(outputs, next, TransferType::Incoming);
    lemma_class_sum_push(outputs, next, TransferType::Internal);
    lemma_class_sum_push(outputs, next, TransferType::Outgoing);
}

/// The sum of a class over the first `shorter` outputs is at most its sum
/// over the first `longer` ones.
pub proof fn lemma_class_sum_monotonic(
    outputs: Seq<OutputView>,
    transfer: TransferType,
    shorter: int,
    longer: int,
)
    requires
        0 <= shorter <= longer <= outputs.len(),
    ensures
        class_sum(outputs.take(shorter), transfer) <= class_sum(outputs.take(longer), transfer),
    decreases longer - shorter,
{
    if shorter < longer {
        lemma_class_sum_monotonic(outputs, transfer, shorter, longer - 1);
        assert(outputs.take(longer).drop_last() =~= outputs.take(longer - 1));
    }
}

/// A running total never falls: after any further outputs each accumulator
/// holds at least what it held before, whether or not it has saturated.
pub proof fn lemma_totals_never_fall(outputs: Seq<OutputView>, shorter: int, longer: int)
    requires
        0 <= shorter <= longer <= outputs.len(),
    ensures
        totals_of(outputs.take(shorter)).incoming <= totals_of(outputs.take(longer)).incoming,
        totals_of(outputs.take(shorter)).internal <= totals_of(outputs.take(longer)).internal,
        totals_of(outputs.take(shorter)).outgoing <= totals_of(outputs.take(longer)).outgoing,
{
    lemma_class_sum_monotonic(outputs, TransferType::Incoming, shorter, longer);
    lemma_class_sum_monotonic(outputs, TransferType::Internal, shorter, longer);
    lemma_class_sum_monotonic(outputs, TransferType::Outgoing, shorter, longer);
}

/// The value of an output is part of the sum of its class.
pub proof fn lemma_value_within_class_sum(outputs: Seq<OutputView>, at: int)
    requires
        0 <= at < outputs.len(),
    ensures
        outputs[at].value <= class_sum(outputs, outputs[at].transfer),
    decreases outputs.len(),
{
    if at < outputs.len() - 1 {
        lemma_value_within_class_sum(outputs.drop_last(), at);
    }
}

/// Where aggregation succeeds, no output stands in the way of its record.
pub proof fn lemma_records_exist(outputs: Seq<OutputView>, at: int)
    requires
        aggregated(outputs) is Ok,
        0 <= at < outputs.len(),
    ensures
        record_failure(outputs[at]) is None,
{
    lemma_value_within_class_sum(outputs, at);
    assert(outputs[at].transfer.recognized());
}

/// One output whose classification is not recognised is enough: there is no
/// summary then, whatever else the transaction holds and wherever the output
/// stands, and the reason given is the classification.
pub proof fn lemma_unrecognized_stops_aggregation(outputs: Seq<OutputView>, at: int)
    requires
        0 <= at < outputs.len(),
        !outputs[at].transfer.recognized(),
    ensures
        aggregated(outputs) == Err::<(Seq<RecordView>, TransferTotals), Error>(
            Error::UnknownClassification,
        ),
{
}

/// Where aggregation succeeds there is one record for each output, in the
/// order of the outputs, and each total is the exact sum of its class.
pub proof fn lemma_aggregation_keeps_order(outputs: Seq<OutputView>)
    requires
        aggregated(outputs) is Ok,
    ensures
        aggregated(outputs).unwrap().0.len() == outputs.len(),
        forall|i: int|
            0 <= i < outputs.len() ==> aggregated(outputs).unwrap().0[i] == record_of(
                #[trigger] outputs[i],
            ),
        aggregated(outputs).unwrap().1.incoming == class_sum(outputs, TransferType::Incoming),
        aggregated(outputs).unwrap().1.internal == class_sum(outputs, TransferType::Internal),
        aggregated(outputs).unwrap().1.outgoing == class_sum(outputs, TransferType::Outgoing),
{
}

/// Where aggregation succeeds, the record of an output that carries no memo
/// has the empty string for its memo text.
pub proof fn lemma_unset_memo_is_empty_text(outputs: Seq<OutputView>, at: int)
    requires
        aggregated(outputs) is Ok,
        0 <= at < outputs.len(),
        is_unset_memo(outputs[at].memo),
    ensures
        aggregated(outputs).unwrap().0[at].memo == Seq::<char>::empty(),
{
}

impl OutputInfo {
    /// The record of one output.
    ///
    /// Refuses an output whose classification is not recognised, and one
    /// whose value is beyond the signed range of a record.
    pub fn from_output(output: &DecryptedOutput) -> (result: Result<OutputInfo, Error>)
        ensures
            match result {
                Ok(record) => record_failure(output@) is None && record@ == record_of(output@),
                Err(failure) => record_failure(output@) == Some(failure),
            },
    {
        let (transfer_type, direction) = match output.transfer.labels() {
            Ok(pair) => pair,
            Err(failure) => {
                return Err(failure);
            },
        };
        if output.value > MAX_AMOUNT {
            return Err(Error::AmountOverflow);
        }
        Ok(
            OutputInfo {
                protocol: output.protocol.label().to_owned(),
                amount_zats: output.value as i64,
                index: output.index,
                transfer_type: transfer_type.to_owned(),
                direction: direction.to_owned(),
                memo: memo_to_text(output.memo.as_slice()),
            },
        )
    }
}

/// The totals of `outputs`, counted in order.
///
/// Stops at the first output whose classification is not recognised.
pub fn sum_transfers(outputs: &[DecryptedOutput]) -> (result: Result<TransferTotals, Error>)
    ensures
        result is Ok <==> all_recognized(output_views(outputs@)),
        result matches Ok(totals) ==> totals == totals_of(output_views(outputs@)),
        result matches Err(failure) ==> failure == Error::UnknownClassification,
{
    let ghost views = output_views(outputs@);
    let mut totals = TransferTotals::new();
    let mut i: usize = 0;
    assert(views.take(0) =~= Seq::<OutputView>::empty());
    while i < outputs.len()
        invariant
            i <= outputs@.len(),
            views == output_views(outputs@),
            views.len() == outputs@.len(),
            totals == totals_of(views.take(i as int)),
            all_recognized(views.take(i as int)),
        decreases outputs@.len() - i,
    {
        let output = &outputs[i];
        assert(views[i as int] == output@);
        match totals.record(output.transfer, output.value) {
            Ok(()) => {},
            Err(failure) => {
                assert(!views[i as int].transfer.recognized());
                return Err(failure);
            },
        }
        proof {
            lemma_totals_step(views.take(i as int), views[i as int]);
            assert(views.take(i as int).push(views[i as int]) =~= views.take(i + 1));
            assert forall|k: int| 0 <= k < i + 1 implies (#[trigger] views.take(i + 1)[k])
                .transfer.recognized() by {
                if k < i {
                    assert(views.take(i as int)[k] == views.take(i + 1)[k]);
                }
            }
        }
        i += 1;
    }
    assert(views.take(outputs@.len() as int) =~= views);
    Ok(totals)
}

/// Aggregates decrypted outputs into records and totals.
///
/// The records follow the order of `outputs`, one for each. A classification
/// that is not recognised stops everything; totals that do not fit the signed
/// amounts of the summary are refused after that.
pub fn aggregate(outputs: &[DecryptedOutput]) -> (result: Result<
    (Vec<OutputInfo>, TransferTotals),
    Error,
>)
    ensures
        match result {
            Ok((records, totals)) => aggregated(output_views(outputs@)) == Ok::<
                (Seq<RecordView>, TransferTotals),
                Error,
            >((record_views(records@), totals)),
            Err(failure) => aggregated(output_views(outputs@)) == Err::<
                (Seq<RecordView>, TransferTotals),
                Error,
            >(failure),
        },
        result matches Ok(parts) ==> parts.0@.len() == outputs@.len(),
{
    let ghost views = output_views(outputs@);
    let totals = match sum_transfers(outputs) {
        Ok(totals) => totals,
        Err(failure) => {
            return Err(failure);
        },
    };
    if !totals.is_representable() {
        return Err(Error::AmountOverflow);
    }
    let mut records: Vec<OutputInfo> = Vec::new();
    let mut i: usize = 0;
    while i < outputs.len()
        invariant
            i <= outputs@.len(),
            views == output_views(outputs@),
            views.len() == outputs@.len(),
            aggregated(views) is Ok,
            records@.len() == i,
            forall|k: int| 0 <= k < i ==> (#[trigger] records@[k])@ == record_of(views[k]),
        decreases outputs@.len() - i,
    {
        let output = &outputs[i];
        proof {
            assert(views[i as int] == output@);
            lemma_records_exist(views, i as int);
        }
        match OutputInfo::from_output(output) {
            Ok(record) => {
                records.push(record);
            },
            Err(failure) => {
                return Err(failure);
            },
        }
        i += 1;
    }
    assert(record_views(records@) =~= views.map_values(|output: OutputView| record_of(output)));
    Ok((records, totals))
}

} // verus!

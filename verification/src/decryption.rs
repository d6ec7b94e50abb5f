//! Trial decryption of a parsed transaction with one viewing key.
//!
//! The cryptography is the business of `zcash_client_backend`. What this
//! module adds is the order in which the outputs it finds are handed on:
//! those of the Sapling bundle first, then those of the Orchard bundle, each
//! list as the decryption gave it.

use std::collections::HashMap;

use vstd::prelude::*;

use zcash_client_backend::data_api::DecryptedTransaction;
use zcash_client_backend::decrypt_transaction;
use zcash_client_backend::TransferType as Relation;
use zcash_keys::keys::UnifiedFullViewingKey;
use zcash_primitives::transaction::Transaction;
use zcash_protocol::consensus::BlockHeight;
use zcash_protocol::consensus::Network as ConsensusNetwork;

use crate::envelope::ParsedTransaction;
use crate::keys::ViewingKey;
use crate::outputs::output_views;
use crate::outputs::DecryptedOutput;
use crate::outputs::OutputView;
use crate::outputs::Protocol;
use crate::outputs::TransferType;
use crate::ruleset::Network;

verus! {

/// What one run of trial decryption found in a transaction: the
/// `DecryptedTransaction` of `zcash_client_backend`, kept as it came.
#[verifier::external_body]
pub struct Decrypted<'a> {
    found: DecryptedTransaction<'a, Transaction, u32>,
}

/// The Sapling outputs that a decryption found, in its order.
pub uninterp spec fn sapling_found(decrypted: Decrypted<'_>) -> Seq<OutputView>;

/// The Orchard outputs that a decryption found, in its order.
pub uninterp spec fn orchard_found(decrypted: Decrypted<'_>) -> Seq<OutputView>;

/// The outputs that trial decryption finds in the transaction `tx`, mined at
/// `height` on `network`, with `key` as the only key: those of the Sapling
/// bundle, then those of the Orchard bundle.
pub uninterp spec fn found_in(
    network: Network,
    height: u32,
    tx: Transaction,
    key: UnifiedFullViewingKey,
) -> Seq<OutputView>;

/// Whether every output of `outputs` belongs to `protocol`.
pub open spec fn all_of_protocol(outputs: Seq<OutputView>, protocol: Protocol) -> bool {
    forall|i: int| 0 <= i < outputs.len() ==> (#[trigger] outputs[i]).protocol == protocol
}

/// Whether the indices of `outputs` rise strictly from each output to the
/// next.
pub open spec fn ascending_by_index(outputs: Seq<OutputView>) -> bool {
    forall|i: int, j: int|
        0 <= i < j < outputs.len() ==> (#[trigger] outputs[i]).index < (#[trigger] outputs[j]).index
}

/// Whether `outputs` are the outputs of one protocol, in the order of the
/// bundle they sit in.
pub open spec fn is_protocol_run(outputs: Seq<OutputView>, protocol: Protocol) -> bool {
    all_of_protocol(outputs, protocol) && ascending_by_index(outputs)
}

/// Whether `outputs` are in discovery order: the Sapling outputs by rising
/// index first, the Orchard outputs by rising index after them.
pub open spec fn is_discovery_ordered(outputs: Seq<OutputView>) -> bool {
    exists|sapling: int|
        0 <= sapling <= outputs.len() && is_protocol_run(
            #[trigger] outputs.take(sapling),
            Protocol::Sapling,
        ) && is_protocol_run(outputs.skip(sapling), Protocol::Orchard)
}

/// Calls `zcash_client_backend::decrypt_transaction` for a transaction mined
/// at `height`, with `key` as the key of the only account, numbered 0.
///
/// Trusted: what is found is a function of the network, the height, the
/// transaction and the key alone, named [`found_in`]. With a single key the
/// decryption walks each bundle once, from its first output to its last, and
/// reports an output at most once; so the indices within each list rise
/// strictly. Nothing is claimed about which outputs are found.
#[verifier::external_body]
fn decrypt_with<'a>(
    network: Network,
    height: u32,
    tx: &'a Transaction,
    key: &UnifiedFullViewingKey,
) -> (decrypted: Decrypted<'a>)
    ensures
        sapling_found(decrypted) + orchard_found(decrypted) == found_in(
            network,
            height,
            *tx,
            *key,
        ),
        ascending_by_index(sapling_found(decrypted)),
        ascending_by_index(orchard_found(decrypted)),
{
    let params = match network {
        Network::Main => ConsensusNetwork::MainNetwork,
        Network::Test => ConsensusNetwork::TestNetwork,
    };
    let keys = HashMap::from([(0u32, key.clone())]);
    let at = Some(BlockHeight::from_u32(height));
    Decrypted { found: decrypt_transaction(&params, at, None, tx, &keys) }
}

/// Calls `sapling_outputs` on a decrypted transaction and hands each output
/// out as a value of this library: the value of its note, its index, its
/// memo without padding, and its transfer type, where the outside type that
/// spans accounts becomes [`TransferType::Unrecognized`].
///
/// Trusted: the list is the one named [`sapling_found`], and each output in
/// it is marked as a Sapling output.
#[verifier::external_body]
fn sapling_outputs_of(decrypted: &Decrypted<'_>) -> (outputs: Vec<DecryptedOutput>)
    ensures
        output_views(outputs@) == sapling_found(*decrypted),
        all_of_protocol(output_views(outputs@), Protocol::Sapling),
{
    decrypted.found.sapling_outputs().iter().map(|output| DecryptedOutput {
        protocol: Protocol::Sapling,
        value: output.note().value().inner(),
        index: output.index(),
        transfer: match output.transfer_type() {
            Relation::Incoming => TransferType::Incoming,
            Relation::AccountInternal => TransferType::Internal,
            Relation::WalletInternal => TransferType::Unrecognized,
            Relation::Outgoing => TransferType::Outgoing,
        },
        memo: output.memo().as_slice().to_vec(),
    }).collect()
}

/// Calls `orchard_outputs` on a decrypted transaction and hands each output
/// out as a value of this library, as [`sapling_outputs_of`] does.
///
/// Trusted: the list is the one named [`orchard_found`], and each output in
/// it is marked as an Orchard output.
#[verifier::external_body]
fn orchard_outputs_of(decrypted: &Decrypted<'_>) -> (outputs: Vec<DecryptedOutput>)
    ensures
        output_views(outputs@) == orchard_found(*decrypted),
        all_of_protocol(output_views(outputs@), Protocol::Orchard),
{
    decrypted.found.orchard_outputs().iter().map(|output| DecryptedOutput {
        protocol: Protocol::Orchard,
        value: output.note().0.value().inner(),
        index: output.index(),
        transfer: match output.transfer_type() {
            Relation::Incoming => TransferType::Incoming,
            Relation::AccountInternal => TransferType::Internal,
            Relation::WalletInternal => TransferType::Unrecognized,
            Relation::Outgoing => TransferType::Outgoing,
        },
        memo: output.memo().as_slice().to_vec(),
    }).collect()
}

/// One list of the outputs of two: those of `first`, then those of `second`,
/// each in its own order.
pub fn in_discovery_order(first: Vec<DecryptedOutput>, second: Vec<DecryptedOutput>) -> (all: Vec<
    DecryptedOutput,
>)
    ensures
        all@ == first@ + second@,
{
    let mut all = first;
    let mut rest = second;
    all.append(&mut rest);
    all
}

/// Decrypts what `key` can see of `parsed`, a transaction mined at `height`.
///
/// The outputs are those that the decryption finds in this transaction with
/// this key, on the key's network. The outputs of the Sapling bundle come
/// first, by rising index, then those of the Orchard bundle, by rising index.
pub fn trial_decrypt(key: &ViewingKey, height: u32, parsed: &ParsedTransaction) -> (outputs: Vec<
    DecryptedOutput,
>)
    ensures
        output_views(outputs@) == found_in(
            key.network(),
            height,
            parsed.spec_transaction(),
            key.spec_unified(),
        ),
        is_discovery_ordered(output_views(outputs@)),
{
    let decrypted = decrypt_with(key.network(), height, parsed.transaction(), key.unified());
    let sapling = sapling_outputs_of(&decrypted);
    let orchard = orchard_outputs_of(&decrypted);
    let ghost split = sapling@.len() as int;
    let outputs = in_discovery_order(sapling, orchard);
    proof {
        assert(output_views(outputs@) =~= output_views(sapling@) + output_views(orchard@));
        assert(output_views(outputs@).take(split) =~= output_views(sapling@));
        assert(output_views(outputs@).skip(split) =~= output_views(orchard@));
    }
    outputs
}

} // verus!

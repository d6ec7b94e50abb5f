//! From the texts a caller has to the summary: the whole analysis of one
//! transaction, start to finish, with no state kept between transactions.

use vstd::prelude::*;
use vstd::string::*;

use zcash_keys::keys::UnifiedFullViewingKey;

use crate::decryption::found_in;
use crate::decryption::is_discovery_ordered;
use crate::decryption::trial_decrypt;
use crate::envelope::parse;
use crate::envelope::parsed;
use crate::error::Error;
use crate::error::ErrorView;
use crate::hexstr::decode_hex;
use crate::hexstr::decode_raw_transaction;
use crate::hexstr::hex_decoded;
use crate::hexstr::is_hex;
use crate::hexstr::is_hex_encoding;
use crate::hexstr::trimmed;
use crate::keys::decoded_key;
use crate::keys::ViewingKey;
use crate::outputs::output_views;
use crate::outputs::OutputView;
use crate::report::build_transaction_details;
use crate::report::summarized;
use crate::report::DetailsView;
use crate::report::Timestamp;
use crate::report::TransactionDetails;
use crate::ruleset::effective_bytes;
use crate::ruleset::effective_rule_set_id;
use crate::ruleset::needs_patch;
use crate::ruleset::resolve;
use crate::ruleset::Network;

verus! {

/// Number of hexadecimal digits in a transaction identifier.
pub const TXID_LEN: usize = 64;

/// What the analysis of one transaction comes to.
#[derive(Clone, Debug, PartialEq, Eq)]
pub struct Analysis {
    /// The summary.
    pub details: TransactionDetails,
    /// Whether the rule-set identifier in the header was rewritten before the
    /// transaction was parsed. Where it was, the transaction that was parsed
    /// is not byte for byte the one that was given, and an identifier
    /// computed from it would not be the one on the chain.
    pub patched: bool,
}

/// An [`Analysis`] as contracts see it.
pub struct AnalysisView {
    pub details: DetailsView,
    pub patched: bool,
}

impl View for Analysis {
    type V = AnalysisView;

    open spec fn view(&self) -> AnalysisView {
        AnalysisView { details: self.details@, patched: self.patched }
    }
}

/// Whether `text` is a transaction identifier: the 64 hexadecimal digits of a
/// 32-byte value.
pub open spec fn is_txid(text: Seq<char>) -> bool {
    text.len() == TXID_LEN && is_hex(text)
}

/// What the texts of a caller come to before anything is parsed: the
/// network, the viewing key and the raw transaction, or the first thing that
/// is wrong with them. The identifier is looked at first, then the viewing
/// key, then the transaction.
pub open spec fn intake(txid: Seq<char>, key: Seq<char>, raw_hex: Seq<char>) -> Result<
    (Network, UnifiedFullViewingKey, Seq<u8>),
    ErrorView,
> {
    if !is_txid(txid) {
        Err(ErrorView::InvalidIdentifier)
    } else {
        match decoded_key(key) {
            Err(failure) => Err(failure),
            Ok((network, unified)) => {
                if !is_hex_encoding(trimmed(raw_hex)) || trimmed(raw_hex).len() == 0 {
                    Err(ErrorView::MalformedInput)
                } else {
                    Ok((network, unified, hex_decoded(trimmed(raw_hex))))
                }
            },
        }
    }
}

/// What the analysis comes to for a raw transaction `raw` that was mined at
/// `height` on `network` and is looked at through `key`: the rule set is
/// settled and the header repaired, the transaction is parsed, what the key
/// can see is decrypted, and the summary is built from what was found.
pub open spec fn analysed(
    txid: Seq<char>,
    network: Network,
    key: UnifiedFullViewingKey,
    raw: Seq<u8>,
    height: u32,
    now: Timestamp,
) -> Result<AnalysisView, ErrorView> {
    let bytes = effective_bytes(network, height, raw);
    let rule_set_id = effective_rule_set_id(network, height, raw);
    match parsed(bytes, rule_set_id) {
        Err(failure) => Err(failure),
        Ok(tx) => {
            let outputs = found_in(network, height, tx, key);
            match summarized(txid, height, raw.len() as usize, outputs, now) {
                Ok(details) => Ok(
                    AnalysisView { details, patched: needs_patch(network, height, raw) },
                ),
                Err(failure) => Err(failure@),
            }
        },
    }
}

/// What [`analyze`] comes to, from the texts: what is wrong with them, or
/// what the analysis of what they hold comes to.
pub open spec fn analysis_of(
    txid: Seq<char>,
    key: Seq<char>,
    raw_hex: Seq<char>,
    height: u32,
    now: Timestamp,
) -> Result<AnalysisView, ErrorView> {
    match intake(txid, key, raw_hex) {
        Err(failure) => Err(failure),
        Ok((network, unified, raw)) => analysed(txid, network, unified, raw, height, now),
    }
}

/// Checks that `txid` is a transaction identifier.
pub fn check_txid(txid: &str) -> (result: Result<(), Error>)
    ensures
        result is Ok <==> is_txid(txid@),
        result matches Err(failure) ==> failure == Error::InvalidIdentifier,
{
    if txid.unicode_len() != TXID_LEN {
        return Err(Error::InvalidIdentifier);
    }
    match decode_hex(txid) {
        Some(_) => Ok(()),
        None => Err(Error::InvalidIdentifier),
    }
}

/// Analyses one transaction: reads the identifier, the viewing key and the
/// raw transaction from their texts, settles the rule set for `height`,
/// parses the transaction, decrypts what the key can see, and builds the
/// summary, stamped with `now`.
///
/// The first thing that is wrong stops the analysis, in this order:
/// the identifier, the viewing key, the raw transaction text, the parse, and
/// last what the summary itself refuses. The outputs of the summary are those
/// that the decryption finds, Sapling before Orchard and each by rising
/// index; the result says whether the header was rewritten on the way.
pub fn analyze(txid: &str, key: &str, raw_hex: &str, height: u32, now: Timestamp) -> (result: Result<
    Analysis,
    Error,
>)
    ensures
        match result {
            Ok(analysis) => analysis_of(txid@, key@, raw_hex@, height, now) == Ok::<
                AnalysisView,
                ErrorView,
            >(analysis@),
            Err(failure) => analysis_of(txid@, key@, raw_hex@, height, now) == Err::<
                AnalysisView,
                ErrorView,
            >(failure@),
        },
        result matches Ok(analysis) ==> exists|outputs: Seq<OutputView>| #[trigger]
            is_discovery_ordered(outputs) && Ok::<DetailsView, Error>(analysis.details@)
                == summarized(txid@, height, analysis.details.tx_size_bytes, outputs, now),
{
    match check_txid(txid) {
        Ok(()) => {},
        Err(failure) => {
            return Err(failure);
        },
    }
    let viewing_key = match ViewingKey::decode(key) {
        Ok(viewing_key) => viewing_key,
        Err(failure) => {
            return Err(failure);
        },
    };
    let raw = match decode_raw_transaction(raw_hex) {
        Ok(raw) => raw,
        Err(failure) => {
            return Err(failure);
        },
    };
    let resolution = match resolve(viewing_key.network(), height, raw.as_slice()) {
        Ok(resolution) => resolution,
        Err(failure) => {
            return Err(failure);
        },
    };
    let transaction = match parse(resolution.bytes.as_slice(), resolution.rule_set) {
        Ok(transaction) => transaction,
        Err(failure) => {
            return Err(failure);
        },
    };
    let outputs = trial_decrypt(&viewing_key, height, &transaction);
    assert(is_discovery_ordered(output_views(outputs@)));
    match build_transaction_details(txid, height, raw.len(), outputs.as_slice(), now) {
        Ok(details) => Ok(Analysis { details, patched: resolution.patched }),
        Err(failure) => Err(failure),
    }
}

} // verus!

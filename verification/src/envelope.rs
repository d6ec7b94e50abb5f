//! Reading the transaction envelope under a resolved rule set.
//!
//! The wire format itself is the business of `zcash_primitives`; this module
//! hands it the bytes and the rule set, and turns its verdict into the
//! library's own terms.

use vstd::prelude::*;

use zcash_primitives::transaction::Transaction;
use zcash_protocol::consensus::BranchId;

use crate::error::Error;
use crate::error::ErrorView;
use crate::ruleset::RuleSet;

verus! {

/// `zcash_primitives::transaction::Transaction`: a value that is carried, never
/// looked into.
#[verifier::external_type_specification]
#[verifier::external_body]
pub struct ExTransaction(Transaction);

/// What the envelope parser makes of `bytes` under the rule set with
/// identifier `rule_set_id`: the transaction, or the text of its diagnostic.
pub uninterp spec fn read_outcome(bytes: Seq<u8>, rule_set_id: u32) -> Result<
    Transaction,
    Seq<char>,
>;

/// Whether `bytes` are a well-formed transaction under the rule set with
/// identifier `rule_set_id`, in the judgement of the envelope parser.
pub open spec fn is_well_formed(bytes: Seq<u8>, rule_set_id: u32) -> bool {
    read_outcome(bytes, rule_set_id) is Ok
}

/// A transaction that the envelope parser accepted.
#[derive(Debug)]
pub struct ParsedTransaction {
    tx: Transaction,
    size_bytes: usize,
}

/// Calls `zcash_primitives::transaction::Transaction::read` on `bytes`, with
/// the branch that `BranchId::try_from` finds for `rule_set_id`, and takes
/// the text of a failure by `to_string`; a number that names no branch is a
/// failure too, with the text that `try_from` gives.
///
/// Trusted: the transaction or the text is a function of the bytes and the
/// identifier alone, named [`read_outcome`]. Nothing is claimed about which
/// it is on any input.
#[verifier::external_body]
fn read_transaction(bytes: &[u8], rule_set_id: u32) -> (outcome: Result<Transaction, String>)
    ensures
        match outcome {
            Ok(tx) => read_outcome(bytes@, rule_set_id) == Ok::<Transaction, Seq<char>>(tx),
            Err(text) => read_outcome(bytes@, rule_set_id) == Err::<Transaction, Seq<char>>(
                text@,
            ),
        },
{
    match BranchId::try_from(rule_set_id) {
        Ok(branch) => Transaction::read(bytes, branch).map_err(|failure| failure.to_string()),
        Err(unknown) => Err(unknown.to_string()),
    }
}

impl ParsedTransaction {
    /// The number of bytes the transaction was read from.
    pub closed spec fn spec_size_bytes(&self) -> usize {
        self.size_bytes
    }

    /// The number of bytes the transaction was read from.
    #[verifier::when_used_as_spec(spec_size_bytes)]
    pub fn size_bytes(&self) -> (size: usize)
        ensures
            size == self.spec_size_bytes(),
    {
        self.size_bytes
    }

    /// The transaction as the parser built it.
    pub(crate) fn transaction(&self) -> (tx: &Transaction)
        ensures
            *tx == self.spec_transaction(),
    {
        &self.tx
    }

    /// The transaction as the parser built it.
    pub closed spec fn spec_transaction(&self) -> Transaction {
        self.tx
    }
}

/// What [`parse`] makes of `bytes` under `rule_set_id`, as far as contracts
/// see it: the transaction, or the parse error with the parser's diagnostic.
pub open spec fn parsed(bytes: Seq<u8>, rule_set_id: u32) -> Result<Transaction, ErrorView> {
    match read_outcome(bytes, rule_set_id) {
        Ok(tx) => Ok(tx),
        Err(text) => Err(ErrorView::ParseError(text)),
    }
}

/// Reads `bytes` as a transaction under `rule_set`.
///
/// Succeeds exactly on the input that the envelope parser judges well-formed,
/// and then holds the transaction it built and remembers how many bytes were
/// read. Anything else is a parse error that carries the parser's
/// diagnostic; nothing is retried.
pub fn parse(bytes: &[u8], rule_set: RuleSet) -> (result: Result<ParsedTransaction, Error>)
    ensures
        result is Ok <==> is_well_formed(bytes@, rule_set.id),
        match result {
            Ok(found) => parsed(bytes@, rule_set.id) == Ok::<Transaction, ErrorView>(
                found.spec_transaction(),
            ) && found.size_bytes() == bytes@.len(),
            Err(failure) => parsed(bytes@, rule_set.id) == Err::<Transaction, ErrorView>(
                failure@,
            ) && failure is ParseError,
        },
{
    match read_transaction(bytes, rule_set.id) {
        Ok(tx) => Ok(ParsedTransaction { tx, size_bytes: bytes.len() }),
        Err(text) => Err(Error::ParseError(text)),
    }
}

} // verus!

//! The viewing key that a transaction is looked at through, and the network
//! that its textual form names.

use vstd::prelude::*;
use vstd::string::*;

use zcash_keys::keys::UnifiedFullViewingKey;
use zcash_protocol::consensus::Network as ConsensusNetwork;

use crate::error::Error;
use crate::error::ErrorView;
use crate::ruleset::Network;

verus! {

/// `zcash_keys::keys::UnifiedFullViewingKey`: a value that is carried, never
/// looked into.
#[verifier::external_type_specification]
#[verifier::external_body]
pub struct ExUnifiedFullViewingKey(UnifiedFullViewingKey);

/// The network that the first characters of a viewing key name, if any: the
/// test network for `uviewtest1`, the main network for `uview1`.
pub open spec fn network_of_key(text: Seq<char>) -> Option<Network> {
    if "uviewtest1"@.is_prefix_of(text) {
        Some(Network::Test)
    } else if "uview1"@.is_prefix_of(text) {
        Some(Network::Main)
    } else {
        None
    }
}

/// What the key decoder makes of `text` for `network`: the unified full
/// viewing key, or the text of its diagnostic.
pub uninterp spec fn key_outcome(network: Network, text: Seq<char>) -> Result<
    UnifiedFullViewingKey,
    Seq<char>,
>;

/// Whether `text` is the encoding of a unified full viewing key of
/// `network`, in the judgement of the key decoder.
pub open spec fn is_viewing_key(network: Network, text: Seq<char>) -> bool {
    key_outcome(network, text) is Ok
}

/// What [`ViewingKey::decode`] makes of `text`, as far as contracts see it:
/// the network that the first characters name and the key that the decoder
/// reads for it, or what is wrong with the text.
pub open spec fn decoded_key(text: Seq<char>) -> Result<
    (Network, UnifiedFullViewingKey),
    ErrorView,
> {
    match network_of_key(text) {
        None => Err(ErrorView::UnknownKeyFormat),
        Some(network) => match key_outcome(network, text) {
            Ok(key) => Ok((network, key)),
            Err(diagnostic) => Err(ErrorView::InvalidViewingKey(diagnostic)),
        },
    }
}

/// A unified full viewing key, with the network it belongs to.
pub struct ViewingKey {
    network: Network,
    key: UnifiedFullViewingKey,
}

/// Calls `zcash_keys::keys::UnifiedFullViewingKey::decode` for the network,
/// and takes the text of a failure by `to_string`.
///
/// Trusted: the key or the text is a function of the network and the text
/// alone, named [`key_outcome`]. Nothing is claimed about which it is on any
/// input.
#[verifier::external_body]
fn decode_unified_key(network: Network, text: &str) -> (outcome: Result<
    UnifiedFullViewingKey,
    String,
>)
    ensures
        match outcome {
            Ok(key) => key_outcome(network, text@) == Ok::<UnifiedFullViewingKey, Seq<char>>(
                key,
            ),
            Err(diagnostic) => key_outcome(network, text@) == Err::<
                UnifiedFullViewingKey,
                Seq<char>,
            >(diagnostic@),
        },
{
    let params = match network {
        Network::Main => ConsensusNetwork::MainNetwork,
        Network::Test => ConsensusNetwork::TestNetwork,
    };
    UnifiedFullViewingKey::decode(&params, text).map_err(|failure| failure.to_string())
}

/// Whether `text` begins with `prefix`.
pub fn starts_with(text: &str, prefix: &str) -> (begins: bool)
    ensures
        begins == prefix@.is_prefix_of(text@),
{
    let wanted = prefix.unicode_len();
    if text.unicode_len() < wanted {
        return false;
    }
    let mut i: usize = 0;
    while i < wanted
        invariant
            i <= wanted,
            wanted == prefix@.len(),
            wanted <= text@.len(),
            forall|k: int| 0 <= k < i ==> prefix@[k] == text@[k],
        decreases wanted - i,
    {
        if prefix.get_char(i) != text.get_char(i) {
            assert(prefix@[i as int] != text@.subrange(0, prefix@.len() as int)[i as int]);
            return false;
        }
        i += 1;
    }
    assert(prefix@ =~= text@.subrange(0, prefix@.len() as int));
    true
}

/// The network that the first characters of a viewing key name, if any.
pub fn network_for_key(text: &str) -> (network: Option<Network>)
    ensures
        network == network_of_key(text@),
{
    if starts_with(text, "uviewtest1") {
        Some(Network::Test)
    } else if starts_with(text, "uview1") {
        Some(Network::Main)
    } else {
        None
    }
}

impl ViewingKey {
    /// The network the key belongs to.
    pub closed spec fn spec_network(&self) -> Network {
        self.network
    }

    /// The network the key belongs to.
    #[verifier::when_used_as_spec(spec_network)]
    pub fn network(&self) -> (network: Network)
        ensures
            network == self.spec_network(),
    {
        self.network
    }

    /// The key itself.
    pub(crate) fn unified(&self) -> (key: &UnifiedFullViewingKey)
        ensures
            *key == self.spec_unified(),
    {
        &self.key
    }

    /// The key itself.
    pub closed spec fn spec_unified(&self) -> UnifiedFullViewingKey {
        self.key
    }

    /// Reads a viewing key from its text.
    ///
    /// The first characters of the text say which network it is for; the
    /// key decoder then has to accept the text for that network, and its
    /// diagnostic is handed on where it does not.
    pub fn decode(text: &str) -> (result: Result<ViewingKey, Error>)
        ensures
            result is Ok <==> (network_of_key(text@) matches Some(network) && is_viewing_key(
                network,
                text@,
            )),
            match result {
                Ok(key) => decoded_key(text@) == Ok::<(Network, UnifiedFullViewingKey), ErrorView>(
                    (key.network(), key.spec_unified()),
                ),
                Err(failure) => decoded_key(text@) == Err::<
                    (Network, UnifiedFullViewingKey),
                    ErrorView,
                >(failure@),
            },
    {
        let network = match network_for_key(text) {
            Some(network) => network,
            None => {
                return Err(Error::UnknownKeyFormat);
            },
        };
        match decode_unified_key(network, text) {
            Ok(key) => Ok(ViewingKey { network, key }),
            Err(diagnostic) => Err(Error::InvalidViewingKey(diagnostic)),
        }
    }
}

} // verus!

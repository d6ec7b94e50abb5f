//! Which consensus rule set governs a transaction, and the repair of a known
//! identifier collision in its header.
//!
//! A version-5 transaction stamps the identifier of the rule set it was built
//! for into its header, four bytes in little-endian order at a fixed offset.
//! Two revisions of the rules share one wire format and differ only in that
//! identifier. Past a network-specific height a transaction may carry the
//! identifier of the second revision; [`resolve`] rewrites it to the
//! identifier of the first, on a copy of the bytes, and says that it did.

use vstd::prelude::*;

use crate::error::Error;

verus! {

/// The chain a transaction belongs to.
#[derive(Clone, Copy, Debug, PartialEq, Eq, Structural)]
pub enum Network {
    /// The production chain.
    Main,
    /// The public test chain.
    Test,
}

/// The identifier of a consensus rule revision, as it is stamped into
/// transaction headers.
#[derive(Clone, Copy, Debug, PartialEq, Eq, Structural)]
pub struct RuleSet {
    /// The four-byte identifier, read as a little-endian number.
    pub id: u32,
}

/// Identifier of the first of the two wire-compatible revisions: the one
/// that headers are rewritten to.
pub const CANONICAL_ID: u32 = 0xc8e7_1055;

/// Identifier of the second of the two wire-compatible revisions.
pub const SECOND_REVISION_ID: u32 = 0x4dec_4df0;

/// First height on the main network at which the second revision may occur.
pub const MAIN_WINDOW_START: u32 = 3_146_400;

/// First height on the test network at which the second revision may occur.
pub const TEST_WINDOW_START: u32 = 2_976_640;

/// Offset of the rule-set identifier within a version-5 header.
pub const ID_OFFSET: usize = 8;

/// Length of the part of a version-5 header that ends with the identifier.
pub const HEADER_LEN: usize = 12;

/// The low byte of the version word of a version-5 transaction.
pub const V5_VERSION_BYTE: u8 = 0x05;

/// The high byte of the version word when the overwintered flag is set.
pub const OVERWINTERED_BYTE: u8 = 0x80;

/// The four bytes that stand for `id` in a header, least significant first.
pub open spec fn id_bytes(id: u32) -> Seq<u8> {
    seq![
        (id & 0xff) as u8,
        ((id >> 8) & 0xff) as u8,
        ((id >> 16) & 0xff) as u8,
        ((id >> 24) & 0xff) as u8,
    ]
}

/// Whether `height` lies where the second revision may occur on `network`.
pub open spec fn in_collision_window(network: Network, height: u32) -> bool {
    match network {
        Network::Main => height >= MAIN_WINDOW_START,
        Network::Test => height >= TEST_WINDOW_START,
    }
}

/// Whether `bytes` begin like a version-5 header: long enough to hold the
/// identifier, version byte 5, overwintered flag set.
pub open spec fn has_v5_header(bytes: Seq<u8>) -> bool {
    &&& bytes.len() >= HEADER_LEN
    &&& bytes[0] == V5_VERSION_BYTE
    &&& bytes[3] == OVERWINTERED_BYTE
}

/// Whether `bytes` are a version-5 header that carries the identifier of the
/// second revision.
pub open spec fn carries_second_revision(bytes: Seq<u8>) -> bool {
    &&& has_v5_header(bytes)
    &&& bytes.subrange(ID_OFFSET as int, HEADER_LEN as int) == id_bytes(SECOND_REVISION_ID)
}

/// `bytes` with the identifier field overwritten by the canonical identifier.
pub open spec fn with_canonical_id(bytes: Seq<u8>) -> Seq<u8>
    recommends
        bytes.len() >= HEADER_LEN,
{
    bytes.subrange(0, ID_OFFSET as int) + id_bytes(CANONICAL_ID) + bytes.subrange(
        HEADER_LEN as int,
        bytes.len() as int,
    )
}

/// `bytes` after the repair: with the canonical identifier where they carry
/// the second revision's, else as they are.
pub open spec fn repaired(bytes: Seq<u8>) -> Seq<u8> {
    if carries_second_revision(bytes) {
        with_canonical_id(bytes)
    } else {
        bytes
    }
}

/// Whether resolution rewrites the identifier of `bytes` at `height`.
pub open spec fn needs_patch(network: Network, height: u32, bytes: Seq<u8>) -> bool {
    in_collision_window(network, height) && carries_second_revision(bytes)
}

/// The bytes that are handed to the parser for `bytes` at `height`.
pub open spec fn effective_bytes(network: Network, height: u32, bytes: Seq<u8>) -> Seq<u8> {
    if needs_patch(network, height, bytes) {
        with_canonical_id(bytes)
    } else {
        bytes
    }
}

/// The identifier of the rule set that the consensus rules activate at
/// `height` on `network`.
pub uninterp spec fn active_rule_set_id(network: Network, height: u32) -> u32;

/// The identifier of the rule set that `bytes` are parsed under at `height`:
/// the canonical identifier where the header is rewritten to carry it, else
/// the identifier of the rule set that is active at `height`.
pub open spec fn effective_rule_set_id(network: Network, height: u32, bytes: Seq<u8>) -> u32 {
    if needs_patch(network, height, bytes) {
        CANONICAL_ID
    } else {
        active_rule_set_id(network, height)
    }
}

/// What [`resolve`] found for one transaction.
#[derive(Clone, Debug, PartialEq, Eq)]
pub struct Resolution {
    /// The bytes to parse: the input, or its patched copy.
    pub bytes: Vec<u8>,
    /// The rule set to parse them under.
    pub rule_set: RuleSet,
    /// Whether `bytes` differ from the input.
    pub patched: bool,
}

/// The little-endian bytes of the two identifiers, spelled out.
pub proof fn lemma_id_bytes()
    ensures
        id_bytes(SECOND_REVISION_ID) == seq![0xf0u8, 0x4d, 0xec, 0x4d],
        id_bytes(CANONICAL_ID) == seq![0x55u8, 0x10, 0xe7, 0xc8],
{
    assert(0x4dec_4df0u32 & 0xff == 0xf0) by (bit_vector);
    assert((0x4dec_4df0u32 >> 8) & 0xff == 0x4d) by (bit_vector);
    assert((0x4dec_4df0u32 >> 16) & 0xff == 0xec) by (bit_vector);
    assert((0x4dec_4df0u32 >> 24) & 0xff == 0x4d) by (bit_vector);
    assert(0xc8e7_1055u32 & 0xff == 0x55) by (bit_vector);
    assert((0xc8e7_1055u32 >> 8) & 0xff == 0x10) by (bit_vector);
    assert((0xc8e7_1055u32 >> 16) & 0xff == 0xe7) by (bit_vector);
    assert((0xc8e7_1055u32 >> 24) & 0xff == 0xc8) by (bit_vector);
    assert(id_bytes(SECOND_REVISION_ID) =~= seq![0xf0u8, 0x4d, 0xec, 0x4d]);
    assert(id_bytes(CANONICAL_ID) =~= seq![0x55u8, 0x10, 0xe7, 0xc8]);
}

/// Outside the collision window the bytes to parse are the input, whatever
/// it holds.
pub proof fn lemma_unchanged_outside_window(network: Network, height: u32, bytes: Seq<u8>)
    requires
        !in_collision_window(network, height),
    ensures
        effective_bytes(network, height, bytes) == bytes,
        !needs_patch(network, height, bytes),
{
}

/// Inside the collision window, a version-5 header with the second
/// revision's identifier is rewritten in its identifier field and nowhere
/// else: the length stays, the field holds the canonical identifier, and
/// every other byte is the input's.
pub proof fn lemma_patch_touches_only_id(network: Network, height: u32, bytes: Seq<u8>)
    requires
        in_collision_window(network, height),
        carries_second_revision(bytes),
    ensures
        needs_patch(network, height, bytes),
        effective_bytes(network, height, bytes).len() == bytes.len(),
        effective_bytes(network, height, bytes).subrange(ID_OFFSET as int, HEADER_LEN as int)
            == id_bytes(CANONICAL_ID),
        forall|k: int|
            0 <= k < bytes.len() && !(ID_OFFSET <= k < HEADER_LEN) ==> effective_bytes(
                network,
                height,
                bytes,
            )[k] == bytes[k],
        effective_bytes(network, height, bytes) != bytes,
{
    lemma_id_bytes();
    let out = effective_bytes(network, height, bytes);
    assert(out.subrange(ID_OFFSET as int, HEADER_LEN as int) =~= id_bytes(CANONICAL_ID));
    assert(bytes.subrange(ID_OFFSET as int, HEADER_LEN as int)[0] == bytes[8]);
    assert(out[8] == 0x55u8);
    assert(bytes[8] == 0xf0u8);
}

/// Inside the collision window, input that is no version-5 header with the
/// second revision's identifier (too short, another version byte, the flag
/// not set, other identifier bytes) is left as it is.
pub proof fn lemma_unchanged_without_match(network: Network, height: u32, bytes: Seq<u8>)
    requires
        in_collision_window(network, height),
        !carries_second_revision(bytes),
    ensures
        effective_bytes(network, height, bytes) == bytes,
        !needs_patch(network, height, bytes),
{
}

/// Where the header is rewritten, the rule set to parse under is the one
/// that the rewritten header names: the canonical one.
pub proof fn lemma_patched_header_names_its_rule_set(
    network: Network,
    height: u32,
    bytes: Seq<u8>,
)
    requires
        needs_patch(network, height, bytes),
    ensures
        effective_rule_set_id(network, height, bytes) == CANONICAL_ID,
        effective_bytes(network, height, bytes).subrange(ID_OFFSET as int, HEADER_LEN as int)
            == id_bytes(effective_rule_set_id(network, height, bytes)),
{
    let out = effective_bytes(network, height, bytes);
    assert(out.subrange(ID_OFFSET as int, HEADER_LEN as int) =~= id_bytes(CANONICAL_ID));
}

/// What is handed to the parser never carries the second revision's
/// identifier at a height inside the collision window.
pub proof fn lemma_effective_bytes_are_settled(network: Network, height: u32, bytes: Seq<u8>)
    ensures
        !needs_patch(network, height, effective_bytes(network, height, bytes)),
{
    lemma_id_bytes();
    if needs_patch(network, height, bytes) {
        let out = effective_bytes(network, height, bytes);
        assert(out.subrange(ID_OFFSET as int, HEADER_LEN as int) =~= id_bytes(CANONICAL_ID));
        assert(id_bytes(CANONICAL_ID)[0] != id_bytes(SECOND_REVISION_ID)[0]);
    }
}

/// Calls `zcash_protocol::consensus::BranchId::for_height` and returns the
/// number of the branch it picks.
///
/// Trusted: the result is a function of the network and the height alone,
/// named [`active_rule_set_id`]. Nothing is claimed about which number it is.
#[verifier::external_body]
fn rule_set_id_for_height(network: Network, height: u32) -> (id: u32)
    ensures
        id == active_rule_set_id(network, height),
{
    let params = match network {
        Network::Main => zcash_protocol::consensus::Network::MainNetwork,
        Network::Test => zcash_protocol::consensus::Network::TestNetwork,
    };
    let at = zcash_protocol::consensus::BlockHeight::from_u32(height);
    u32::from(zcash_protocol::consensus::BranchId::for_height(&params, at))
}

impl RuleSet {
    /// The rule set that is active at `height` on `network`.
    pub fn for_height(network: Network, height: u32) -> (rule_set: RuleSet)
        ensures
            rule_set.id == active_rule_set_id(network, height),
    {
        RuleSet { id: rule_set_id_for_height(network, height) }
    }
}

/// Whether `height` lies where the second revision may occur on `network`.
pub fn is_in_collision_window(network: Network, height: u32) -> (inside: bool)
    ensures
        inside == in_collision_window(network, height),
{
    match network {
        Network::Main => height >= MAIN_WINDOW_START,
        Network::Test => height >= TEST_WINDOW_START,
    }
}

/// The four bytes that stand for `id` in a header, least significant first.
pub fn id_to_bytes(id: u32) -> (bytes: [u8; 4])
    ensures
        bytes@ == id_bytes(id),
{
    let bytes = [
        (id & 0xff) as u8,
        ((id >> 8) & 0xff) as u8,
        ((id >> 16) & 0xff) as u8,
        ((id >> 24) & 0xff) as u8,
    ];
    assert(bytes@ =~= id_bytes(id));
    bytes
}

/// Whether `bytes` are a version-5 header that carries the identifier of the
/// second revision.
pub fn has_second_revision_id(bytes: &[u8]) -> (found: bool)
    ensures
        found == carries_second_revision(bytes@),
{
    if bytes.len() < HEADER_LEN {
        return false;
    }
    let wanted = id_to_bytes(SECOND_REVISION_ID);
    let found = bytes[0] == V5_VERSION_BYTE && bytes[3] == OVERWINTERED_BYTE && bytes[ID_OFFSET]
        == wanted[0] && bytes[ID_OFFSET + 1] == wanted[1] && bytes[ID_OFFSET + 2] == wanted[2]
        && bytes[ID_OFFSET + 3] == wanted[3];
    proof {
        let field = bytes@.subrange(ID_OFFSET as int, HEADER_LEN as int);
        assert(field.len() == 4);
        assert(field[0] == bytes@[8] && field[1] == bytes@[9] && field[2] == bytes@[10]
            && field[3] == bytes@[11]);
        if found {
            assert(field =~= wanted@);
        }
    }
    found
}

/// The repair on its own, whatever the height: a copy of `bytes`, with the
/// identifier field rewritten to the canonical identifier where `bytes` are
/// a version-5 header that carries the second revision's, and whether that
/// was so. Every byte outside the four-byte field is taken over unchanged.
pub fn patch_second_revision(bytes: &[u8]) -> (out: (Vec<u8>, bool))
    ensures
        out.1 == carries_second_revision(bytes@),
        out.0@ == repaired(bytes@),
{
    if !has_second_revision_id(bytes) {
        return (copy_bytes(bytes), false);
    }
    let canonical = id_to_bytes(CANONICAL_ID);
    let mut patched: Vec<u8> = Vec::new();
    let mut i: usize = 0;
    while i < bytes.len()
        invariant
            i <= bytes@.len(),
            patched@.len() == i,
            bytes@.len() >= HEADER_LEN,
            canonical@ == id_bytes(CANONICAL_ID),
            forall|k: int| 0 <= k < i ==> patched@[k] == with_canonical_id(bytes@)[k],
        decreases bytes@.len() - i,
    {
        let byte: u8 = if ID_OFFSET <= i && i < HEADER_LEN {
            canonical[i - ID_OFFSET]
        } else {
            bytes[i]
        };
        patched.push(byte);
        i += 1;
    }
    assert(patched@ =~= with_canonical_id(bytes@));
    (patched, true)
}

/// Settles what to parse and under which rule set.
///
/// The bytes are the input and the rule set is the one active at `height`,
/// unless `height` lies in the collision window and the input is a version-5
/// header with the second revision's identifier. Then the bytes are a copy
/// with that identifier rewritten to the canonical one, and the rule set is
/// the canonical one, so that header and rule set agree. A header that does
/// not match is no error, it is left alone. Empty input is refused.
pub fn resolve(network: Network, height: u32, raw: &[u8]) -> (result: Result<Resolution, Error>)
    ensures
        raw@.len() == 0 <==> result is Err,
        result is Err ==> result == Err::<Resolution, Error>(Error::MalformedInput),
        result matches Ok(found) ==> {
            &&& found.bytes@ == effective_bytes(network, height, raw@)
            &&& found.rule_set.id == effective_rule_set_id(network, height, raw@)
            &&& found.patched == needs_patch(network, height, raw@)
            &&& found.patched ==> found.rule_set.id == CANONICAL_ID
            &&& !found.patched ==> found.rule_set.id == active_rule_set_id(network, height)
                && found.bytes@ == raw@
        },
{
    if raw.len() == 0 {
        return Err(Error::MalformedInput);
    }
    if is_in_collision_window(network, height) {
        let (bytes, patched) = patch_second_revision(raw);
        if patched {
            return Ok(Resolution { bytes, rule_set: RuleSet { id: CANONICAL_ID }, patched });
        }
    }
    let rule_set = RuleSet::for_height(network, height);
    Ok(Resolution { bytes: copy_bytes(raw), rule_set, patched: false })
}

/// An owned copy of `bytes`.
fn copy_bytes(bytes: &[u8]) -> (copy: Vec<u8>)
    ensures
        copy@ == bytes@,
{
    let mut copy: Vec<u8> = Vec::new();
    let mut i: usize = 0;
    while i < bytes.len()
        invariant
            i <= bytes@.len(),
            copy@ == bytes@.take(i as int),
        decreases bytes@.len() - i,
    {
        copy.push(bytes[i]);
        assert(bytes@.take(i as int).push(bytes@[i as int]) =~= bytes@.take(i + 1));
        i += 1;
    }
    assert(bytes@.take(bytes@.len() as int) =~= bytes@);
    copy
}

} // verus!

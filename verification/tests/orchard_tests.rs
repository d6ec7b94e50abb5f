use core::convert::Infallible;

use nonempty::NonEmpty;
use orchard::bundle::Authorized as OrchardAuthorized;
use orchard::bundle::BundleVersion;
use orchard::bundle::Flags;
use orchard::keys::OutgoingViewingKey;
use orchard::note::ExtractedNoteCommitment;
use orchard::note::Nullifier;
use orchard::note::RandomSeed;
use orchard::note::Rho;
use orchard::note::TransmittedNoteCiphertext;
use orchard::note_encryption::OrchardDomain;
use orchard::note_encryption::OrchardNoteEncryption;
use orchard::primitives::redpallas::Signature;
use orchard::primitives::redpallas::SigningKey;
use orchard::primitives::redpallas::SpendAuth;
use orchard::primitives::redpallas::VerificationKey;
use orchard::value::NoteValue;
use orchard::value::ValueCommitTrapdoor;
use orchard::value::ValueCommitment;
use orchard::Action;
use orchard::Address;
use orchard::Anchor;
use orchard::Note;
use orchard::NoteVersion;
use orchard::Proof;
use rand_core::Rng;
use sapling_crypto::bundle::Authorized as SaplingAuthorized;
use sapling_crypto::bundle::OutputDescription;
use sapling_crypto::note_encryption::sapling_note_encryption;
use sapling_crypto::note_encryption::SaplingDomain;
use sapling_crypto::PaymentAddress;
use sapling_crypto::Rseed;
use rand_core::TryCryptoRng;
use rand_core::TryRng;
use zcash_keys::keys::UnifiedFullViewingKey;
use zcash_keys::keys::UnifiedSpendingKey;
use zcash_note_encryption::Domain;
use zcash_primitives::transaction::Authorized;
use zcash_primitives::transaction::TransactionData;
use zcash_primitives::transaction::TxVersion;
use zcash_protocol::consensus::BlockHeight;
use zcash_protocol::consensus::BranchId;
use zcash_protocol::consensus::Network as ConsensusNetwork;
use zcash_protocol::memo::MemoBytes;
use zcash_protocol::value::ZatBalance;
use zcash_tx_decryptor::pipeline::analyze;
use zcash_tx_decryptor::report::Timestamp;
use zip32::AccountId;
use zip32::Scope;

const TXID: &str = "ffeeddccbbaa99887766554433221100ffeeddccbbaa99887766554433221100";
const NOW: Timestamp = Timestamp { secs: 1_750_000_000, nanos: 0 };
const HEIGHT: u32 = 2_000_000;

struct Counter(u64);

impl TryRng for Counter {
    type Error = Infallible;

    fn try_next_u32(&mut self) -> Result<u32, Infallible> {
        self.try_next_u64().map(|word| word as u32)
    }

    fn try_next_u64(&mut self) -> Result<u64, Infallible> {
        self.0 = self.0.wrapping_mul(6364136223846793005).wrapping_add(1442695040888963407);
        Ok(self.0 >> 11)
    }

    fn try_fill_bytes(&mut self, dst: &mut [u8]) -> Result<(), Infallible> {
        for byte in dst.iter_mut() {
            *byte = self.try_next_u64()? as u8;
        }
        Ok(())
    }
}

impl TryCryptoRng for Counter {}

fn unified_key(seed: u8) -> UnifiedFullViewingKey {
    UnifiedSpendingKey::from_seed(&ConsensusNetwork::TestNetwork, &[seed; 32], AccountId::ZERO)
        .unwrap()
        .to_unified_full_viewing_key()
}

fn thirty_two(rng: &mut Counter) -> [u8; 32] {
    let mut bytes = [0u8; 32];
    rng.fill_bytes(&mut bytes);
    bytes
}

fn action(
    recipient: Address,
    ovk: Option<OutgoingViewingKey>,
    value: u64,
    memo: &[u8],
    rng: &mut Counter,
) -> Action<Signature<SpendAuth>> {
    let nullifier = loop {
        if let Some(found) = Option::<Nullifier>::from(Nullifier::from_bytes(&thirty_two(rng))) {
            break found;
        }
    };
    let rho = Option::<Rho>::from(Rho::from_bytes(&nullifier.to_bytes())).unwrap();
    let rseed = loop {
        let candidate = RandomSeed::from_bytes(thirty_two(rng), &rho);
        if let Some(found) = Option::<RandomSeed>::from(candidate) {
            break found;
        }
    };
    let value = NoteValue::from_raw(value);
    let note =
        Option::<Note>::from(Note::from_parts(recipient, value, rho, rseed, NoteVersion::V2))
            .unwrap();
    let cmx = ExtractedNoteCommitment::from(note.commitment());
    let trapdoor =
        Option::<ValueCommitTrapdoor>::from(ValueCommitTrapdoor::from_bytes([0u8; 32])).unwrap();
    let cv_net = ValueCommitment::derive(NoteValue::from_raw(0) - value, trapdoor);
    let memo = MemoBytes::from_bytes(memo).unwrap().into_bytes();
    let encryptor = OrchardNoteEncryption::new(ovk, note, memo);
    let encrypted = TransmittedNoteCiphertext {
        epk_bytes: OrchardDomain::epk_bytes(encryptor.epk()).0,
        enc_ciphertext: encryptor.encrypt_note_plaintext(),
        out_ciphertext: encryptor.encrypt_outgoing_plaintext(&cv_net, &cmx, rng),
    };
    let rk = loop {
        if let Ok(key) = SigningKey::<SpendAuth>::try_from(thirty_two(rng)) {
            break VerificationKey::<SpendAuth>::from(&key);
        }
    };
    Action::from_parts(nullifier, rk, cmx, encrypted, cv_net, Signature::from([0u8; 64])).unwrap()
}

fn sapling_output(
    recipient: PaymentAddress,
    value: u64,
    memo: &[u8],
    rng: &mut Counter,
) -> OutputDescription<[u8; 192]> {
    let value = sapling_crypto::value::NoteValue::from_raw(value);
    let note = sapling_crypto::Note::from_parts(recipient, value, Rseed::AfterZip212(thirty_two(rng)));
    let trapdoor = sapling_crypto::value::ValueCommitTrapdoor::random(&mut *rng);
    let cv = sapling_crypto::value::ValueCommitment::derive(value, trapdoor);
    let cmu = note.cmu();
    let memo = MemoBytes::from_bytes(memo).unwrap().into_bytes();
    let encryptor = sapling_note_encryption(None, note, memo, rng);
    let ephemeral_key = SaplingDomain::epk_bytes(encryptor.epk());
    let enc_ciphertext = encryptor.encrypt_note_plaintext();
    let out_ciphertext = encryptor.encrypt_outgoing_plaintext(&cv, &cmu, rng);
    OutputDescription::from_parts(cv, cmu, ephemeral_key, enc_ciphertext.0, out_ciphertext, [0u8; 192])
}

fn raw_transaction(actions: Vec<Action<Signature<SpendAuth>>>) -> Vec<u8> {
    raw_transaction_with(Vec::new(), actions)
}

fn raw_transaction_with(
    outputs: Vec<OutputDescription<[u8; 192]>>,
    actions: Vec<Action<Signature<SpendAuth>>>,
) -> Vec<u8> {
    let sapling = sapling_crypto::Bundle::from_parts(
        vec![],
        outputs,
        ZatBalance::const_from_i64(-1),
        SaplingAuthorized { binding_sig: redjubjub::Signature::from([0u8; 64]) },
    );
    let count = actions.len();
    let bundle = orchard::Bundle::try_from_parts(
        NonEmpty::from_vec(actions).unwrap(),
        Flags::ENABLED,
        ZatBalance::const_from_i64(-1),
        Anchor::empty_tree(),
        OrchardAuthorized::from_parts(
            Proof::new(vec![0u8; Proof::expected_proof_size(count)]),
            Signature::from([0u8; 64]),
        ),
        BundleVersion::orchard_v2(),
    )
    .unwrap();
    let tx = TransactionData::<Authorized>::from_parts(
        TxVersion::V5,
        BranchId::Nu5,
        0,
        BlockHeight::from_u32(HEIGHT + 100),
        None,
        None,
        sapling,
        Some(bundle),
    )
    .freeze()
    .unwrap();
    let mut raw = Vec::new();
    tx.write(&mut raw).unwrap();
    raw
}

#[test]
fn orchard_outputs_are_found_with_value_index_memo_and_direction() {
    let mut rng = Counter(3);
    let wallet = unified_key(0xab);
    let wallet_orchard = wallet.orchard().unwrap();
    let other = unified_key(0xcd);
    let to_other = other.orchard().unwrap().address_at(0u32, Scope::External);
    let raw = raw_transaction(vec![
        action(to_other, None, 77, b"not ours", &mut rng),
        action(wallet_orchard.address_at(0u32, Scope::External), None, 40, b"for you", &mut rng),
        action(to_other, Some(wallet_orchard.to_ovk(Scope::External)), 9, b"", &mut rng),
        action(wallet_orchard.address_at(0u32, Scope::Internal), None, 2, &[0xf6], &mut rng),
    ]);
    let key = wallet.encode(&ConsensusNetwork::TestNetwork).unwrap();
    let details = analyze(TXID, &key, &hex::encode(&raw), HEIGHT, NOW).unwrap().details;
    assert_eq!(details.incoming_zats, 40);
    assert_eq!(details.outgoing_zats, 9);
    assert_eq!(details.change_zats, 2);
    assert_eq!(details.amount_zats, 42);
    assert_eq!(details.tx_size_bytes, raw.len());
    let seen: Vec<(&str, usize, &str, &str, i64, &str)> = details
        .outputs
        .iter()
        .map(|o| {
            (
                o.protocol.as_str(),
                o.index,
                o.transfer_type.as_str(),
                o.direction.as_str(),
                o.amount_zats,
                o.memo.as_str(),
            )
        })
        .collect();
    assert_eq!(seen, vec![
        ("Orchard", 1, "Incoming", "received", 40, "for you"),
        ("Orchard", 2, "Outgoing", "sent", 9, ""),
        ("Orchard", 3, "WalletInternal", "change", 2, ""),
    ]);
}

#[test]
fn sapling_outputs_come_before_orchard_outputs_each_by_index() {
    let mut rng = Counter(11);
    let wallet = unified_key(0xab);
    let wallet_sapling = wallet.sapling().unwrap();
    let wallet_orchard = wallet.orchard().unwrap();
    let stranger = unified_key(0xcd).sapling().unwrap().default_address().1;
    let raw = raw_transaction_with(
        vec![
            sapling_output(stranger, 1_000, b"", &mut rng),
            sapling_output(wallet_sapling.default_address().1, 100_000_000, b"first", &mut rng),
            sapling_output(wallet_sapling.change_address().1, 7, b"", &mut rng),
        ],
        vec![
            action(wallet_orchard.address_at(0u32, Scope::External), None, 20, b"second", &mut rng),
            action(wallet_orchard.address_at(0u32, Scope::Internal), None, 1, b"", &mut rng),
        ],
    );
    let key = wallet.encode(&ConsensusNetwork::TestNetwork).unwrap();
    let details = analyze(TXID, &key, &hex::encode(&raw), HEIGHT, NOW).unwrap().details;
    let seen: Vec<(&str, usize, &str, i64)> = details
        .outputs
        .iter()
        .map(|o| (o.protocol.as_str(), o.index, o.direction.as_str(), o.amount_zats))
        .collect();
    assert_eq!(seen, vec![
        ("Sapling", 1, "received", 100_000_000),
        ("Sapling", 2, "change", 7),
        ("Orchard", 0, "received", 20),
        ("Orchard", 1, "change", 1),
    ]);
    assert_eq!(details.outputs[0].memo, "first");
    assert_eq!(details.outputs[2].memo, "second");
    assert_eq!(details.incoming_zats, 100_000_020);
    assert_eq!(details.change_zats, 8);
    assert_eq!(details.amount_zats, 100_000_028);
    assert_eq!(details.outgoing_zats, 0);
    assert_eq!(details.transaction_hash, "ffeeddccbbaa9988...7766554433221100");
}

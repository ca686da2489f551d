//! The encryption state of one connection, against a real MLS group.
use openmls::prelude::tls_codec::{Deserialize, DeserializeBytes, Serialize};
use openmls::prelude::{
    BasicCredential, Ciphersuite, ExternalProposal, ExternalSender, GroupEpoch, GroupId,
    KeyPackageIn, MlsMessageIn, OpenMlsProvider, ProtocolVersion, SenderExtensionIndex, VLBytes,
};
use openmls_basic_credential::SignatureKeyPair;
use openmls_rust_crypto::OpenMlsRustCrypto;

use oto::dave::{
    key_package_answer, proposals_answer, validate_version, Control, Core, MediaOutcome, Outbound,
    Snapshot, MAX_PROTOCOL_VERSION, OPUS_MAX_ENCRYPTION_OVERHEAD_BYTES,
};
use oto::audio::executor::EncryptReport;
use oto::fuzzing::{
    dave_binary_envelope, dave_control_sequence, gateway_json_dispatch, ip_discovery_response,
    prefix_u16, prefix_u64, run_controls, EnvelopeOutcome,
};
use oto::gateway::dispatch::TextMessage;
use oto::gateway::session::SequenceField;
use oto::json::Json;
use oto::mls::{Attempt, ProposalsOutcome};
use oto::owner::{admit_frame, answer_arrived, command_queued, media_report, OwnerWait};
use oto::{DaveContext, DaveFailure};

const FIXTURE_MY_USER_ID: u64 = 158_049_329_150_427_136;
const FIXTURE_OTHER_USER_ID: u64 = 158_533_742_254_751_744;
const FIXTURE_CHANNEL_ID: u64 = 927_310_423_890_473_011;

/// The voice gateway's part in an MLS group: it proposes members.
struct Gateway {
    provider: OpenMlsRustCrypto,
    signer: SignatureKeyPair,
    sender: ExternalSender,
}

impl Gateway {
    fn new() -> Self {
        let suite = Ciphersuite::MLS_128_DHKEMP256_AES128GCM_SHA256_P256;
        let signer = SignatureKeyPair::new(suite.signature_algorithm()).unwrap();
        let sender = ExternalSender::new(
            signer.public().into(),
            BasicCredential::new(vec![0, 1, 1, 0]).into(),
        );
        Gateway { provider: OpenMlsRustCrypto::default(), signer, sender }
    }

    fn external_sender(&self) -> Vec<u8> {
        self.sender.tls_serialize_detached().unwrap()
    }

    /// The proposals that add the other user to a group that was just created.
    fn proposals(&self) -> Vec<u8> {
        let mut joiner = Core::new(FIXTURE_OTHER_USER_ID, FIXTURE_CHANNEL_ID).unwrap();
        let actions = joiner
            .control(Control::ExternalSender(self.external_sender()))
            .unwrap();
        let [Outbound::Binary(package)] = actions.as_slice() else {
            panic!("expected key package");
        };
        let package = KeyPackageIn::tls_deserialize_exact_bytes(&package[1..])
            .unwrap()
            .validate(self.provider.crypto(), ProtocolVersion::Mls10)
            .unwrap();
        let message = ExternalProposal::new_add::<OpenMlsRustCrypto>(
            package,
            GroupId::from_slice(&FIXTURE_CHANNEL_ID.to_be_bytes()),
            GroupEpoch::from(0),
            &self.signer,
            SenderExtensionIndex::new(0),
        )
        .unwrap();
        VLBytes::new(message.tls_serialize_detached().unwrap())
            .tls_serialize_detached()
            .unwrap()
    }
}

fn appended(proposals: Vec<u8>) -> Control {
    let mut payload = vec![0];
    payload.extend(proposals);
    Control::Proposals(payload)
}

/// The commit in what a core answers to proposals: the opcode, the commit, the welcome.
fn commit_of(actions: &[Outbound]) -> Vec<u8> {
    let [Outbound::Binary(bytes)] = actions else {
        panic!("expected a commit");
    };
    assert_eq!(bytes[0], 28);
    let mut rest = &bytes[1..];
    MlsMessageIn::tls_deserialize(&mut rest).unwrap();
    assert!(!rest.is_empty(), "a welcome follows the commit");
    bytes[1..bytes.len() - rest.len()].to_vec()
}

fn announced(id: u16, body: &[u8]) -> Vec<u8> {
    let mut payload = id.to_be_bytes().to_vec();
    payload.extend_from_slice(body);
    payload
}

fn prepared_fixture_core() -> Core {
    let gateway = Gateway::new();
    let mut core = Core::new(FIXTURE_MY_USER_ID, FIXTURE_CHANNEL_ID).unwrap();
    core.control(Control::Roster(vec![FIXTURE_MY_USER_ID, FIXTURE_OTHER_USER_ID]))
        .unwrap();
    core.control(Control::PrepareTransition { protocol_version: 1, id: 7 })
        .unwrap();
    core.control(Control::ExternalSender(gateway.external_sender()))
        .unwrap();
    let actions = core.control(appended(gateway.proposals())).unwrap();
    let commit = commit_of(&actions);
    let actions = core.control(Control::Commit(announced(7, &commit))).unwrap();
    assert!(matches!(
        actions.as_slice(),
        [Outbound::Json { opcode: 23, transition_id: 7 }]
    ));
    core
}

fn ready_fixture_core() -> Core {
    let mut core = prepared_fixture_core();
    assert!(core
        .control(Control::ExecuteTransition { id: 7 })
        .unwrap()
        .is_empty());
    core
}

fn encrypt(core: &mut Core, frame: &[u8]) -> Result<Vec<u8>, DaveFailure> {
    let mut output = Vec::new();
    core.encrypt_into(frame, &mut output)?;
    Ok(output)
}

const READY: Snapshot = Snapshot {
    active_version: 1,
    transition_id: None,
    ready: true,
};

const BLANK: Snapshot = Snapshot {
    active_version: 0,
    transition_id: None,
    ready: false,
};

#[test]
fn versions_and_transition_order_fail_closed() {
    let mut core = Core::new(7, 9).unwrap();
    assert!(matches!(
        core.control(Control::PrepareTransition { protocol_version: 0, id: 1 }),
        Err(DaveFailure::RequiredDowngrade)
    ));
    assert!(matches!(
        core.control(Control::PrepareTransition { protocol_version: 2, id: 1 }),
        Err(DaveFailure::UnsupportedVersion)
    ));
    assert!(matches!(
        core.control(Control::ExecuteTransition { id: 1 }),
        Err(DaveFailure::InvalidState)
    ));
    assert!(!core.snapshot().ready);
}

#[test]
fn transition_zero_executes_immediately_only_when_already_prepared() {
    let mut new_core = Core::new(7, 9).unwrap();
    assert!(new_core
        .control(Control::PrepareTransition { protocol_version: 1, id: 0 })
        .unwrap()
        .is_empty());
    assert_eq!(
        new_core.snapshot(),
        Snapshot {
            active_version: 0,
            transition_id: Some(0),
            ready: false,
        }
    );
    assert!(matches!(
        new_core.control(Control::ExecuteTransition { id: 0 }),
        Err(DaveFailure::InvalidState)
    ));
    assert!(matches!(
        encrypt(&mut new_core, b"must remain blocked"),
        Err(DaveFailure::InvalidState)
    ));

    let mut ready_core = ready_fixture_core();
    assert!(ready_core
        .control(Control::PrepareTransition { protocol_version: 1, id: 0 })
        .unwrap()
        .is_empty());
    assert_eq!(ready_core.snapshot(), READY);
    assert_ne!(
        encrypt(&mut ready_core, b"still encrypted").unwrap(),
        b"still encrypted"
    );
}

#[test]
fn initial_commit_zero_activates_without_ready_round_trip() {
    let gateway = Gateway::new();
    let mut core = Core::new(FIXTURE_MY_USER_ID, FIXTURE_CHANNEL_ID).unwrap();
    core.control(Control::Roster(vec![FIXTURE_OTHER_USER_ID]))
        .unwrap();
    core.control(Control::ExternalSender(gateway.external_sender()))
        .unwrap();
    let actions = core.control(appended(gateway.proposals())).unwrap();
    let commit = commit_of(&actions);

    assert!(
        core.control(Control::Commit(announced(0, &commit)))
            .unwrap()
            .is_empty(),
        "transition zero never sends a ready acknowledgement"
    );
    assert_eq!(core.snapshot(), READY);
    assert_ne!(encrypt(&mut core, b"protected").unwrap(), b"protected");
}

#[test]
fn wrong_transition_ids_preserve_the_prepared_transition() {
    let mut core = prepared_fixture_core();
    let prepared = Snapshot {
        active_version: 0,
        transition_id: Some(7),
        ready: false,
    };
    assert_eq!(core.snapshot(), prepared);

    for rejected in [
        Control::PrepareTransition { protocol_version: 1, id: 8 },
        Control::ExecuteTransition { id: 8 },
        Control::Commit(vec![0, 8, 0]),
        Control::Welcome(vec![0, 8, 0]),
    ] {
        assert!(matches!(core.control(rejected), Err(DaveFailure::InvalidState)));
        assert_eq!(core.snapshot(), prepared);
        assert!(matches!(
            encrypt(&mut core, b"must remain blocked"),
            Err(DaveFailure::InvalidState)
        ));
    }

    assert!(core
        .control(Control::ExecuteTransition { id: 7 })
        .unwrap()
        .is_empty());
    assert_eq!(core.snapshot(), READY);
    assert_ne!(encrypt(&mut core, b"now encrypted").unwrap(), b"now encrypted");
}

#[test]
fn valid_external_sender_produces_fresh_bounded_key_packages() {
    let mut core = Core::new(7, 9).unwrap();
    let first = core
        .control(Control::ExternalSender(Gateway::new().external_sender()))
        .unwrap();
    let [Outbound::Binary(first)] = first.as_slice() else {
        panic!("expected key package");
    };
    assert_eq!(first[0], 26);
    assert!(first.len() < 4_096);

    let second = core
        .control(Control::PrepareEpoch { protocol_version: 1, epoch: 1 })
        .unwrap();
    let [Outbound::Binary(second)] = second.as_slice() else {
        panic!("expected replacement key package");
    };
    assert_eq!(second[0], 26);
    assert_ne!(first, second);
    assert!(!core.snapshot().ready);
}

#[test]
fn rejected_external_sender_replacement_preserves_active_group() {
    let mut core = ready_fixture_core();
    assert_eq!(core.snapshot(), READY);
    assert_ne!(
        encrypt(&mut core, b"before replacement").unwrap(),
        b"before replacement"
    );

    assert!(matches!(
        core.control(Control::ExternalSender(Gateway::new().external_sender())),
        Err(DaveFailure::Backend)
    ));
    assert_eq!(core.snapshot(), READY);
    assert_ne!(
        encrypt(&mut core, b"after replacement").unwrap(),
        b"after replacement"
    );
}

#[test]
fn rejected_versions_preserve_active_encrypted_sender() {
    let mut core = ready_fixture_core();

    for (version, expected) in [
        (0, DaveFailure::RequiredDowngrade),
        (MAX_PROTOCOL_VERSION + 1, DaveFailure::UnsupportedVersion),
    ] {
        assert_eq!(
            core.control(Control::PrepareTransition { protocol_version: version, id: 8 })
                .unwrap_err(),
            expected
        );
        assert_eq!(core.snapshot(), READY);

        assert_eq!(
            core.control(Control::PrepareEpoch { protocol_version: version, epoch: 1 })
                .unwrap_err(),
            expected
        );
        assert_eq!(core.snapshot(), READY);
        assert_ne!(
            encrypt(&mut core, b"still protected").unwrap(),
            b"still protected"
        );
        assert_eq!(validate_version(version), Err(expected));
    }
    assert_eq!(validate_version(MAX_PROTOCOL_VERSION), Ok(()));
}

#[test]
fn epoch_one_replaces_active_and_pending_group_state() {
    let mut core = ready_fixture_core();
    assert_ne!(encrypt(&mut core, b"old group").unwrap(), b"old group");

    let actions = core
        .control(Control::PrepareTransition { protocol_version: 1, id: 8 })
        .unwrap();
    assert!(matches!(
        actions.as_slice(),
        [Outbound::Json { opcode: 23, .. }]
    ));
    assert_eq!(
        core.snapshot(),
        Snapshot {
            active_version: 1,
            transition_id: Some(8),
            ready: true,
        }
    );

    let actions = core
        .control(Control::PrepareEpoch { protocol_version: 1, epoch: 1 })
        .unwrap();
    assert!(matches!(
        actions.as_slice(),
        [Outbound::Binary(package)] if package.first() == Some(&26)
    ));
    assert_eq!(core.snapshot(), BLANK);
    assert!(matches!(
        core.control(Control::ExecuteTransition { id: 8 }),
        Err(DaveFailure::InvalidState)
    ));
    assert!(matches!(
        encrypt(&mut core, b"must not use old group"),
        Err(DaveFailure::InvalidState)
    ));
}

#[test]
fn later_epoch_retains_old_sender_until_new_transition_is_prepared() {
    let mut core = ready_fixture_core();
    assert_ne!(encrypt(&mut core, b"before epoch").unwrap(), b"before epoch");

    assert!(core
        .control(Control::PrepareEpoch { protocol_version: 1, epoch: 2 })
        .unwrap()
        .is_empty());
    assert_eq!(core.snapshot(), READY);
    assert_ne!(
        encrypt(&mut core, b"old sender remains").unwrap(),
        b"old sender remains"
    );

    assert!(core
        .control(Control::PrepareTransition { protocol_version: 1, id: 8 })
        .unwrap()
        .is_empty());
    let pending = Snapshot {
        active_version: 1,
        transition_id: Some(8),
        ready: true,
    };
    assert_eq!(core.snapshot(), pending);
    assert!(matches!(
        core.control(Control::ExecuteTransition { id: 8 }),
        Err(DaveFailure::InvalidState)
    ));
    assert_eq!(core.snapshot(), pending);
    assert_ne!(
        encrypt(&mut core, b"old sender still active").unwrap(),
        b"old sender still active"
    );
}

#[test]
fn malformed_backend_input_is_typed_and_never_ready() {
    let mut core = Core::new(7, 9).unwrap();
    assert!(matches!(
        core.control(Control::ExternalSender(vec![0x40, 0x41])),
        Err(DaveFailure::Malformed)
    ));
    assert!(matches!(
        core.control(Control::Proposals(vec![0])),
        Err(DaveFailure::Malformed)
    ));
    assert!(matches!(
        core.control(Control::Proposals(vec![2, 1])),
        Err(DaveFailure::Malformed)
    ));
    for truncated in [vec![], vec![0], vec![0, 7]] {
        assert!(matches!(
            core.control(Control::Commit(truncated.clone())),
            Err(DaveFailure::Malformed)
        ));
        assert!(matches!(
            core.control(Control::Welcome(truncated)),
            Err(DaveFailure::Malformed)
        ));
    }
    assert!(!core.snapshot().ready);
}

fn mutation_bytes(seed: &mut u64, maximum_len: usize) -> Vec<u8> {
    *seed = seed
        .wrapping_mul(6_364_136_223_846_793_005)
        .wrapping_add(1_442_695_040_888_963_407);
    let length = (*seed as usize) % (maximum_len + 1);
    (0..length)
        .map(|_| {
            *seed = seed
                .wrapping_mul(6_364_136_223_846_793_005)
                .wrapping_add(1_442_695_040_888_963_407);
            (*seed >> 32) as u8
        })
        .collect()
}

#[test]
fn deterministic_malformed_control_mutations_are_contained_and_fail_closed() {
    let external_sender = Gateway::new().external_sender();
    let mut seed = 0xD4A6_E001_5EED_C0DE;

    for case in 0..256_u16 {
        let mut core = Core::new(FIXTURE_MY_USER_ID, FIXTURE_CHANNEL_ID).unwrap();
        let mut payload = mutation_bytes(&mut seed, 192);
        let result = match case % 4 {
            0 => core.control(Control::ExternalSender(payload)),
            1 => {
                core.control(Control::ExternalSender(external_sender.clone()))
                    .expect("pinned external sender is valid");
                payload.insert(0, (case & 0x03) as u8);
                core.control(Control::Proposals(payload))
            }
            2 | 3 => {
                core.control(Control::PrepareTransition { protocol_version: 1, id: case })
                    .expect("supported transition prepares");
                payload.splice(0..0, case.to_be_bytes());
                if case % 4 == 2 {
                    core.control(Control::Commit(payload))
                } else {
                    core.control(Control::Welcome(payload))
                }
            }
            _ => unreachable!(),
        };

        assert!(matches!(
            result,
            Ok(_) | Err(DaveFailure::Malformed | DaveFailure::Backend | DaveFailure::BackendPanic)
        ));
        let snapshot = core.snapshot();
        assert!(snapshot.active_version <= MAX_PROTOCOL_VERSION);
        assert!(!snapshot.ready);
        assert!(matches!(
            encrypt(&mut core, b"must not escape"),
            Err(DaveFailure::InvalidState)
        ));
    }
}

#[test]
fn invalid_commit_and_welcome_reset_group_and_emit_fresh_package() {
    for welcome in [false, true] {
        let mut core = ready_fixture_core();
        let actions = core
            .control(Control::PrepareTransition { protocol_version: 1, id: 8 })
            .unwrap();
        assert!(matches!(
            actions.as_slice(),
            [Outbound::Json { opcode: 23, .. }]
        ));

        let payload = vec![0, 8, 0];
        let control = if welcome {
            Control::Welcome(payload)
        } else {
            Control::Commit(payload)
        };
        let actions = core.control(control).unwrap();
        assert!(matches!(
            actions.as_slice(),
            [
                Outbound::Json { opcode: 31, .. },
                Outbound::Binary(package)
            ] if package.first() == Some(&26)
        ));
        assert_eq!(core.snapshot(), BLANK);
        assert!(matches!(
            encrypt(&mut core, b"must not escape"),
            Err(DaveFailure::InvalidState)
        ));
    }
}

#[test]
fn disconnected_member_is_removed_from_proposal_allowlist() {
    let gateway = Gateway::new();
    let mut core = Core::new(FIXTURE_MY_USER_ID, FIXTURE_CHANNEL_ID).unwrap();
    core.control(Control::Roster(vec![FIXTURE_MY_USER_ID, FIXTURE_OTHER_USER_ID]))
        .unwrap();
    core.control(Control::ExternalSender(gateway.external_sender()))
        .unwrap();
    core.control(Control::MemberDisconnected(FIXTURE_OTHER_USER_ID))
        .unwrap();
    assert!(matches!(
        core.control(appended(gateway.proposals())),
        Err(DaveFailure::Backend)
    ));
    assert!(!core.snapshot().ready);
}

#[test]
fn roster_controls_cannot_remove_local_identity() {
    let mut core = Core::new(FIXTURE_MY_USER_ID, FIXTURE_CHANNEL_ID).unwrap();
    core.control(Control::Roster(vec![
        FIXTURE_OTHER_USER_ID,
        FIXTURE_OTHER_USER_ID,
    ]))
    .unwrap();
    assert_eq!(core.recognized().len(), 2);
    assert!(core.recognized().contains(&FIXTURE_MY_USER_ID));
    assert!(core.recognized().contains(&FIXTURE_OTHER_USER_ID));

    core.control(Control::MemberDisconnected(FIXTURE_MY_USER_ID))
        .unwrap();
    assert!(core.recognized().contains(&FIXTURE_MY_USER_ID));

    core.control(Control::MemberDisconnected(FIXTURE_OTHER_USER_ID))
        .unwrap();
    assert_eq!(core.recognized(), &vec![FIXTURE_MY_USER_ID]);
}

#[test]
fn pinned_mls_fixture_reaches_execute_and_encrypts_participant_silence() {
    let mut core = ready_fixture_core();
    let encrypted = encrypt(&mut core, &davey::OPUS_SILENCE_PACKET).unwrap();
    assert_ne!(encrypted, davey::OPUS_SILENCE_PACKET);
    assert_eq!(&encrypted[encrypted.len() - 2..], &[0xFA, 0xFA]);
}

#[test]
fn successful_commit_stages_sender_and_clears_blocked_output() {
    let mut core = prepared_fixture_core();
    let mut output = vec![0xAA; 32];
    assert!(matches!(
        core.encrypt_into(b"before execute", &mut output),
        Err(DaveFailure::InvalidState)
    ));
    assert!(output.is_empty());

    assert!(core
        .control(Control::ExecuteTransition { id: 7 })
        .unwrap()
        .is_empty());
    core.encrypt_into(b"after execute", &mut output).unwrap();
    assert_ne!(output, b"after execute");
    assert_eq!(core.snapshot(), READY);
}

#[test]
fn encrypted_frames_stay_within_their_overhead() {
    let mut core = ready_fixture_core();
    for length in [1, 2, 3, 100, 1_275] {
        let encrypted = encrypt(&mut core, &vec![0x55; length]).unwrap();
        assert!(encrypted.len() > length);
        assert!(encrypted.len() <= length + OPUS_MAX_ENCRYPTION_OVERHEAD_BYTES);
    }
}

#[test]
fn joiners_enter_the_group_by_its_welcome() {
    let gateway = Gateway::new();
    let mut creator = Core::new(FIXTURE_MY_USER_ID, FIXTURE_CHANNEL_ID).unwrap();
    creator
        .control(Control::Roster(vec![FIXTURE_OTHER_USER_ID]))
        .unwrap();
    creator
        .control(Control::ExternalSender(gateway.external_sender()))
        .unwrap();

    let mut joiner = Core::new(FIXTURE_OTHER_USER_ID, FIXTURE_CHANNEL_ID).unwrap();
    joiner.control(Control::Roster(vec![FIXTURE_MY_USER_ID])).unwrap();
    let actions = joiner
        .control(Control::ExternalSender(gateway.external_sender()))
        .unwrap();
    let [Outbound::Binary(package)] = actions.as_slice() else {
        panic!("expected key package");
    };
    let package = KeyPackageIn::tls_deserialize_exact_bytes(&package[1..])
        .unwrap()
        .validate(gateway.provider.crypto(), ProtocolVersion::Mls10)
        .unwrap();
    let message = ExternalProposal::new_add::<OpenMlsRustCrypto>(
        package,
        GroupId::from_slice(&FIXTURE_CHANNEL_ID.to_be_bytes()),
        GroupEpoch::from(0),
        &gateway.signer,
        SenderExtensionIndex::new(0),
    )
    .unwrap();
    let proposals = VLBytes::new(message.tls_serialize_detached().unwrap())
        .tls_serialize_detached()
        .unwrap();
    let actions = creator.control(appended(proposals)).unwrap();
    let commit = commit_of(&actions);
    let [Outbound::Binary(bytes)] = actions.as_slice() else {
        panic!("expected a commit");
    };
    let welcome = &bytes[1 + commit.len()..];
    assert!(joiner
        .control(Control::Welcome(announced(0, welcome)))
        .unwrap()
        .is_empty());
    assert_eq!(joiner.snapshot(), READY);
    assert_ne!(encrypt(&mut joiner, b"joined").unwrap(), b"joined");
}

#[test]
fn mutated_messages_of_a_real_group_are_refused() {
    let gateway = Gateway::new();
    let creator = || {
        let mut core = Core::new(FIXTURE_MY_USER_ID, FIXTURE_CHANNEL_ID).unwrap();
        core.control(Control::Roster(vec![FIXTURE_OTHER_USER_ID])).unwrap();
        core.control(Control::ExternalSender(gateway.external_sender())).unwrap();
        core
    };
    let mutated = |message: &[u8], index: usize| {
        let mut bytes = message.to_vec();
        bytes[index] ^= 0xC0;
        bytes
    };

    let proposals = gateway.proposals();
    let mut core = creator();
    for index in (0..proposals.len()).step_by(5) {
        let result = core.control(appended(mutated(&proposals, index)));
        assert!(matches!(result, Err(DaveFailure::Backend | DaveFailure::BackendPanic)));
    }

    let actions = core.control(appended(proposals.clone())).unwrap();
    let length = commit_of(&actions).len();
    let [Outbound::Binary(bytes)] = actions.as_slice() else {
        panic!("expected a commit");
    };
    let welcome = &bytes[1 + length..];
    for index in (0..welcome.len()).step_by(41) {
        core.control(Control::PrepareTransition { protocol_version: 1, id: 3 }).unwrap();
        let actions = core
            .control(Control::Welcome(announced(3, &mutated(welcome, index))))
            .unwrap();
        assert!(matches!(actions.as_slice(), [Outbound::Json { opcode: 31, .. }, _]));
        assert_eq!(core.snapshot(), BLANK);
    }

    for index in (0..length).step_by(61) {
        let mut core = creator();
        let actions = core.control(appended(proposals.clone())).unwrap();
        let commit = commit_of(&actions);
        core.control(Control::PrepareTransition { protocol_version: 1, id: 3 }).unwrap();
        let actions = core
            .control(Control::Commit(announced(3, &mutated(&commit, index % commit.len()))))
            .unwrap();
        assert!(matches!(actions.as_slice(), [Outbound::Json { opcode: 31, .. }, _]));
        assert_eq!(core.snapshot(), BLANK);
    }
}

#[test]
fn lengths_that_announce_too_much_are_contained() {
    let mut core = Core::new(FIXTURE_MY_USER_ID, FIXTURE_CHANNEL_ID).unwrap();
    for sender in [vec![8, 0, 0, 0], vec![0x3F, 0, 0, 0], vec![0xC0, 0, 1, 0]] {
        assert!(matches!(
            core.control(Control::ExternalSender(sender)),
            Err(DaveFailure::Backend | DaveFailure::BackendPanic)
        ));
        assert_eq!(core.snapshot(), BLANK);
    }
    core.control(Control::ExternalSender(Gateway::new().external_sender())).unwrap();
    for proposals in [vec![0, 0x3F, 0], vec![1, 0xC0], vec![1, 3, 3, 0, 0]] {
        assert!(matches!(
            core.control(Control::Proposals(proposals)),
            Err(DaveFailure::Backend | DaveFailure::BackendPanic)
        ));
    }
    for welcome in [false, true] {
        core.control(Control::PrepareTransition { protocol_version: 1, id: 8 }).unwrap();
        let payload = vec![0, 8, 0, 2, 0x3F, 0];
        let control = if welcome {
            Control::Welcome(payload)
        } else {
            Control::Commit(payload)
        };
        let actions = core.control(control).unwrap();
        assert!(matches!(
            actions.as_slice(),
            [Outbound::Json { opcode: 31, transition_id: 8 }, Outbound::Binary(package)]
                if package[0] == 26
        ));
        assert_eq!(core.snapshot(), BLANK);
    }
}

#[test]
fn media_waits_until_the_sender_is_ready() {
    let mut core = prepared_fixture_core();
    let mut output = vec![0xAA; 4];
    assert_eq!(
        core.encrypt_media(&[1, 2, 3, 4], 3, &mut output),
        Ok(MediaOutcome::NotReady)
    );
    core.control(Control::ExecuteTransition { id: 7 }).unwrap();
    assert_eq!(
        core.encrypt_media(&[1, 2, 3, 4], 3, &mut output),
        Ok(MediaOutcome::Encrypted)
    );
    assert!(output.len() > 3);
}

#[test]
fn proposal_outcomes_become_answers() {
    assert!(matches!(
        proposals_answer(ProposalsOutcome::Rejected),
        Err(DaveFailure::Backend)
    ));
    assert!(matches!(
        proposals_answer(ProposalsOutcome::Panicked),
        Err(DaveFailure::BackendPanic)
    ));
    assert!(proposals_answer(ProposalsOutcome::Nothing).unwrap().is_empty());
    let actions = proposals_answer(ProposalsOutcome::Commit {
        commit: vec![1, 2],
        welcome: Some(vec![3]),
    })
    .unwrap();
    assert!(matches!(
        actions.as_slice(),
        [Outbound::Binary(bytes)] if bytes == &vec![28, 1, 2, 3]
    ));
}

#[test]
fn key_packages_become_answers() {
    let actions = key_package_answer(Attempt::Done(vec![5, 6])).unwrap();
    assert!(matches!(
        actions.as_slice(),
        [Outbound::Binary(bytes)] if bytes == &vec![26, 5, 6]
    ));
    assert!(matches!(key_package_answer(Attempt::Failed), Err(DaveFailure::Backend)));
    assert!(matches!(key_package_answer(Attempt::Panicked), Err(DaveFailure::BackendPanic)));
    assert_eq!(Attempt::Done(4).into_result(), Ok(4));
}

#[test]
fn backend_answers_settle_the_pending_transition() {
    let mut core = Core::new(FIXTURE_MY_USER_ID, FIXTURE_CHANNEL_ID).unwrap();
    assert!(matches!(
        core.settle_execution(Attempt::Done(())),
        Err(DaveFailure::InvalidState)
    ));
    assert!(matches!(core.settle_keys(true), Err(DaveFailure::InvalidState)));

    core.control(Control::PrepareTransition { protocol_version: 1, id: 9 }).unwrap();
    let actions = core.settle_keys(true).unwrap();
    assert!(matches!(
        actions.as_slice(),
        [Outbound::Json { opcode: 23, transition_id: 9 }]
    ));
    assert!(matches!(core.settle_execution(Attempt::Failed), Err(DaveFailure::Backend)));
    assert!(matches!(core.settle_execution(Attempt::Panicked), Err(DaveFailure::BackendPanic)));
    assert_eq!(core.snapshot().transition_id, Some(9));
    assert_eq!(core.snapshot().active_version, 0);
    assert!(core.settle_execution(Attempt::Done(())).unwrap().is_empty());
    assert_eq!(core.snapshot().transition_id, None);
    assert_eq!(core.snapshot().active_version, 1);

    core.control(Control::PrepareTransition { protocol_version: 1, id: 10 }).unwrap();
    let gateway = Gateway::new();
    core.control(Control::ExternalSender(gateway.external_sender())).unwrap();
    let actions = core.settle_keys(false).unwrap();
    assert!(matches!(
        actions.as_slice(),
        [Outbound::Json { opcode: 31, transition_id: 10 }, Outbound::Binary(bytes)]
            if bytes[0] == 26
    ));
    assert_eq!(core.snapshot().transition_id, None);
    assert_eq!(core.snapshot().active_version, 0);
}

#[test]
fn controls_carry_their_opcodes() {
    for (control, opcode) in [
        (Control::PrepareTransition { protocol_version: 1, id: 1 }, 21),
        (Control::ExecuteTransition { id: 1 }, 22),
        (Control::PrepareEpoch { protocol_version: 1, epoch: 1 }, 24),
        (Control::ExternalSender(vec![]), 25),
        (Control::Proposals(vec![]), 27),
        (Control::Commit(vec![]), 29),
        (Control::Welcome(vec![]), 30),
        (Control::Roster(vec![]), 11),
        (Control::MemberDisconnected(1), 13),
    ] {
        assert_eq!(control.opcode(), opcode);
    }
}

#[test]
fn diagnostics_follow_the_snapshot() {
    let context = DaveContext::from(Snapshot {
        active_version: 1,
        transition_id: Some(0),
        ready: false,
    });
    assert_eq!(context.active_version, 1);
    assert!(context.transition_pending);
    assert!(!context.ready);
}

/// Writes one action of a control sequence.
fn action(kind: u8, payload: &[u8]) -> Vec<u8> {
    let mut bytes = vec![kind];
    bytes.extend_from_slice(&(payload.len() as u16).to_be_bytes());
    bytes.extend_from_slice(payload);
    bytes
}

#[test]
fn control_sequences_keep_every_core_sound() {
    let mut input = Vec::new();
    input.extend(action(7, &FIXTURE_OTHER_USER_ID.to_be_bytes()));
    input.extend(action(0, &[0, 1, 0, 8]));
    input.extend(action(9, b"frame"));
    input.extend(action(1, &[0, 8]));
    input.extend(action(3, &[1, 2, 3]));
    input.extend(action(4, &[0]));
    input.extend(action(5, &[0, 8]));
    input.extend(action(6, &[0, 8, 0]));
    input.extend(action(8, &FIXTURE_OTHER_USER_ID.to_be_bytes()));
    input.extend(action(2, &[0, 1, 0, 0, 0, 0, 0, 0, 0, 1]));
    input.extend(action(0, &[0, 2, 0, 9]));
    let mut prepared = prepared_fixture_core();
    let mut ready = ready_fixture_core();
    let mut run = |input: &[u8]| {
        let ran = dave_control_sequence(
            input,
            FIXTURE_MY_USER_ID,
            FIXTURE_CHANNEL_ID,
            &mut prepared,
            &mut ready,
        );
        (ran, prepared.snapshot().transition_id, ready.snapshot().ready)
    };
    assert_eq!(run(&[]), (Ok(0), Some(7), true));
    let mut chosen = vec![3];
    chosen.extend_from_slice(&input);
    assert_eq!(run(&chosen), (Ok(11), Some(7), true));
    chosen[0] = 1;
    assert_eq!(run(&chosen), (Ok(11), None, true));
    chosen[0] = 255;
    assert_eq!(run(&chosen), (Ok(11), None, true));
    chosen[0] = 2;
    assert_eq!(run(&chosen), (Ok(11), None, false));
    let mut again = ready_fixture_core();
    assert_eq!(run_controls(&mut again, &input), 11);
    assert!(!again.snapshot().ready);
}

#[test]
fn arbitrary_bytes_are_decoded_as_promised() {
    assert_eq!(
        dave_binary_envelope(&[0, 1, 27, 1, 9]),
        [
            EnvelopeOutcome::BodyTooLarge,
            EnvelopeOutcome::BodyTooLarge,
            EnvelopeOutcome::Decoded { sequence: 1, control: true },
            EnvelopeOutcome::Decoded { sequence: 1, control: true },
        ]
    );
    assert_eq!(dave_binary_envelope(&[0, 1]), [EnvelopeOutcome::Malformed; 4]);
    assert_eq!(prefix_u16(&[1], 0), 0x0100);
    assert_eq!(prefix_u64(&[9, 1, 2], 1), 0x0102_0000_0000_0000);
    assert!(ip_discovery_response(&[0, 2, 0, 70]).is_none());
    let mut response = vec![0_u8; 74];
    response[..8].copy_from_slice(&[0, 2, 0, 70, 0, 2, 0, 70]);
    response[8..11].copy_from_slice(b"::1");
    response[73] = 9;
    let found = ip_discovery_response(&response).unwrap();
    assert_eq!((found.address.as_str(), found.port), ("::1", 9));
    let hello = |data: Json| {
        gateway_json_dispatch(TextMessage {
            opcode: 8,
            sequence: SequenceField::Absent,
            data,
            ready: None,
            description: None,
        })
    };
    assert!(!hello(Json::Null));
    assert!(hello(Json::Object(vec![(
        "heartbeat_interval".to_owned(),
        Json::Unsigned(5)
    )])));
}

#[test]
fn media_diagnostics_distinguish_queue_and_response_deadlines() {
    assert_eq!(command_queued(OwnerWait::TimedOut), Err(DaveFailure::QueueTimeout));
    assert_eq!(answer_arrived(OwnerWait::TimedOut), Err(DaveFailure::ResponseTimeout));
    assert_eq!(command_queued(OwnerWait::Gone), Err(DaveFailure::Closed));
    assert_eq!(answer_arrived(OwnerWait::Gone), Err(DaveFailure::Closed));
    assert_eq!(command_queued(OwnerWait::Done), Ok(()));
    assert_eq!(answer_arrived(OwnerWait::Done), Ok(()));
    assert_eq!(admit_frame(3, 4), Err(DaveFailure::Malformed));
    assert_eq!(admit_frame(4, 4), Ok(()));
    assert!(matches!(
        media_report(Err(DaveFailure::QueueTimeout), vec![]),
        EncryptReport::OwnerFailed(DaveFailure::QueueTimeout)
    ));
    assert!(matches!(
        media_report(Ok(Ok(MediaOutcome::Encrypted)), vec![7]),
        EncryptReport::Ready(bytes) if bytes == [7]
    ));
}

//! The protocol exercised end to end on the plaintext backend: a client and a
//! transcript fed the same evolvement stream must agree on membership after
//! every step.

use eid::dummy::backend::EidDummyBackend;
use eid::dummy::client::EidDummyClient;
use eid::dummy::evolvement::EidDummyEvolvement;
use eid::dummy::member::EidDummyMember;
use eid::dummy::state::EidDummyState;
use eid::dummy::transcript::EidDummyTranscript;
use eid::traits::client::EidClient;
use eid::traits::evolvement::Evolvement;
use eid::traits::member::Member;
use eid::traits::state::EidState;
use eid::traits::transcript::{EidExportedTranscriptState, EidTranscript};
use eid::traits::types::EidError;
use eid::dummy::keypair::KeyPair;
use eid::dummy::keystore::EidDummyKeystore;

/// Simulate a transfer over the wire: serialize, then deserialize.
fn transfer_evolvement(evolvement: &EidDummyEvolvement) -> EidDummyEvolvement {
    eid::test_helpers::simulate_transfer(evolvement).expect("Failed to transfer")
}

/// Create a transcript trusting the client's exported state.
fn build_transcript(client: &EidDummyClient, backend: &EidDummyBackend) -> EidDummyTranscript {
    eid::test_helpers::build_transcript(client, backend).expect("Failed to create transcript")
}

/// Cross-sign the client's membership and apply the evolvement to the client
/// and the transcript.
fn cross_sign(
    client: &mut EidDummyClient,
    transcript: &mut EidDummyTranscript,
    backend: &EidDummyBackend,
) -> EidDummyEvolvement {
    eid::test_helpers::cross_sign(client, transcript, backend).expect("Cross signing failed")
}

/// Add a member, let it join and cross-sign, and keep every party in step.
fn add_and_cross_sign(
    client: &mut EidDummyClient,
    transcript: &mut EidDummyTranscript,
    member: EidDummyMember,
    backend: &EidDummyBackend,
) -> (EidDummyEvolvement, EidDummyEvolvement) {
    eid::test_helpers::add_and_cross_sign(client, transcript, member, (), backend)
        .expect("failed to add and cross-sign member")
}

#[test]
fn add_dummy() {
    let backend = &EidDummyBackend::default();
    let client = &mut EidDummyClient::generate_initial_client("test_id".into(), backend)
        .expect("Could not create EID");
    let mut transcript = build_transcript(client, backend);

    let members_initial = client.get_members();
    assert_eq!(0, members_initial.len());

    cross_sign(client, &mut transcript, backend);
    let members_after_cross_sign = client.get_members();
    assert_eq!(1, members_after_cross_sign.len());

    let (alice, _alice_kp) = EidDummyClient::generate_member("alice".into(), backend)
        .expect("Failed to generate member");
    let (add_alice_evolvement_in, ..) =
        add_and_cross_sign(client, &mut transcript, alice.clone(), backend);

    assert_eq!(client.get_members().len(), 2);
    let error = client
        .evolve(add_alice_evolvement_in.clone(), backend)
        .expect_err("Evolving with same evolvement twice");
    assert!(matches!(error, EidError::InvalidEvolvementError(..)));

    let error = transcript
        .evolve(add_alice_evolvement_in.clone(), backend)
        .expect_err("Evolving with same evolvement twice");
    assert!(matches!(error, EidError::InvalidEvolvementError(..)));

    let members_after_alice_cross_sign = client.get_members();
    assert!(members_after_alice_cross_sign.contains(&alice));
    assert_eq!(2, members_after_alice_cross_sign.len());
    assert_eq!(transcript.get_members(), members_after_alice_cross_sign);

    // Try to add Alice a second time
    let member_in_eid_error = client
        .add(&alice, backend)
        .expect_err("Adding member a second time");
    assert!(matches!(member_in_eid_error, EidError::AddMemberError(..)));

    // Add Bob
    let (bob, _bob_kp) = EidDummyClient::generate_member("bob".into(), backend)
        .expect("Failed to generate member");
    add_and_cross_sign(client, &mut transcript, bob.clone(), backend);

    let members = client.get_members();
    assert!(members.contains(&bob));
    assert_eq!(3, members.len());
    assert_eq!(transcript.get_members(), members);
}

#[test]
fn remove_dummy() {
    let backend = &EidDummyBackend::default();
    let client = &mut EidDummyClient::generate_initial_client("test_id".into(), backend)
        .expect("Could not create EID");
    let mut transcript = build_transcript(client, backend);

    cross_sign(client, &mut transcript, backend);

    let (alice, _keypair_alice) = EidDummyClient::generate_member("alice".into(), backend)
        .expect("Failed to generate member");
    add_and_cross_sign(client, &mut transcript, alice.clone(), backend);

    assert_eq!(transcript.get_members(), client.get_members());

    let alice_after_insert = client
        .get_members()
        .into_iter()
        .find(|member| member.clone() == alice)
        .expect("Alice not found");

    let evolvement_remove_out = client
        .remove(&alice_after_insert, backend)
        .expect("failed to remove member");
    let evolvement_remove_in = transfer_evolvement(&evolvement_remove_out);
    client
        .evolve(evolvement_remove_in.clone(), backend)
        .expect("Failed to apply remove on client state");
    transcript
        .evolve(evolvement_remove_in.clone(), backend)
        .expect("Failed to evolve transcript");

    assert_eq!(transcript.get_members(), client.get_members());

    // Try to remove Alice a second time
    let member_not_in_eid_error = client
        .remove(&alice, backend)
        .expect_err("Removing non-existent member");
    assert!(matches!(
        member_not_in_eid_error,
        EidError::InvalidMemberError(..)
    ));

    let members = client.get_members();
    assert!(!members.contains(&alice));
    assert_eq!(1, members.len());
}

#[test]
fn update_dummy() {
    let backend = &EidDummyBackend::default();
    let client = &mut EidDummyClient::generate_initial_client("test_id".into(), backend)
        .expect("Could not create EID");
    let mut transcript = build_transcript(client, backend);

    cross_sign(client, &mut transcript, backend);

    let members_before = client.get_members();
    let alice_before_update_1 = &members_before[0];

    let update_evolvement_1_out = client.update(backend).expect("Updating client keys failed");
    let update_evolvement_1_in = transfer_evolvement(&update_evolvement_1_out);
    client
        .evolve(update_evolvement_1_in.clone(), backend)
        .expect("Failed to apply update on client state");
    transcript
        .evolve(update_evolvement_1_in.clone(), backend)
        .expect("Failed to evolve transcript");

    assert_eq!(transcript.get_members(), client.get_members());

    let members_after_update_1 = client.get_members();
    let alice_after_update = members_after_update_1[0].clone();
    assert!(members_after_update_1.contains(alice_before_update_1));
    assert_ne!(alice_after_update.get_pk(), alice_before_update_1.get_pk());
    assert_eq!(1, members_after_update_1.len());

    // Update a second time
    let alice_before_update_2 = &members_after_update_1[0];
    let update_evolvement_2_out = client.update(backend).expect("Updating client keys failed");
    let update_evolvement_2_in = transfer_evolvement(&update_evolvement_2_out);

    // The second update is the valid successor of the first.
    assert!(update_evolvement_2_in.is_valid_successor(&update_evolvement_1_in));

    client
        .evolve(update_evolvement_2_in.clone(), backend)
        .expect("Failed to apply update on client state");
    transcript
        .evolve(update_evolvement_2_in.clone(), backend)
        .expect("Failed to add evolvement");
    assert_eq!(transcript.get_members(), client.get_members());

    let members_after_update_2 = client.get_members();
    let alice_after_update_2 = members_after_update_2[0].clone();
    assert!(members_after_update_2.contains(alice_before_update_2));
    assert_ne!(
        alice_before_update_2.get_pk(),
        alice_after_update_2.get_pk()
    );
    assert_eq!(1, members_after_update_2.len());
}

/// The concrete scenario of the protocol description, on the plaintext
/// backend: create, cross-sign, add, join, cross-sign, update twice, remove,
/// and a rejected second removal — with a transcript agreeing at every step.
#[test]
fn dummy_book_scenario() {
    let backend = &EidDummyBackend::default();
    let alice_client = &mut EidDummyClient::generate_initial_client("alice".into(), backend)
        .expect("Could not create EID");
    let mut transcript = build_transcript(alice_client, backend);

    // Alice created the EID but has not cross-signed: nobody lists her yet.
    assert_eq!(alice_client.get_members().len(), 0);
    assert_eq!(transcript.get_members().len(), 0);

    // Alice cross-signs.
    cross_sign(alice_client, &mut transcript, backend);
    assert_eq!(alice_client.get_members().len(), 1);
    assert_eq!(transcript.get_members(), alice_client.get_members());

    // Alice adds Bob; the member list is unchanged until Bob cross-signs.
    let (bob, _bob_kp) =
        EidDummyClient::generate_member("bob".into(), backend).expect("Failed to generate member");
    let add_bob_out = alice_client.add(&bob, backend).expect("Could not add member.");
    let add_bob_in = transfer_evolvement(&add_bob_out);
    transcript
        .evolve(add_bob_in.clone(), backend)
        .expect("Failed to evolve transcript");
    alice_client
        .evolve(add_bob_in.clone(), backend)
        .expect("Alice could not apply add_bob_evolvement");
    assert_eq!(alice_client.get_members().len(), 1);

    // Bob joins from the invitation; he is absent everywhere until his
    // cross-sign evolvement is applied.
    let mut bob_client = EidDummyClient::create_from_invitation(add_bob_in.clone(), (), backend)
        .expect("Error joining EID from Invitation");
    assert_eq!(bob_client.get_members().len(), 1);
    assert!(!bob_client.get_members().contains(&bob));

    let bob_cross_sign_in = cross_sign(&mut bob_client, &mut transcript, backend);
    alice_client
        .evolve(bob_cross_sign_in.clone(), backend)
        .expect("Alice could not apply cross sign evolvement");

    assert_eq!(alice_client.get_members().len(), 2);
    assert_eq!(bob_client.get_members().len(), 2);
    assert_eq!(transcript.get_members(), alice_client.get_members());

    // Alice updates twice; her identity stays, her key changes each time.
    let alice_before = alice_client
        .get_members()
        .into_iter()
        .find(|m| !m.get_pk().is_empty() && m != &bob)
        .expect("Alice not found");
    let update_1_out = alice_client.update(backend).expect("Alice could not update");
    let update_1_in = transfer_evolvement(&update_1_out);
    for party in [&mut *alice_client, &mut bob_client] {
        party
            .evolve(update_1_in.clone(), backend)
            .expect("Could not apply alice_update_evolvement");
    }
    transcript
        .evolve(update_1_in.clone(), backend)
        .expect("Failed to evolve transcript");

    let update_2_out = alice_client.update(backend).expect("Alice could not update");
    let update_2_in = transfer_evolvement(&update_2_out);
    assert!(update_2_in.is_valid_successor(&update_1_in));
    for party in [&mut *alice_client, &mut bob_client] {
        party
            .evolve(update_2_in.clone(), backend)
            .expect("Could not apply alice_update_evolvement");
    }
    transcript
        .evolve(update_2_in.clone(), backend)
        .expect("Failed to evolve transcript");

    assert_eq!(alice_client.get_members().len(), 2);
    let alice_after = alice_client
        .get_members()
        .into_iter()
        .find(|m| m == &alice_before)
        .expect("Alice not found");
    assert_ne!(alice_after.get_pk(), alice_before.get_pk());
    assert_eq!(transcript.get_members(), alice_client.get_members());

    // Bob removes Alice everywhere.
    let remove_alice_out = bob_client
        .remove(&alice_after, backend)
        .expect("Could not remove Alice");
    let remove_alice_in = transfer_evolvement(&remove_alice_out);
    for party in [&mut *alice_client, &mut bob_client] {
        party
            .evolve(remove_alice_in.clone(), backend)
            .expect("Could not apply remove evolvement");
    }
    transcript
        .evolve(remove_alice_in.clone(), backend)
        .expect("Failed to evolve transcript");

    assert_eq!(bob_client.get_members().len(), 1);
    assert!(bob_client.get_members().contains(&bob));
    assert_eq!(transcript.get_members(), bob_client.get_members());

    // Removing Alice a second time fails and changes nothing.
    let error = bob_client
        .remove(&alice_after, backend)
        .expect_err("Removing non-existent member");
    assert!(matches!(error, EidError::InvalidMemberError(..)));
    assert_eq!(bob_client.get_members().len(), 1);
}

#[test]
fn dummy_invalid_invitation() {
    let backend = &EidDummyBackend::default();
    let evolvement = EidDummyEvolvement::Update {
        count: 1,
        members: vec![],
    };
    let error = EidDummyClient::create_from_invitation(evolvement, (), backend)
        .expect_err("Joining from a non-Add evolvement");
    assert!(matches!(error, EidError::InvalidInvitationError(..)));
}

#[test]
fn dummy_evolvement_round_trip() {
    let member = EidDummyMember::new(vec![1, 2, 3]);
    let evolvement = EidDummyEvolvement::Add {
        count: 7,
        members: vec![member],
        invited_id: vec![1, 2, 3],
    };
    let bytes = evolvement
        .tls_serialize_detached()
        .expect("Failed to serialize");
    let back = EidDummyEvolvement::tls_deserialize_detached(bytes.as_slice())
        .expect("Failed to deserialize");
    match back {
        EidDummyEvolvement::Add {
            count,
            members,
            invited_id,
        } => {
            assert_eq!(count, 7);
            assert_eq!(members.len(), 1);
            assert_eq!(invited_id, vec![1, 2, 3]);
        }
        _ => panic!("Wrong variant after round trip"),
    }
}

#[test]
fn dummy_evolvement_rejects_garbage() {
    let error = EidDummyEvolvement::tls_deserialize_detached(&[9, 9, 9])
        .expect_err("Deserializing garbage");
    assert!(matches!(error, EidError::DeserializationError(..)));

    // A valid encoding with a trailing byte is rejected too.
    let evolvement = EidDummyEvolvement::Remove {
        count: 1,
        members: vec![],
    };
    let mut bytes = evolvement
        .tls_serialize_detached()
        .expect("Failed to serialize");
    bytes.push(0);
    let error = EidDummyEvolvement::tls_deserialize_detached(bytes.as_slice())
        .expect_err("Deserializing with trailing bytes");
    assert!(matches!(error, EidError::DeserializationError(..)));
}

#[test]
fn dummy_exported_state_round_trip() {
    let backend = &EidDummyBackend::default();
    let client = EidDummyClient::generate_initial_client("test_id".into(), backend)
        .expect("Could not create EID");
    let exported = client
        .export_transcript_state(backend)
        .expect("failed to export transcript state");
    let bytes = exported
        .tls_serialize_detached()
        .expect("Failed to serialize");
    let back =
        EidDummyState::tls_deserialize_detached(bytes.as_slice()).expect("Failed to deserialize");
    assert_eq!(back.get_members().len(), 1);
}

#[test]
fn dummy_update_without_membership() {
    let backend = &EidDummyBackend::default();
    let client = &mut EidDummyClient::generate_initial_client("alice".into(), backend)
        .expect("Could not create EID");
    let mut transcript = build_transcript(client, backend);
    cross_sign(client, &mut transcript, backend);

    let (bob, _) =
        EidDummyClient::generate_member("bob".into(), backend).expect("Failed to generate member");
    add_and_cross_sign(client, &mut transcript, bob.clone(), backend);

    // Bob removes himself; his own update then fails.
    let bob_in_list = client
        .get_members()
        .into_iter()
        .find(|m| m == &bob)
        .expect("Bob not found");
    let remove_out = client
        .remove(&bob_in_list, backend)
        .expect("failed to remove member");
    let remove_in = transfer_evolvement(&remove_out);
    client
        .evolve(remove_in.clone(), backend)
        .expect("Failed to evolve");

    let mut bob_client = EidDummyClient::create_from_invitation(
        EidDummyEvolvement::Add {
            count: 99,
            members: vec![],
            invited_id: "bob".into(),
        },
        (),
        backend,
    )
    .expect("failed to create client from invitation");
    let error = bob_client
        .update(backend)
        .expect_err("Updating without own membership");
    assert!(matches!(error, EidError::InvalidMemberError(..)));
}

#[test]
fn dummy_keystore_roundtrip() {
    let mut store = EidDummyKeystore::default();
    let key_pair = KeyPair {
        sk: vec![1, 2],
        pk: vec![3, 4, 5],
    };
    let value = key_pair.to_key_store_value().expect("serialize key pair");
    store.store(&vec![9u8], &value).expect("store");
    let read = store.read(&vec![9u8]).expect("read back");
    let back = KeyPair::from_key_store_value(read.as_slice()).expect("deserialize key pair");
    assert_eq!(back.sk, vec![1, 2]);
    assert_eq!(back.pk, vec![3, 4, 5]);

    // A second store shadows the first; delete drops the key.
    let other = KeyPair {
        sk: vec![7],
        pk: vec![8],
    }
    .to_key_store_value()
    .expect("serialize key pair");
    store.store(&vec![9u8], &other).expect("store");
    assert_eq!(store.read(&vec![9u8]), Some(other));
    store.delete(&vec![9u8]).expect("delete");
    assert_eq!(store.read(&vec![9u8]), None);
}

#[test]
fn dummy_error_messages() {
    let error = EidError::AddMemberError("Member already in EID".to_owned());
    assert_eq!(error.message(), "Member already in EID");
    let store_error = eid::dummy::keystore::Error::DeserializationError;
    assert_eq!(store_error.message(), "Error deserializing value.");
}

#[test]
fn dummy_member_identity_equality() {
    let alice = EidDummyMember::new(vec![1]);
    let alice_again = EidDummyMember::new(vec![1]);
    let bob = EidDummyMember::new(vec![2]);
    // Equality is identity-based: same identity, equal members.
    assert_eq!(alice, alice_again);
    assert_ne!(alice, bob);
    // A fresh member's key starts as its credential.
    assert_eq!(alice.get_pk(), vec![1]);
}

#[test]
fn dummy_verify_member() {
    let backend = &EidDummyBackend::default();
    let client = &mut EidDummyClient::generate_initial_client("alice".into(), backend)
        .expect("Could not create EID");
    let exported = client
        .export_transcript_state(backend)
        .expect("failed to export transcript state");
    let own = exported.get_members().remove(0);
    assert!(exported.verify_member(&own));
    let (stranger, _) =
        EidDummyClient::generate_member("bob".into(), backend).expect("Failed to generate member");
    assert!(!exported.verify_member(&stranger));
}

#[test]
fn dummy_keypair_rejects_garbage() {
    let error = KeyPair::from_key_store_value(&[1, 2, 3]).expect_err("Deserializing garbage");
    assert!(matches!(
        error,
        eid::dummy::keystore::Error::DeserializationError
    ));
}

#[test]
fn dummy_evolvement_round_trip_large_count() {
    let evolvement = EidDummyEvolvement::Update {
        count: u64::MAX,
        members: vec![],
    };
    let bytes = evolvement
        .tls_serialize_detached()
        .expect("Failed to serialize");
    let back = EidDummyEvolvement::tls_deserialize_detached(bytes.as_slice())
        .expect("Failed to deserialize");
    match back {
        EidDummyEvolvement::Update { count, members } => {
            assert_eq!(count, u64::MAX);
            assert!(members.is_empty());
        }
        _ => panic!("Wrong variant after round trip"),
    }
}

#[test]
fn dummy_batch_evolve() {
    let backend = &EidDummyBackend::default();
    let client = &mut EidDummyClient::generate_initial_client("alice".into(), backend)
        .expect("Could not create EID");
    let trusted = client
        .export_transcript_state(backend)
        .expect("failed to export transcript state");

    // Two evolvements authored from the same state claim the same history
    // position: a batch applies the first and rejects the second, keeping the
    // prefix applied.
    let first = client
        .cross_sign_membership(backend)
        .expect("Cross signing failed");
    let second = client.update(backend).expect("Updating client keys failed");
    let error = client
        .batch_evolve(vec![first.clone(), second], backend)
        .expect_err("Batch with a conflicting entry");
    assert!(matches!(error, EidError::InvalidEvolvementError(..)));
    assert_eq!(client.get_members().len(), 1);

    // A transcript catches up over the applied prefix in one batch.
    let mut transcript = EidDummyTranscript::new(trusted, vec![], backend)
        .expect("Failed to create transcript");
    transcript
        .batch_evolve(vec![first], backend)
        .expect("Failed to catch up");
    assert_eq!(transcript.get_members(), client.get_members());
}

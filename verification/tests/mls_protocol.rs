//! The protocol exercised end to end on the real group key-agreement engine.

use eid::mls::backend::EidMlsBackend;
use eid::mls::client::EidMlsClient;
use eid::mls::evolvement::EidMlsEvolvement;
use eid::mls::transcript::EidMlsTranscript;
use eid::mls::transcript_state::EidMlsExportedTranscriptState;
use eid::traits::client::EidClient;
use eid::traits::member::Member;
use eid::traits::transcript::{EidExportedTranscriptState, EidTranscript};
use eid::traits::types::EidError;

/// Simulate a transfer over the wire: serialize, then deserialize.
fn transfer_evolvement(evolvement: &EidMlsEvolvement) -> EidMlsEvolvement {
    eid::test_helpers::simulate_transfer(evolvement).expect("Failed to transfer")
}

/// Create a transcript trusting the client's exported state.
fn build_transcript(client: &EidMlsClient, backend: &EidMlsBackend) -> EidMlsTranscript {
    eid::test_helpers::build_transcript(client, backend).expect("Failed to create transcript")
}

/// This test simulates various group operations like Add, Update, Remove in a
/// small group
///  - Alice creates a group
///  - Alice adds Bob
///  - Alice updates key material
///  - Bob removes Alice
#[test]
fn book_operations() {
    let backend = &EidMlsBackend::default();
    let (alice, alice_signature_keys) =
        EidMlsClient::generate_member("Alice".into(), backend).expect("Failed to create member");
    let (bob, bob_signature_keys) =
        EidMlsClient::generate_member("Bob".into(), backend).expect("Failed to create member");

    let mut alice_client = EidMlsClient::create_eid(&alice, alice_signature_keys, backend)
        .expect("Could not create EID");

    let exported_state = alice_client
        .export_transcript_state(backend)
        .expect("Failed to export state");

    // exported state is sent over the wire
    let bytes = exported_state
        .tls_serialize_detached()
        .expect("Failed to serialize");
    let imported_state = EidMlsExportedTranscriptState::tls_deserialize_detached(bytes.as_slice())
        .expect("Failed to deserialize");

    // validate the state and create a trusted state from it
    let trusted_state = imported_state
        .into_transcript_state(backend)
        .expect("failed to create trusted state");
    let mut transcript =
        EidMlsTranscript::new(trusted_state, vec![], backend).expect("Failed to create transcript");

    assert_eq!(transcript.get_members().len(), 0);
    assert_eq!(alice_client.get_members().len(), 0);

    // === Alice cross-signs, then adds Bob ===
    let alice_cross_sign_evolvement_out = alice_client
        .cross_sign_membership(backend)
        .expect("Cross signing failed");
    let alice_cross_sign_evolvement_in = transfer_evolvement(&alice_cross_sign_evolvement_out);

    transcript
        .evolve(alice_cross_sign_evolvement_in.clone(), backend)
        .expect("Failed to evolve transcript");
    alice_client
        .evolve(alice_cross_sign_evolvement_in, backend)
        .expect("Failed to apply state");
    assert_eq!(transcript.get_members().len(), 1);
    assert_eq!(alice_client.get_members().len(), 1);

    let add_bob_evolvement_out = alice_client
        .add(&bob, backend)
        .expect("Could not add member.");
    let add_bob_evolvement_in = transfer_evolvement(&add_bob_evolvement_out);
    transcript
        .evolve(add_bob_evolvement_in.clone(), backend)
        .expect("Failed to evolve transcript");
    alice_client
        .evolve(add_bob_evolvement_in.clone(), backend)
        .expect("Alice could not apply add_bob_evolvement");

    let mut bob_client =
        EidMlsClient::create_from_invitation(add_bob_evolvement_in, bob_signature_keys, backend)
            .expect("Error joining EID from Invitation");

    // Bob hasn't cross signed yet, member list is unchanged
    assert_eq!(transcript.get_members().len(), 1);
    assert_eq!(alice_client.get_members().len(), 1);
    assert_eq!(bob_client.get_members().len(), 1);

    let add_cross_sign_evolvement_bob_out = bob_client
        .cross_sign_membership(backend)
        .expect("Cross signing failed");
    let add_cross_sign_evolvement_bob_in = transfer_evolvement(&add_cross_sign_evolvement_bob_out);
    transcript
        .evolve(add_cross_sign_evolvement_bob_in.clone(), backend)
        .expect("Failed to evolve transcript");
    alice_client
        .evolve(add_cross_sign_evolvement_bob_in.clone(), backend)
        .expect("Alice could not apply add_charlie_evolvement");
    bob_client
        .evolve(add_cross_sign_evolvement_bob_in, backend)
        .expect("Bob could not apply add_charlie_evolvement");

    // After cross sign, Bob is part of the EID
    assert_eq!(transcript.get_members().len(), 2);
    assert_eq!(alice_client.get_members().len(), 2);
    assert_eq!(bob_client.get_members().len(), 2);

    // === Alice updates ===
    let alice_update_evolvement_out = alice_client.update(backend).expect("Alice could not update");
    let alice_update_evolvement_in = transfer_evolvement(&alice_update_evolvement_out);
    transcript
        .evolve(alice_update_evolvement_in.clone(), backend)
        .expect("Failed to evolve transcript");
    alice_client
        .evolve(alice_update_evolvement_in.clone(), backend)
        .expect("Alice could not apply alice_update_evolvement");
    bob_client
        .evolve(alice_update_evolvement_in, backend)
        .expect("Charlie could not apply alice_update_evolvement");
    assert_eq!(transcript.get_members().len(), 2);
    assert_eq!(alice_client.get_members().len(), 2);
    assert_eq!(bob_client.get_members().len(), 2);

    // === Bob removes Alice ===
    // Bob finds alice in his member list
    let alice = bob_client
        .get_members()
        .into_iter()
        .find(|member| member.clone() == alice)
        .expect("Bob not found");

    let remove_alice_evolvement_out = bob_client
        .remove(&alice, backend)
        .expect("Could not remove Bob from Charlie's EID");
    let remove_alice_evolvement_in = transfer_evolvement(&remove_alice_evolvement_out);

    transcript
        .evolve(remove_alice_evolvement_in.clone(), backend)
        .expect("Alice could not apply remove_bob_evolvement");
    bob_client
        .evolve(remove_alice_evolvement_in, backend)
        .expect("Alice could not apply remove_bob_evolvement");

    assert_eq!(transcript.get_members().len(), 1);
    assert_eq!(bob_client.get_members().len(), 1);
}

#[test]
fn add_mls() {
    let backend = &EidMlsBackend::default();
    let client = &mut EidMlsClient::generate_initial_client("test_id".into(), backend)
        .expect("Could not create EID");
    let mut transcript = build_transcript(client, backend);

    assert_eq!(0, client.get_members().len());

    let cross_sign_out = client
        .cross_sign_membership(backend)
        .expect("Cross signing failed");
    let cross_sign_in = transfer_evolvement(&cross_sign_out);
    transcript
        .evolve(cross_sign_in.clone(), backend)
        .expect("Failed to evolve transcript");
    client
        .evolve(cross_sign_in.clone(), backend)
        .expect("Failed to apply state");
    assert_eq!(1, client.get_members().len());

    // Create Alice as a member
    let (alice, alice_kp) =
        EidMlsClient::generate_member("alice".into(), backend).expect("Failed to create member");
    let add_alice_out = client.add(&alice, backend).expect("failed to add member");
    let add_alice_in = transfer_evolvement(&add_alice_out);
    transcript
        .evolve(add_alice_in.clone(), backend)
        .expect("Failed to evolve transcript");
    client
        .evolve(add_alice_in.clone(), backend)
        .expect("Failed to evolve");

    let mut alice_client = EidMlsClient::create_from_invitation(add_alice_in.clone(), alice_kp, backend)
        .expect("failed to create client from invitation");
    let alice_cross_sign_in = {
        let out = alice_client
            .cross_sign_membership(backend)
            .expect("Cross signing failed");
        transfer_evolvement(&out)
    };
    transcript
        .evolve(alice_cross_sign_in.clone(), backend)
        .expect("Failed to evolve transcript");
    alice_client
        .evolve(alice_cross_sign_in.clone(), backend)
        .expect("Failed to apply state");
    client
        .evolve(alice_cross_sign_in.clone(), backend)
        .expect("Failed to evolve");

    assert_eq!(client.get_members().len(), 2);

    // Evolving with the same evolvement twice fails
    let error = client
        .evolve(add_alice_in.clone(), backend)
        .expect_err("Evolving with same evolvement twice");
    assert!(matches!(error, EidError::InvalidEvolvementError(..)));

    let error = transcript
        .evolve(add_alice_in.clone(), backend)
        .expect_err("Evolving with same evolvement twice");
    assert!(matches!(error, EidError::InvalidEvolvementError(..)));

    let members = client.get_members();
    assert!(members.contains(&alice));
    assert_eq!(2, members.len());
    assert_eq!(transcript.get_members(), members);
}

#[test]
fn remove_mls() {
    let backend = &EidMlsBackend::default();
    let client = &mut EidMlsClient::generate_initial_client("test_id".into(), backend)
        .expect("Could not create EID");
    let mut transcript = build_transcript(client, backend);

    let cross_sign_out = client
        .cross_sign_membership(backend)
        .expect("Cross signing failed");
    let cross_sign_in = transfer_evolvement(&cross_sign_out);
    transcript
        .evolve(cross_sign_in.clone(), backend)
        .expect("Failed to evolve transcript");
    client
        .evolve(cross_sign_in, backend)
        .expect("Failed to apply state");

    let (alice, alice_kp) =
        EidMlsClient::generate_member("alice".into(), backend).expect("Failed to create member");
    let add_alice_out = client.add(&alice, backend).expect("failed to add member");
    let add_alice_in = transfer_evolvement(&add_alice_out);
    transcript
        .evolve(add_alice_in.clone(), backend)
        .expect("Failed to evolve transcript");
    client
        .evolve(add_alice_in.clone(), backend)
        .expect("Failed to evolve");
    let mut alice_client =
        EidMlsClient::create_from_invitation(add_alice_in, alice_kp, backend)
            .expect("failed to create client from invitation");
    let alice_cross_sign_in = {
        let out = alice_client
            .cross_sign_membership(backend)
            .expect("Cross signing failed");
        transfer_evolvement(&out)
    };
    transcript
        .evolve(alice_cross_sign_in.clone(), backend)
        .expect("Failed to evolve transcript");
    alice_client
        .evolve(alice_cross_sign_in.clone(), backend)
        .expect("Failed to apply state");
    client
        .evolve(alice_cross_sign_in, backend)
        .expect("Failed to evolve");

    assert_eq!(transcript.get_members(), client.get_members());

    let alice_after_insert = client
        .get_members()
        .into_iter()
        .find(|member| member.clone() == alice)
        .expect("Alice not found");

    let remove_out = client
        .remove(&alice_after_insert, backend)
        .expect("failed to remove member");
    let remove_in = transfer_evolvement(&remove_out);
    client
        .evolve(remove_in.clone(), backend)
        .expect("Failed to apply remove on client state");
    transcript
        .evolve(remove_in.clone(), backend)
        .expect("Failed to evolve transcript");

    assert_eq!(transcript.get_members(), client.get_members());

    // Removing a member that was never part of the group fails
    let (ghost, _ghost_kp) =
        EidMlsClient::generate_member("ghost".into(), backend).expect("Failed to create member");
    let error = match client.remove(&ghost, backend) {
        Ok(_) => panic!("Removing non-existent member succeeded"),
        Err(e) => e,
    };
    assert!(matches!(error, EidError::InvalidMemberError(..)));

    let members = client.get_members();
    assert!(!members.contains(&alice));
    assert_eq!(1, members.len());
}

#[test]
fn update_mls() {
    let backend = &EidMlsBackend::default();
    let client = &mut EidMlsClient::generate_initial_client("test_id".into(), backend)
        .expect("Could not create EID");
    let mut transcript = build_transcript(client, backend);

    let cross_sign_out = client
        .cross_sign_membership(backend)
        .expect("Cross signing failed");
    let cross_sign_in = transfer_evolvement(&cross_sign_out);
    transcript
        .evolve(cross_sign_in.clone(), backend)
        .expect("Failed to evolve transcript");
    client
        .evolve(cross_sign_in, backend)
        .expect("Failed to apply state");

    let members_before = client.get_members();
    let own_before_update_1 = &members_before[0];

    let update_1_out = client.update(backend).expect("Updating client keys failed");
    let update_1_in = transfer_evolvement(&update_1_out);
    client
        .evolve(update_1_in.clone(), backend)
        .expect("Failed to apply update on client state");
    transcript
        .evolve(update_1_in.clone(), backend)
        .expect("Failed to evolve transcript");

    assert_eq!(transcript.get_members(), client.get_members());

    let members_after_update_1 = client.get_members();
    let own_after_update = members_after_update_1[0].clone();
    assert!(members_after_update_1.contains(own_before_update_1));
    assert_ne!(own_after_update.get_pk(), own_before_update_1.get_pk());
    assert_eq!(1, members_after_update_1.len());

    // Update a second time
    let own_before_update_2 = &members_after_update_1[0];
    let update_2_out = client.update(backend).expect("Updating client keys failed");
    let update_2_in = transfer_evolvement(&update_2_out);
    client
        .evolve(update_2_in.clone(), backend)
        .expect("Failed to apply update on client state");
    transcript
        .evolve(update_2_in.clone(), backend)
        .expect("Failed to add evolvement");
    assert_eq!(transcript.get_members(), client.get_members());

    let members_after_update_2 = client.get_members();
    let own_after_update_2 = members_after_update_2[0].clone();
    assert!(members_after_update_2.contains(own_before_update_2));
    assert_ne!(own_before_update_2.get_pk(), own_after_update_2.get_pk());
    assert_eq!(1, members_after_update_2.len());
}

#[test]
fn mls_invalid_invitation() {
    let backend = &EidMlsBackend::default();
    let client = &mut EidMlsClient::generate_initial_client("test_id".into(), backend)
        .expect("Could not create EID");
    // An update evolvement carries no welcome and cannot be joined from.
    let update_out = client.update(backend).expect("Updating client keys failed");
    let update_in = transfer_evolvement(&update_out);
    let (_member, key_pair) =
        EidMlsClient::generate_member("joiner".into(), backend).expect("Failed to create member");
    let error = match EidMlsClient::create_from_invitation(update_in, key_pair, backend) {
        Ok(_) => panic!("Joining from a non-Add evolvement succeeded"),
        Err(e) => e,
    };
    assert!(matches!(error, EidError::InvalidInvitationError(..)));
}

#[test]
fn mls_add_without_key_package() {
    let backend = &EidMlsBackend::default();
    let client = &mut EidMlsClient::generate_initial_client("test_id".into(), backend)
        .expect("Could not create EID");
    // A member read back from the group listing has no key package.
    let cross_sign_out = client
        .cross_sign_membership(backend)
        .expect("Cross signing failed");
    let cross_sign_in = transfer_evolvement(&cross_sign_out);
    client
        .evolve(cross_sign_in, backend)
        .expect("Failed to apply state");
    let own = client.get_members().remove(0);
    let error = match client.add(&own, backend) {
        Ok(_) => panic!("Adding without a key package succeeded"),
        Err(e) => e,
    };
    assert!(matches!(error, EidError::AddMemberError(..)));
}

#[test]
fn mls_member_identity_equality() {
    let backend = &EidMlsBackend::default();
    let (alice, _) =
        EidMlsClient::generate_member("Alice".into(), backend).expect("Failed to create member");
    let (bob, _) =
        EidMlsClient::generate_member("Bob".into(), backend).expect("Failed to create member");
    assert_ne!(alice, bob);
    assert_eq!(alice, alice.clone());
}

/// The original small-group chain: Alice creates and adds Bob; Bob — freshly
/// joined — adds Charlie; Charlie removes Bob; Alice updates. Authoring a
/// commit is itself self-attestation, so Bob is visible to Charlie without a
/// separate cross-sign.
#[test]
fn three_client_chain() {
    let backend = &EidMlsBackend::default();
    let (alice, alice_signature_keys) =
        EidMlsClient::generate_member("Alice".into(), backend).expect("Failed to create member");
    let (bob, bob_signature_keys) =
        EidMlsClient::generate_member("Bob".into(), backend).expect("Failed to create member");
    let (charlie, charlie_signature_keys) =
        EidMlsClient::generate_member("Charlie".into(), backend).expect("Failed to create member");

    let mut alice_eid = EidMlsClient::create_eid(&alice, alice_signature_keys, backend)
        .expect("Could not create EID");

    // === Alice adds Bob ===
    let add_bob_evolvement = alice_eid.add(&bob, backend).expect("Could not add member.");
    let add_bob_evolvement: EidMlsEvolvement = transfer_evolvement(&add_bob_evolvement);
    alice_eid
        .evolve(add_bob_evolvement.clone(), backend)
        .expect("Alice could not apply add_bob_evolvement");

    let mut bob_eid =
        EidMlsClient::create_from_invitation(add_bob_evolvement, bob_signature_keys, backend)
            .expect("Error joining EID from Invitation");

    // === Bob adds Charlie ===
    let add_charlie_evolvement = bob_eid.add(&charlie, backend).expect("Could not add member.");
    let add_charlie_evolvement_in: EidMlsEvolvement = transfer_evolvement(&add_charlie_evolvement);

    alice_eid
        .evolve(add_charlie_evolvement_in.clone(), backend)
        .expect("Alice could not apply add_charlie_evolvement");
    bob_eid
        .evolve(add_charlie_evolvement_in.clone(), backend)
        .expect("Bob could not apply add_charlie_evolvement");

    let mut charlie_eid = EidMlsClient::create_from_invitation(
        add_charlie_evolvement_in,
        charlie_signature_keys,
        backend,
    )
    .expect("Error creating group from Welcome");

    // Bob committed when adding Charlie, so Charlie lists him.
    let bob = charlie_eid
        .get_members()
        .into_iter()
        .find(|member| member.clone() == bob)
        .expect("Bob not found");

    // === Charlie removes Bob ===
    let remove_bob_evolvement = charlie_eid
        .remove(&bob, backend)
        .expect("Could not remove Bob from Charlie's EID");
    let remove_bob_evolvement: EidMlsEvolvement = transfer_evolvement(&remove_bob_evolvement);

    alice_eid
        .evolve(remove_bob_evolvement.clone(), backend)
        .expect("Alice could not apply remove_bob_evolvement");
    bob_eid
        .evolve(remove_bob_evolvement.clone(), backend)
        .expect("Bob could not apply remove_bob_evolvement");
    charlie_eid
        .evolve(remove_bob_evolvement, backend)
        .expect("Charlie could not apply remove_bob_evolvement");

    // === Alice updates ===
    let alice_update_evolvement = alice_eid.update(backend).expect("Alice could not update");
    let alice_update_evolvement: EidMlsEvolvement = transfer_evolvement(&alice_update_evolvement);
    alice_eid
        .evolve(alice_update_evolvement.clone(), backend)
        .expect("Alice could not apply alice_update_evolvement");
    charlie_eid
        .evolve(alice_update_evolvement, backend)
        .expect("Charlie could not apply alice_update_evolvement");
}

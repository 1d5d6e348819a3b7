use folkers_core::records::PersonRecord;
use folkers_core::signing::{
    generate_keypair_for, generate_signing_keypair, may_unsign, reset_keypair_for,
    sign_record, sign_record_checked, verify_record, AttestationConflict, RecordSignature,
    ResetOutcome, SignRejection, SignatureInputError,
};

fn sample_record() -> PersonRecord {
    PersonRecord {
        id: String::from("rec_1"),
        name: String::from("Anna"),
        surname: String::from("Keller"),
        patronymic: String::from("Maria"),
        birthday: String::from("1984-03-11T00:00:00Z"),
        city: String::from("Leipzig"),
        intented_address: String::from("Hauptstrasse 5"),
        summary: String::from("quiet, methodical"),
        past: String::from("archivist"),
        traits_good: String::from("careful"),
        traits_bad: String::from("secretive"),
        avatar: Some(String::from("@/media/abc123.png")),
        media: vec![String::from("@/media/abc123.png"), String::from("@/media/def456.jpg")],
        author: String::from("admin1"),
    }
}

#[test]
fn signature_verifies_against_unchanged_record() {
    let (private_key, public_key) = generate_signing_keypair();
    let record = sample_record();
    let signature = sign_record(&record, &private_key).expect("signing");
    assert_eq!(signature.record_id, "rec_1");
    assert_eq!(signature.pubkey, public_key);
    assert_eq!(verify_record(&record, &signature).expect("verification"), true);
}

#[test]
fn any_field_edit_invalidates_the_signature() {
    let (private_key, _) = generate_signing_keypair();
    let record = sample_record();
    let signature = sign_record(&record, &private_key).expect("signing");

    let mut edited = record.clone();
    edited.city = String::from("Dresden");
    assert_eq!(verify_record(&edited, &signature).expect("verification"), false);

    let mut edited = record.clone();
    edited.avatar = None;
    assert_eq!(verify_record(&edited, &signature).expect("verification"), false);

    let mut edited = record.clone();
    edited.media.pop();
    assert_eq!(verify_record(&edited, &signature).expect("verification"), false);

    let mut edited = record.clone();
    edited.summary.push('!');
    assert_eq!(verify_record(&edited, &signature).expect("verification"), false);
}

#[test]
fn wrong_key_fails_verification() {
    let (private_key, _) = generate_signing_keypair();
    let (_, other_public) = generate_signing_keypair();
    let record = sample_record();
    let mut signature = sign_record(&record, &private_key).expect("signing");
    signature.pubkey = other_public;
    assert_eq!(verify_record(&record, &signature).expect("verification"), false);
}

#[test]
fn malformed_keys_are_input_errors() {
    let record = sample_record();
    assert_eq!(
        sign_record(&record, "&&& not base64 &&&").unwrap_err(),
        SignatureInputError::MalformedBase64
    );
    let short_key = "AAAA";
    assert_eq!(
        sign_record(&record, short_key).unwrap_err(),
        SignatureInputError::WrongLength
    );
}

#[test]
fn malformed_signatures_are_input_errors() {
    let (private_key, public_key) = generate_signing_keypair();
    let record = sample_record();
    let good = sign_record(&record, &private_key).expect("signing");

    let bad = RecordSignature {
        record_id: good.record_id.clone(),
        base64: String::from("*** garbage ***"),
        pubkey: public_key.clone(),
    };
    assert_eq!(
        verify_record(&record, &bad).unwrap_err(),
        SignatureInputError::MalformedBase64
    );

    let bad = RecordSignature {
        record_id: good.record_id.clone(),
        base64: String::from("AAAA"),
        pubkey: public_key.clone(),
    };
    assert_eq!(
        verify_record(&record, &bad).unwrap_err(),
        SignatureInputError::WrongLength
    );

    let bad = RecordSignature {
        record_id: good.record_id.clone(),
        base64: good.base64.clone(),
        pubkey: String::from("AAAA"),
    };
    assert_eq!(
        verify_record(&record, &bad).unwrap_err(),
        SignatureInputError::WrongLength
    );
}

#[test]
fn unparsable_public_key_is_an_input_error() {
    let (private_key, _) = generate_signing_keypair();
    let record = sample_record();
    let good = sign_record(&record, &private_key).expect("signing");
    // Thirty-two bytes that do not decode to a curve point: the field
    // element two has no matching x coordinate on the curve.
    let mut junk = [0u8; 32];
    junk[0] = 2;
    let junk_key = base64::Engine::encode(&base64::engine::general_purpose::STANDARD, junk);
    let bad = RecordSignature {
        record_id: good.record_id.clone(),
        base64: good.base64.clone(),
        pubkey: junk_key,
    };
    assert_eq!(
        verify_record(&record, &bad).unwrap_err(),
        SignatureInputError::InvalidPublicKey
    );
}

#[test]
fn second_keypair_for_same_principal_conflicts() {
    let stored = String::from("c29tZSBzdG9yZWQga2V5");
    assert_eq!(
        generate_keypair_for(Some(&stored)).unwrap_err(),
        AttestationConflict::KeyExists
    );
    let fresh = generate_keypair_for(None).expect("no key stored yet");
    assert!(!fresh.0.is_empty());
    assert!(!fresh.1.is_empty());
}

#[test]
fn second_signature_on_same_record_conflicts() {
    let (private_key, _) = generate_signing_keypair();
    let record = sample_record();
    let first = sign_record_checked(&record, None, &private_key).expect("first signing");
    assert_eq!(
        sign_record_checked(&record, Some(&first), &private_key).unwrap_err(),
        SignRejection::Conflict
    );
}

#[test]
fn only_signer_or_static_admin_may_unsign() {
    assert!(may_unsign("admin1", "admin1", "root"));
    assert!(may_unsign("root", "admin1", "root"));
    assert!(!may_unsign("admin2", "admin1", "root"));
    assert!(!may_unsign("", "admin1", "root"));
}

#[test]
fn signing_equal_content_twice_gives_identical_signatures() {
    let (private_key, _) = generate_signing_keypair();
    let record = sample_record();
    let first = sign_record(&record, &private_key).expect("first signing");
    let second = sign_record(&record.clone(), &private_key).expect("second signing");
    assert_eq!(first.record_id, second.record_id);
    assert_eq!(first.base64, second.base64);
    assert_eq!(first.pubkey, second.pubkey);
}

#[test]
fn reset_clears_only_a_stored_key() {
    let stored = String::from("c29tZSBzdG9yZWQga2V5");
    assert_eq!(reset_keypair_for(Some(&stored)), ResetOutcome::Cleared);
    assert_eq!(reset_keypair_for(None), ResetOutcome::NothingStored);
}

use eas::ident::attestation_id;
use eas::rules::{check_nonce, evaluate, plan_attestation, plan_revocation, plan_schema, Issuance};
use eas::table::Table;
use eas::types::bytes32_eq;
use eas::{Attestation, AttesterMode, Error, Event, Invocation, Principal, Schema};

fn who(b: u8) -> Principal {
    Principal::contract([b; 32])
}

fn schema_with(creator: Principal, revocable: bool, expires_allowed: bool, mode: AttesterMode) -> Schema {
    Schema { schema_uri_hash: [7; 32], creator, revocable, expires_allowed, attester_mode: mode }
}

fn record(attester: Principal, expiration: Option<u64>, revoked: bool) -> Attestation {
    Attestation {
        schema_id: [7; 32],
        attester,
        subject: who(3),
        data_hash: [9; 32],
        timestamp: 10,
        expiration,
        revoked,
    }
}

#[test]
fn bytes_compare_by_content() {
    let a = [5u8; 32];
    let mut b = [5u8; 32];
    assert!(bytes32_eq(&a, &b));
    b[31] = 6;
    assert!(!bytes32_eq(&a, &b));
    b[31] = 5;
    b[0] = 4;
    assert!(!bytes32_eq(&a, &b));
}

#[test]
fn mode_codes() {
    assert_eq!(AttesterMode::from_code(0), Some(AttesterMode::Permissionless));
    assert_eq!(AttesterMode::from_code(1), Some(AttesterMode::IssuerOnly));
    assert_eq!(AttesterMode::from_code(2), None);
    assert_eq!(AttesterMode::from_code(u32::MAX), None);
    assert_eq!(AttesterMode::Permissionless.code(), 0);
    assert_eq!(AttesterMode::IssuerOnly.code(), 1);
}

#[test]
fn error_messages() {
    assert_eq!(Error::Unauthorized.message(), "unauthorized");
    assert_eq!(Error::SchemaNotFound.message(), "schema_not_found");
    assert_eq!(Error::AttestationNotFound.message(), "attestation_not_found");
    assert_eq!(Error::SchemaAlreadyExists.message(), "schema_already_exists");
    assert_eq!(Error::InvalidAttesterMode.message(), "invalid_attester_mode");
    assert_eq!(Error::ExpirationNotAllowed.message(), "expiration_not_allowed");
    assert_eq!(Error::IssuerOnly.message(), "issuer_only");
    assert_eq!(Error::NotRevocable.message(), "not_revocable");
    assert_eq!(Error::NotAttester.message(), "not_attester");
    assert_eq!(Error::BadNonce.message(), "bad_nonce");
}

#[test]
fn event_topics() {
    let p = who(1);
    let created = Event::SchemaCreated {
        schema_id: [1; 32],
        creator: p,
        schema_uri_hash: [1; 32],
        revocable: true,
        expires_allowed: true,
        attester_mode: AttesterMode::Permissionless,
        created_time: 1,
    };
    let attested = Event::Attested {
        attestation_id: [2; 32],
        schema_id: [1; 32],
        attester: p,
        subject: p,
        data_hash: [3; 32],
        timestamp: 1,
        expiration: None,
    };
    let revoked = Event::Revoked { attestation_id: [2; 32], revoker: p, revoked_time: 2 };
    assert_eq!(created.topic(), "SchemaCreated");
    assert_eq!(attested.topic(), "Attested");
    assert_eq!(revoked.topic(), "Revoked");
}

#[test]
fn require_auth_names_the_caller() {
    let ctx = Invocation::new(who(1), 5);
    assert_eq!(ctx.caller, who(1));
    assert_eq!(ctx.now, 5);
    assert_eq!(ctx.require_auth(&who(1)), Ok(()));
    assert_eq!(ctx.require_auth(&who(2)), Err(Error::Unauthorized));
    assert_eq!(ctx.require_auth(&Principal::account([1; 32])), Err(Error::Unauthorized));
}

#[test]
fn nonce_must_be_exactly_one_more() {
    assert!(check_nonce(0, 1));
    assert!(!check_nonce(0, 0));
    assert!(!check_nonce(0, 2));
    assert!(check_nonce(41, 42));
    assert!(!check_nonce(41, 41));
    assert!(!check_nonce(41, 43));
    assert!(!check_nonce(41, 0));
    assert!(check_nonce(u64::MAX - 1, u64::MAX));
    // Nothing follows the largest nonce.
    assert!(!check_nonce(u64::MAX, u64::MAX));
    assert!(!check_nonce(u64::MAX, 0));
}

#[test]
fn evaluate_expiration_boundary() {
    let att = record(who(2), Some(20), false);
    let before = evaluate(&att, 19);
    assert!(!before.expired && before.valid && !before.revoked && before.exists);
    let at = evaluate(&att, 20);
    assert!(at.expired && !at.valid && !at.revoked && at.exists);
    let after = evaluate(&att, 21);
    assert!(after.expired && !after.valid);
    let start = evaluate(&att, 0);
    assert!(!start.expired && start.valid);
    let end = evaluate(&att, u64::MAX);
    assert!(end.expired && !end.valid);
}

#[test]
fn evaluate_without_expiration_never_expires() {
    let att = record(who(2), None, false);
    for now in [0u64, 1, 10, u64::MAX] {
        let r = evaluate(&att, now);
        assert!(!r.expired);
        assert!(r.valid);
    }
}

#[test]
fn evaluate_expiration_zero_is_always_expired() {
    let att = record(who(2), Some(0), false);
    assert!(evaluate(&att, 0).expired);
    assert!(evaluate(&att, 1).expired);
}

#[test]
fn evaluate_revoked_is_invalid() {
    let att = record(who(2), Some(20), true);
    let r = evaluate(&att, 5);
    assert!(r.revoked && !r.valid && !r.expired);
    let r = evaluate(&att, 25);
    assert!(r.revoked && !r.valid && r.expired);
}

#[test]
fn evaluate_copies_the_record() {
    let att = record(who(2), Some(20), false);
    let r = evaluate(&att, 5);
    assert_eq!(r.schema_id, att.schema_id);
    assert_eq!(r.attester, att.attester);
    assert_eq!(r.subject, att.subject);
    assert_eq!(r.data_hash, att.data_hash);
    assert_eq!(r.timestamp, 10);
    assert_eq!(r.expiration, Some(20));
}

#[test]
fn plan_schema_outcomes() {
    let creator = who(1);
    assert_eq!(
        plan_schema(false, creator, [7; 32], true, false, 2, 5),
        Err(Error::InvalidAttesterMode)
    );
    assert_eq!(
        plan_schema(true, creator, [7; 32], true, false, 2, 5),
        Err(Error::InvalidAttesterMode)
    );
    assert_eq!(
        plan_schema(true, creator, [7; 32], true, false, 0, 5),
        Err(Error::SchemaAlreadyExists)
    );
    let (schema, event) = plan_schema(false, creator, [7; 32], true, false, 1, 5).unwrap();
    assert_eq!(schema, schema_with(creator, true, false, AttesterMode::IssuerOnly));
    assert_eq!(
        event,
        Event::SchemaCreated {
            schema_id: [7; 32],
            creator,
            schema_uri_hash: [7; 32],
            revocable: true,
            expires_allowed: false,
            attester_mode: AttesterMode::IssuerOnly,
            created_time: 5,
        }
    );
}

#[test]
fn plan_attestation_success() {
    let creator = who(1);
    let attester = who(2);
    let subject = who(3);
    let schema = schema_with(creator, true, true, AttesterMode::Permissionless);
    let got =
        plan_attestation(Some(schema), 4, 9, attester, [7; 32], subject, [9; 32], Some(50), 5, 33)
            .unwrap();
    let attestation = Attestation {
        schema_id: [7; 32],
        attester,
        subject,
        data_hash: [9; 32],
        timestamp: 33,
        expiration: Some(50),
        revoked: false,
    };
    let expected = Issuance {
        nonce: 5,
        counter: 10,
        attestation_id: attestation_id(10),
        attestation,
        event: Event::Attested {
            attestation_id: attestation_id(10),
            schema_id: [7; 32],
            attester,
            subject,
            data_hash: [9; 32],
            timestamp: 33,
            expiration: Some(50),
        },
    };
    assert_eq!(got, expected);
    assert_eq!(got.attestation_id[31], 10);
}

#[test]
fn plan_attestation_errors() {
    let creator = who(1);
    let attester = who(2);
    let closed = schema_with(creator, true, false, AttesterMode::IssuerOnly);
    assert_eq!(
        plan_attestation(None, 0, 0, attester, [7; 32], who(3), [9; 32], None, 1, 1),
        Err(Error::SchemaNotFound)
    );
    assert_eq!(
        plan_attestation(Some(closed), 0, 0, attester, [7; 32], who(3), [9; 32], Some(0), 1, 1),
        Err(Error::ExpirationNotAllowed)
    );
    assert_eq!(
        plan_attestation(Some(closed), 0, 0, attester, [7; 32], who(3), [9; 32], None, 1, 1),
        Err(Error::IssuerOnly)
    );
    assert_eq!(
        plan_attestation(Some(closed), 0, 0, creator, [7; 32], who(3), [9; 32], None, 0, 1),
        Err(Error::BadNonce)
    );
    assert!(plan_attestation(Some(closed), 0, 0, creator, [7; 32], who(3), [9; 32], None, 1, 1)
        .is_ok());
}

#[test]
fn plan_attestation_at_the_largest_nonce() {
    let creator = who(1);
    let schema = schema_with(creator, true, true, AttesterMode::Permissionless);
    for nonce in [0u64, 1, u64::MAX] {
        assert_eq!(
            plan_attestation(
                Some(schema),
                u64::MAX,
                0,
                creator,
                [7; 32],
                who(3),
                [9; 32],
                None,
                nonce,
                1
            ),
            Err(Error::BadNonce)
        );
    }
}

#[test]
fn plan_attestation_at_the_largest_counter() {
    let creator = who(1);
    let schema = schema_with(creator, true, true, AttesterMode::Permissionless);
    let got =
        plan_attestation(Some(schema), 0, u64::MAX, creator, [7; 32], who(3), [9; 32], None, 1, 1)
            .unwrap();
    assert_eq!(got.counter, u64::MAX);
    assert_eq!(got.attestation_id, attestation_id(u64::MAX));
}

#[test]
fn plan_revocation_outcomes() {
    let creator = who(1);
    let attester = who(2);
    let open = schema_with(creator, true, false, AttesterMode::Permissionless);
    let fixed = schema_with(creator, false, false, AttesterMode::Permissionless);
    let att = record(attester, None, false);
    let id = attestation_id(3);

    assert_eq!(
        plan_revocation(None, None, attester, id, 8),
        Err(Error::AttestationNotFound)
    );
    assert_eq!(
        plan_revocation(None, Some(open), attester, id, 8),
        Err(Error::AttestationNotFound)
    );
    assert_eq!(
        plan_revocation(Some(att), Some(open), creator, id, 8),
        Err(Error::NotAttester)
    );
    assert_eq!(
        plan_revocation(Some(att), None, creator, id, 8),
        Err(Error::NotAttester)
    );
    assert_eq!(
        plan_revocation(Some(att), None, attester, id, 8),
        Err(Error::SchemaNotFound)
    );
    assert_eq!(
        plan_revocation(Some(att), Some(fixed), attester, id, 8),
        Err(Error::NotRevocable)
    );
    // A revoked attestation under a schema that allows no revocation is
    // still refused.
    assert_eq!(
        plan_revocation(Some(record(attester, None, true)), Some(fixed), attester, id, 8),
        Err(Error::NotRevocable)
    );
    assert_eq!(
        plan_revocation(Some(record(attester, None, true)), Some(open), attester, id, 8),
        Ok(None)
    );
    assert_eq!(
        plan_revocation(Some(att), Some(open), attester, id, 8),
        Ok(Some((
            Attestation { revoked: true, ..att },
            Event::Revoked { attestation_id: id, revoker: attester, revoked_time: 8 }
        )))
    );
}

#[test]
fn table_holds_one_value_per_key() {
    let mut t: Table<[u8; 32], u64> = Table::new();
    assert!(!t.contains(&[1; 32]));
    assert_eq!(t.get(&[1; 32]), None);
    t.insert([1; 32], 10);
    t.insert([2; 32], 20);
    assert!(t.contains(&[1; 32]));
    assert_eq!(t.get(&[1; 32]), Some(10));
    assert_eq!(t.get(&[2; 32]), Some(20));
    assert_eq!(t.get(&[3; 32]), None);
    t.insert([1; 32], 11);
    assert_eq!(t.get(&[1; 32]), Some(11));
    assert_eq!(t.get(&[2; 32]), Some(20));
}

#[test]
fn table_keys_by_principal() {
    let mut t: Table<Principal, u64> = Table::new();
    t.insert(Principal::contract([1; 32]), 1);
    t.insert(Principal::account([1; 32]), 2);
    assert_eq!(t.get(&Principal::contract([1; 32])), Some(1));
    assert_eq!(t.get(&Principal::account([1; 32])), Some(2));
    assert_eq!(t.get(&Principal::account([2; 32])), None);
}

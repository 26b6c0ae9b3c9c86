use eas::ident::attestation_id;
use eas::{EasContract, Error, Invocation, Principal, MODE_ISSUER_ONLY, MODE_PERMISSIONLESS};

fn who(b: u8) -> Principal {
    Principal::contract([b; 32])
}

fn registry_with_schema(hash: u8, revocable: bool, expires_allowed: bool, mode: u32) -> EasContract {
    let mut client = EasContract::new();
    let creator = who(1);
    client
        .create_schema(
            &Invocation::new(creator, 1),
            creator,
            [hash; 32],
            revocable,
            expires_allowed,
            mode,
        )
        .unwrap();
    client
}

#[test]
fn prop_nonce_monotonic() {
    for n in 1u8..=20u8 {
        let mut client = registry_with_schema(7, true, false, MODE_PERMISSIONLESS);
        let attester = who(2);
        let subject = who(3);
        for i in 1..=n {
            assert_eq!(client.get_nonce(&attester), (i - 1) as u64);
            client
                .attest(
                    &Invocation::new(attester, 1),
                    attester,
                    [7; 32],
                    subject,
                    [i; 32],
                    None,
                    i as u64,
                )
                .unwrap();
        }
        assert_eq!(client.get_nonce(&attester), n as u64);
    }
}

#[test]
fn prop_nonce_independent() {
    for n1 in 1u8..=10u8 {
        for n2 in 1u8..=10u8 {
            let mut client = registry_with_schema(9, true, false, MODE_PERMISSIONLESS);
            let attester1 = who(2);
            let attester2 = who(4);
            let subject = who(3);
            for i in 1..=n1 {
                client
                    .attest(
                        &Invocation::new(attester1, 1),
                        attester1,
                        [9; 32],
                        subject,
                        [i; 32],
                        None,
                        i as u64,
                    )
                    .unwrap();
            }
            for i in 1..=n2 {
                client
                    .attest(
                        &Invocation::new(attester2, 1),
                        attester2,
                        [9; 32],
                        subject,
                        [(100u8).wrapping_add(i); 32],
                        None,
                        i as u64,
                    )
                    .unwrap();
            }
            assert_eq!(client.get_nonce(&attester1), n1 as u64);
            assert_eq!(client.get_nonce(&attester2), n2 as u64);
        }
    }
}

#[test]
fn nonces_are_independent_when_interleaved() {
    let mut client = registry_with_schema(9, true, false, MODE_PERMISSIONLESS);
    let a = who(2);
    let b = who(4);
    let mut next_a = 1u64;
    let mut next_b = 1u64;
    // a a b a b b b a ...
    for step in 0u32..40 {
        let pick_a = (step * 7 + step / 3) % 5 < 2;
        if pick_a {
            client
                .attest(&Invocation::new(a, 1), a, [9; 32], b, [1; 32], None, next_a)
                .unwrap();
            next_a += 1;
        } else {
            client
                .attest(&Invocation::new(b, 1), b, [9; 32], a, [1; 32], None, next_b)
                .unwrap();
            next_b += 1;
        }
        assert_eq!(client.get_nonce(&a), next_a - 1);
        assert_eq!(client.get_nonce(&b), next_b - 1);
    }
    assert_eq!(client.get_nonce(&a) + client.get_nonce(&b), 40);
}

#[test]
fn prop_bad_nonce_does_not_advance() {
    for pre in 0u8..=10u8 {
        let mut client = registry_with_schema(11, true, false, MODE_PERMISSIONLESS);
        let attester = who(2);
        let subject = who(3);
        for i in 1..=pre {
            client
                .attest(
                    &Invocation::new(attester, 1),
                    attester,
                    [11; 32],
                    subject,
                    [i; 32],
                    None,
                    i as u64,
                )
                .unwrap();
        }
        let before = client.get_nonce(&attester);
        let events_before = client.events().len();
        for bad in [before + 2, before, 0, before + 100, u64::MAX] {
            if bad == before + 1 {
                continue;
            }
            assert_eq!(
                client.attest(
                    &Invocation::new(attester, 1),
                    attester,
                    [11; 32],
                    subject,
                    [200; 32],
                    None,
                    bad
                ),
                Err(Error::BadNonce)
            );
            assert_eq!(client.get_nonce(&attester), before);
        }
        assert_eq!(client.events().len(), events_before);
        // The refused attempts used no identifier either.
        let id = client
            .attest(
                &Invocation::new(attester, 1),
                attester,
                [11; 32],
                subject,
                [201; 32],
                None,
                before + 1,
            )
            .unwrap();
        assert_eq!(id, attestation_id(pre as u64 + 1));
    }
}

#[test]
fn prop_issuer_only_enforced() {
    for delta in 0u8..=5u8 {
        let mut client = registry_with_schema(21, true, false, MODE_ISSUER_ONLY);
        let creator = who(1);
        let other = who(2u8.wrapping_add(delta));
        let subject = who(30);
        assert_eq!(
            client.attest(
                &Invocation::new(other, 1),
                other,
                [21; 32],
                subject,
                [22; 32],
                None,
                1u64
            ),
            Err(Error::IssuerOnly)
        );
        // Creator can attest.
        assert!(client
            .attest(&Invocation::new(creator, 1), creator, [21; 32], subject, [23; 32], None, 1u64)
            .is_ok());
        assert!(delta <= 5);
    }
}

#[test]
fn prop_expiration_boundary() {
    for delta in 0u8..=5u8 {
        let mut client = registry_with_schema(31, true, true, MODE_PERMISSIONLESS);
        let attester = who(2);
        let subject = who(3);
        let now = 10u64;
        let exp = now + (delta as u64);
        let att_id = client
            .attest(
                &Invocation::new(attester, now),
                attester,
                [31; 32],
                subject,
                [32; 32],
                Some(exp),
                1u64,
            )
            .unwrap();

        let vr_now = client.verify(&att_id, now).unwrap();
        if delta == 0 {
            assert!(vr_now.expired);
            assert!(!vr_now.valid);
        } else {
            assert!(!vr_now.expired);
            assert!(vr_now.valid);
        }

        // At now == exp, it is expired (>=).
        let vr_exp = client.verify(&att_id, exp).unwrap();
        assert!(vr_exp.expired);
        assert!(!vr_exp.valid);

        if exp > 0 {
            let vr_just_before = client.verify(&att_id, exp - 1).unwrap();
            assert!(!vr_just_before.expired);
            assert!(vr_just_before.valid);
        }
    }
}

#[test]
fn prop_expiration_not_allowed_panics() {
    for exp in 0u64..=100u64 {
        let mut client = registry_with_schema(41, true, false, MODE_PERMISSIONLESS);
        let attester = who(2);
        let subject = who(3);
        assert_eq!(
            client.attest(
                &Invocation::new(attester, 1),
                attester,
                [41; 32],
                subject,
                [42; 32],
                Some(exp),
                1u64
            ),
            Err(Error::ExpirationNotAllowed)
        );
        assert_eq!(client.get_nonce(&attester), 0);
    }
    let mut client = registry_with_schema(41, true, false, MODE_PERMISSIONLESS);
    let attester = who(2);
    assert_eq!(
        client.attest(
            &Invocation::new(attester, 1),
            attester,
            [41; 32],
            attester,
            [42; 32],
            Some(u64::MAX),
            1u64
        ),
        Err(Error::ExpirationNotAllowed)
    );
}

struct ModelAtt {
    attester_idx: usize,
    expiration: Option<u64>,
    revoked: bool,
}

fn run_random_sequence(ops: &[u8]) {
    let mut client = registry_with_schema(70, true, true, MODE_PERMISSIONLESS);
    let attesters = [who(10), who(11), who(12)];
    let subject = who(3);

    let mut ids: Vec<[u8; 32]> = Vec::new();
    let mut model: Vec<ModelAtt> = Vec::new();

    for (step, b) in ops.iter().copied().enumerate() {
        let now = 100u64 + (step as u64);
        let op = b % 3;
        let which = ((b >> 2) % 3) as usize;
        let attester = attesters[which];

        match op {
            0 => {
                let want_bad_nonce = (b & 0x80) != 0;
                let current_nonce = client.get_nonce(&attester);
                let nonce = if want_bad_nonce { current_nonce + 2 } else { current_nonce + 1 };
                let expiration = if (b & 0x20) != 0 { Some(now + ((b as u64) % 6)) } else { None };
                let before = client.get_nonce(&attester);
                let r = client.attest(
                    &Invocation::new(attester, now),
                    attester,
                    [70; 32],
                    subject,
                    [b; 32],
                    expiration,
                    nonce,
                );
                if want_bad_nonce {
                    assert_eq!(r, Err(Error::BadNonce));
                    assert_eq!(client.get_nonce(&attester), before);
                } else {
                    ids.push(r.unwrap());
                    model.push(ModelAtt { attester_idx: which, expiration, revoked: false });
                }
            }
            1 => {
                if ids.is_empty() {
                    continue;
                }
                let idx = (b as usize) % ids.len();
                let id = ids[idx];
                let entry = &mut model[idx];
                let use_wrong_revoker = (b & 0x10) != 0;
                let revoker_idx =
                    if use_wrong_revoker { (entry.attester_idx + 1) % 3 } else { entry.attester_idx };
                let revoker = attesters[revoker_idx];
                let r = client.revoke_by(&Invocation::new(revoker, now), revoker, id);
                if use_wrong_revoker {
                    assert_eq!(r, Err(Error::NotAttester));
                } else {
                    assert_eq!(r, Ok(()));
                    entry.revoked = true;
                }
            }
            _ => {
                if ids.is_empty() {
                    continue;
                }
                let idx = (b as usize) % ids.len();
                let expected = &model[idx];
                let vr = client.verify(&ids[idx], now).unwrap();
                let expired = match expected.expiration {
                    Some(exp) => now >= exp,
                    None => false,
                };
                let valid = !expected.revoked && !expired;
                assert_eq!(vr.expired, expired);
                assert_eq!(vr.revoked, expected.revoked);
                assert_eq!(vr.valid, valid);
            }
        }
    }

    // Identifiers are unique, and in allocation order.
    let mut seen: std::collections::BTreeSet<Vec<u8>> = std::collections::BTreeSet::new();
    for (k, id) in ids.iter().enumerate() {
        assert_eq!(*id, attestation_id(k as u64 + 1));
        seen.insert(id.to_vec());
    }
    assert_eq!(seen.len(), model.len());

    // Each nonce counts that attester's accepted attestations.
    for (i, attester) in attesters.iter().enumerate() {
        let issued = model.iter().filter(|m| m.attester_idx == i).count() as u64;
        assert_eq!(client.get_nonce(attester), issued);
    }
}

#[test]
fn fuzz_like_random_sequence() {
    // A fixed pseudo-random stream of operation bytes.
    let mut state: u64 = 0x9E37_79B9_7F4A_7C15;
    for case in 0..32usize {
        let len = 1 + (case * 5) % 79;
        let mut ops = Vec::with_capacity(len);
        for _ in 0..len {
            state = state.wrapping_mul(6364136223846793005).wrapping_add(1442695040888963407);
            ops.push((state >> 33) as u8);
        }
        run_random_sequence(&ops);
    }
}

#[test]
fn refused_calls_change_nothing() {
    let mut client = registry_with_schema(7, false, false, MODE_ISSUER_ONLY);
    let creator = who(1);
    let other = who(2);
    let id = client
        .attest(&Invocation::new(creator, 2), creator, [7; 32], other, [9; 32], None, 1)
        .unwrap();
    let schema = client.get_schema(&[7; 32]).unwrap();
    let att = client.get_attestation(&id).unwrap();
    let events: Vec<_> = client.events().clone();

    assert!(client
        .create_schema(&Invocation::new(creator, 3), creator, [7; 32], true, true, 0)
        .is_err());
    assert!(client
        .create_schema(&Invocation::new(creator, 3), creator, [8; 32], true, true, 5)
        .is_err());
    assert!(client
        .attest(&Invocation::new(other, 3), other, [7; 32], other, [9; 32], None, 1)
        .is_err());
    assert!(client
        .attest(&Invocation::new(creator, 3), creator, [7; 32], other, [9; 32], Some(9), 2)
        .is_err());
    assert!(client
        .attest(&Invocation::new(creator, 3), creator, [7; 32], other, [9; 32], None, 3)
        .is_err());
    assert!(client.revoke_by(&Invocation::new(creator, 3), creator, id).is_err());
    assert!(client.revoke_by(&Invocation::new(other, 3), other, id).is_err());

    assert_eq!(client.get_schema(&[7; 32]).unwrap(), schema);
    assert_eq!(client.get_schema(&[8; 32]), Err(Error::SchemaNotFound));
    assert_eq!(client.get_attestation(&id).unwrap(), att);
    assert_eq!(client.get_nonce(&creator), 1);
    assert_eq!(client.get_nonce(&other), 0);
    assert_eq!(client.events(), &events);
}

#[test]
fn schemas_never_change() {
    let mut client = registry_with_schema(7, true, true, MODE_PERMISSIONLESS);
    let creator = who(1);
    let schema = client.get_schema(&[7; 32]).unwrap();
    let id = client
        .attest(&Invocation::new(creator, 2), creator, [7; 32], creator, [9; 32], Some(4), 1)
        .unwrap();
    client.revoke_by(&Invocation::new(creator, 3), creator, id).unwrap();
    client
        .create_schema(&Invocation::new(creator, 3), creator, [8; 32], false, false, 1)
        .unwrap();
    assert_eq!(client.get_schema(&[7; 32]).unwrap(), schema);
}

//! What holds of the registry across calls.
//!
//! Each law is stated over [`State`], the value that the contracts of
//! [`crate::contract::EasContract`] speak of, so it holds of every run of
//! the registry.

use vstd::prelude::*;
use crate::ident::{id_bytes, lemma_id_bytes_injective};
use crate::rules::{evaluation, revoked_attestation};
use crate::state::{Call, State};
use crate::types::{AttestationView, AttesterMode, Error, InvocationView, PrincipalView};

verus! {

// ---------------------------------------------------------------------------
// The invariant
// ---------------------------------------------------------------------------

/// A registration that goes through leaves a registry that satisfies
/// [`State::inv`], if it started from one.
pub proof fn lemma_create_schema_keeps_inv(
    s: State,
    ctx: InvocationView,
    creator: PrincipalView,
    schema_uri_hash: Seq<u8>,
    revocable: bool,
    expires_allowed: bool,
    attester_mode: u32,
)
    requires
        s.inv(),
    ensures
        s.create_schema(ctx, creator, schema_uri_hash, revocable, expires_allowed, attester_mode)
            matches Ok(t) ==> t.inv(),
{
}

/// An issuance that goes through leaves a registry that satisfies
/// [`State::inv`], if it started from one.
pub proof fn lemma_attest_keeps_inv(
    s: State,
    ctx: InvocationView,
    attester: PrincipalView,
    schema_id: Seq<u8>,
    subject: PrincipalView,
    data_hash: Seq<u8>,
    expiration: Option<u64>,
    nonce: u64,
)
    requires
        s.inv(),
    ensures
        s.attest(ctx, attester, schema_id, subject, data_hash, expiration, nonce) matches Ok(t)
            ==> t.inv(),
{
    if let Ok(t) = s.attest(ctx, attester, schema_id, subject, data_hash, expiration, nonce) {
        assert forall|id: Seq<u8>| #[trigger] t.attestations.contains_key(id) implies exists|
            n: u64,
        |
            1 <= n <= t.counter && id == #[trigger] id_bytes(n) by {
            if id != id_bytes(t.counter) {
                let n = choose|n: u64| 1 <= n <= s.counter && id == #[trigger] id_bytes(n);
                assert(1 <= n <= t.counter);
            }
        }
    }
}

/// A revocation that goes through leaves a registry that satisfies
/// [`State::inv`], if it started from one.
pub proof fn lemma_revoke_keeps_inv(
    s: State,
    ctx: InvocationView,
    revoker: PrincipalView,
    attestation_id: Seq<u8>,
)
    requires
        s.inv(),
    ensures
        s.revoke_by(ctx, revoker, attestation_id) matches Ok(t) ==> t.inv(),
{
    if let Ok(t) = s.revoke_by(ctx, revoker, attestation_id) {
        assert forall|id: Seq<u8>| #[trigger] t.attestations.contains_key(id) implies exists|
            n: u64,
        |
            1 <= n <= t.counter && id == #[trigger] id_bytes(n) by {
            assert(s.attestations.contains_key(id));
        }
    }
}

/// The empty registry satisfies [`State::inv`].
pub proof fn lemma_empty_inv()
    ensures
        State::empty().inv(),
{
}

/// Every sequence of calls keeps [`State::inv`].
pub proof fn lemma_inv_always(s: State, calls: Seq<Call>)
    requires
        s.inv(),
    ensures
        s.after_all(calls).inv(),
    decreases calls.len(),
{
    if calls.len() > 0 {
        lemma_inv_always(s, calls.drop_last());
        lemma_call_keeps_inv(s.after_all(calls.drop_last()), calls.last());
    }
}

/// One call keeps [`State::inv`].
pub proof fn lemma_call_keeps_inv(s: State, c: Call)
    requires
        s.inv(),
    ensures
        s.after(c).inv(),
{
    match c {
        Call::CreateSchema {
            ctx,
            creator,
            schema_uri_hash,
            revocable,
            expires_allowed,
            attester_mode,
        } => {
            lemma_create_schema_keeps_inv(
                s,
                ctx,
                creator,
                schema_uri_hash,
                revocable,
                expires_allowed,
                attester_mode,
            );
        },
        Call::Attest { ctx, attester, schema_id, subject, data_hash, expiration, nonce } => {
            lemma_attest_keeps_inv(
                s,
                ctx,
                attester,
                schema_id,
                subject,
                data_hash,
                expiration,
                nonce,
            );
        },
        Call::RevokeBy { ctx, revoker, attestation_id } => {
            lemma_revoke_keeps_inv(s, ctx, revoker, attestation_id);
        },
    }
}

// ---------------------------------------------------------------------------
// Nonces
// ---------------------------------------------------------------------------

/// Whether `c` is an issuance by `attester` that goes through in `s`.
pub open spec fn is_issuance_by(s: State, c: Call, attester: PrincipalView) -> bool {
    c matches Call::Attest { attester: a, .. } && a == attester && s.call(c) is Ok
}

/// The number of issuances by `attester` that go through when `calls` are
/// made from `s`, one after the other.
pub open spec fn issuances_by(s: State, calls: Seq<Call>, attester: PrincipalView) -> nat
    decreases calls.len(),
{
    if calls.len() == 0 {
        0
    } else {
        issuances_by(s, calls.drop_last(), attester) + if is_issuance_by(
            s.after_all(calls.drop_last()),
            calls.last(),
            attester,
        ) {
            1nat
        } else {
            0nat
        }
    }
}

/// An issuance is accepted only with the nonce that is one more than the
/// attester's, and then the attester's nonce becomes the one submitted. Any
/// other nonce is refused, and the registry stays as it was.
pub proof fn lemma_nonce_step(
    s: State,
    ctx: InvocationView,
    attester: PrincipalView,
    schema_id: Seq<u8>,
    subject: PrincipalView,
    data_hash: Seq<u8>,
    expiration: Option<u64>,
    nonce: u64,
)
    ensures
        match s.attest(ctx, attester, schema_id, subject, data_hash, expiration, nonce) {
            Ok(t) => nonce == s.get_nonce(attester) + 1 && t.get_nonce(attester) == nonce,
            Err(_) => true,
        },
        nonce != s.get_nonce(attester) + 1 ==> {
            let c = Call::Attest { ctx, attester, schema_id, subject, data_hash, expiration, nonce };
            &&& s.call(c) is Err
            &&& s.after(c) == s
        },
{
}

/// One call moves the nonce of `p` by one if it is an accepted issuance by
/// `p`, and leaves it alone if it is anything else: another attester's
/// issuance, a registration, a revocation, a refused call.
pub proof fn lemma_nonce_after_call(s: State, c: Call, p: PrincipalView)
    ensures
        s.after(c).get_nonce(p) == s.get_nonce(p) + if is_issuance_by(s, c, p) {
            1int
        } else {
            0int
        },
{
}

/// Nonce monotonicity and independence: after any sequence of calls, by
/// whatever attesters and in whatever order, the nonce of `p` has grown by
/// exactly the number of accepted issuances by `p` among them.
pub proof fn lemma_nonce_counts_issuances(s: State, calls: Seq<Call>, p: PrincipalView)
    ensures
        s.after_all(calls).get_nonce(p) == s.get_nonce(p) + issuances_by(s, calls, p),
    decreases calls.len(),
{
    if calls.len() > 0 {
        lemma_nonce_counts_issuances(s, calls.drop_last(), p);
        lemma_nonce_after_call(s.after_all(calls.drop_last()), calls.last(), p);
    }
}

/// The accepted issuances of one attester carry consecutive nonces: the
/// one accepted after `k` earlier ones carries the attester's first nonce
/// plus `k + 1`. From an attester's first issuance on, these are the nonces
/// 1, 2, 3 and so on.
pub proof fn lemma_accepted_nonces_are_consecutive(
    s: State,
    calls: Seq<Call>,
    i: int,
    p: PrincipalView,
)
    requires
        0 <= i < calls.len(),
        is_issuance_by(s.after_all(calls.take(i)), calls[i], p),
    ensures
        calls[i] matches Call::Attest { nonce, .. } && nonce == s.get_nonce(p) + issuances_by(
            s,
            calls.take(i),
            p,
        ) + 1,
{
    lemma_nonce_counts_issuances(s, calls.take(i), p);
}

// ---------------------------------------------------------------------------
// Identifiers
// ---------------------------------------------------------------------------

/// The identifier that the call `c` returns in `s`, if `c` is an issuance
/// that goes through.
pub open spec fn issued_id(s: State, c: Call) -> Option<Seq<u8>> {
    if c is Attest && s.call(c) is Ok {
        Some(id_bytes(s.after(c).counter))
    } else {
        None
    }
}

/// The identifiers returned when `calls` are made from `s`, one after the
/// other, in the order in which they are returned.
pub open spec fn issued_ids(s: State, calls: Seq<Call>) -> Seq<Seq<u8>>
    decreases calls.len(),
{
    if calls.len() == 0 {
        Seq::empty()
    } else {
        let before = issued_ids(s, calls.drop_last());
        match issued_id(s.after_all(calls.drop_last()), calls.last()) {
            Some(id) => before.push(id),
            None => before,
        }
    }
}

/// While the counter has not reached its largest value, an issuance stores
/// its attestation under an identifier that holds nothing yet, and every
/// record stored before stays where and as it was.
pub proof fn lemma_issuance_is_fresh(
    s: State,
    ctx: InvocationView,
    attester: PrincipalView,
    schema_id: Seq<u8>,
    subject: PrincipalView,
    data_hash: Seq<u8>,
    expiration: Option<u64>,
    nonce: u64,
)
    requires
        s.inv(),
        s.counter < u64::MAX,
    ensures
        s.attest(ctx, attester, schema_id, subject, data_hash, expiration, nonce) matches Ok(t)
            ==> {
            &&& t.counter == s.counter + 1
            &&& !s.attestations.contains_key(id_bytes(t.counter))
            &&& t.attestations.contains_key(id_bytes(t.counter))
            &&& forall|id: Seq<u8>| #[trigger]
                s.attestations.contains_key(id) ==> t.attestations.contains_key(id)
                    && t.attestations[id] == s.attestations[id]
        },
{
    if let Ok(t) = s.attest(ctx, attester, schema_id, subject, data_hash, expiration, nonce) {
        let id = id_bytes(t.counter);
        if s.attestations.contains_key(id) {
            let n = choose|n: u64| 1 <= n <= s.counter && id == #[trigger] id_bytes(n);
            lemma_id_bytes_injective(n, t.counter);
        }
    }
}

/// Identifiers come in allocation order: as long as the counter does not
/// reach its largest value, the `k`-th identifier returned is the one made
/// from the counter's first value plus `k + 1`, and the counter ends at its
/// first value plus the number of identifiers returned.
pub proof fn lemma_issued_ids_in_order(s: State, calls: Seq<Call>)
    requires
        s.counter + issued_ids(s, calls).len() <= u64::MAX,
    ensures
        s.after_all(calls).counter == s.counter + issued_ids(s, calls).len(),
        forall|k: int|
            0 <= k < issued_ids(s, calls).len() ==> #[trigger] issued_ids(s, calls)[k]
                == id_bytes((s.counter + k + 1) as u64),
    decreases calls.len(),
{
    if calls.len() > 0 {
        lemma_issued_ids_in_order(s, calls.drop_last());
    }
}

/// Identifier uniqueness: as long as the counter does not reach its largest
/// value, the identifiers returned by any sequence of calls are pairwise
/// distinct.
pub proof fn lemma_issued_ids_distinct(s: State, calls: Seq<Call>, i: int, j: int)
    requires
        s.counter + issued_ids(s, calls).len() <= u64::MAX,
        0 <= i < j < issued_ids(s, calls).len(),
    ensures
        issued_ids(s, calls)[i] != issued_ids(s, calls)[j],
{
    lemma_issued_ids_in_order(s, calls);
    if issued_ids(s, calls)[i] == issued_ids(s, calls)[j] {
        lemma_id_bytes_injective((s.counter + i + 1) as u64, (s.counter + j + 1) as u64);
    }
}

// ---------------------------------------------------------------------------
// Policies of a schema
// ---------------------------------------------------------------------------

/// Issuer-only enforcement: under a schema that lets only its creator
/// attest, an issuance by anyone else is refused, with `IssuerOnly` when the
/// caller is the attester and the expiration policy is met. The creator's
/// own issuance is never refused with `IssuerOnly`, and goes through when
/// the caller is the creator, the expiration policy is met and the nonce
/// follows.
pub proof fn lemma_issuer_only(
    s: State,
    ctx: InvocationView,
    attester: PrincipalView,
    schema_id: Seq<u8>,
    subject: PrincipalView,
    data_hash: Seq<u8>,
    expiration: Option<u64>,
    nonce: u64,
)
    requires
        s.schemas.contains_key(schema_id),
        s.schemas[schema_id].attester_mode == AttesterMode::IssuerOnly,
    ensures
        ({
            let r = s.attest(ctx, attester, schema_id, subject, data_hash, expiration, nonce);
            let schema = s.schemas[schema_id];
            let expiration_ok = expiration is None || schema.expires_allowed;
            &&& attester != schema.creator ==> r is Err
            &&& attester != schema.creator && ctx.caller == attester && expiration_ok ==> r == Err::<
                State,
                Error,
            >(Error::IssuerOnly)
            &&& attester == schema.creator ==> r != Err::<State, Error>(Error::IssuerOnly)
            &&& attester == schema.creator && ctx.caller == attester && expiration_ok && nonce
                == s.get_nonce(attester) + 1 ==> r is Ok
        }),
{
}

/// Expiration policy: under a schema that allows no expiration, an issuance
/// with an expiration is refused whatever the expiration is, with
/// `ExpirationNotAllowed` when the caller is the attester.
pub proof fn lemma_expiration_policy(
    s: State,
    ctx: InvocationView,
    attester: PrincipalView,
    schema_id: Seq<u8>,
    subject: PrincipalView,
    data_hash: Seq<u8>,
    expiration: u64,
    nonce: u64,
)
    requires
        s.schemas.contains_key(schema_id),
        !s.schemas[schema_id].expires_allowed,
    ensures
        ({
            let r = s.attest(
                ctx,
                attester,
                schema_id,
                subject,
                data_hash,
                Some(expiration),
                nonce,
            );
            &&& r is Err
            &&& ctx.caller == attester ==> r == Err::<State, Error>(Error::ExpirationNotAllowed)
        }),
{
}

// ---------------------------------------------------------------------------
// Expiration
// ---------------------------------------------------------------------------

/// Expiration boundary: an attestation with expiration `e` is not expired
/// at any time before `e` and expired from `e` on, `e` included; without an
/// expiration it never expires. It is valid when it is neither revoked nor
/// expired.
pub proof fn lemma_expiration_boundary(att: AttestationView, now: u64)
    ensures
        att.expiration matches Some(e) ==> (evaluation(att, now).expired <==> now >= e),
        att.expiration is None ==> !evaluation(att, now).expired,
        evaluation(att, now).valid <==> !att.revoked && !evaluation(att, now).expired,
        evaluation(att, now).revoked == att.revoked,
        evaluation(att, now).exists,
{
}

/// Verify on an unknown identifier: nothing comes back. Under a known one
/// the result says that the attestation exists.
pub proof fn lemma_verify_unknown(s: State, id: Seq<u8>, now: u64)
    ensures
        !s.attestations.contains_key(id) <==> s.verify(id, now) is None,
        s.verify(id, now) matches Some(v) ==> v.exists,
{
}

// ---------------------------------------------------------------------------
// Revocation
// ---------------------------------------------------------------------------

/// Revocation rules: a revocation by anyone but the attestation's attester
/// is refused, with `NotAttester` when the caller is the revoker; under a
/// schema that allows no revocation every revocation is refused, with
/// `NotRevocable` when the caller is the revoker and the attester.
pub proof fn lemma_revocation_rules(
    s: State,
    ctx: InvocationView,
    revoker: PrincipalView,
    attestation_id: Seq<u8>,
)
    requires
        s.inv(),
        s.attestations.contains_key(attestation_id),
    ensures
        ({
            let r = s.revoke_by(ctx, revoker, attestation_id);
            let att = s.attestations[attestation_id];
            let schema = s.schemas[att.schema_id];
            &&& revoker != att.attester ==> r is Err
            &&& revoker != att.attester && ctx.caller == revoker ==> r == Err::<State, Error>(
                Error::NotAttester,
            )
            &&& !schema.revocable ==> r is Err
            &&& !schema.revocable && revoker == att.attester && ctx.caller == revoker ==> r
                == Err::<State, Error>(Error::NotRevocable)
            &&& schema.revocable && revoker == att.attester && ctx.caller == revoker ==> r is Ok
        }),
{
}

/// A revocation that goes through leaves the attestation revoked and
/// everything else about it as it was. It publishes one event if the
/// attestation was not revoked before, and none if it was.
pub proof fn lemma_revocation_effect(
    s: State,
    ctx: InvocationView,
    revoker: PrincipalView,
    attestation_id: Seq<u8>,
)
    ensures
        s.revoke_by(ctx, revoker, attestation_id) matches Ok(t) ==> {
            &&& t.attestations.contains_key(attestation_id)
            &&& t.attestations[attestation_id] == revoked_attestation(
                s.attestations[attestation_id],
            )
            &&& t.events.len() == s.events.len() + if s.attestations[attestation_id].revoked {
                0int
            } else {
                1int
            }
        },
{
}

/// Revoking twice: after a revocation that went through, a second one by
/// the same revoker goes through too and changes nothing, neither a record
/// nor the events.
pub proof fn lemma_revocation_idempotent(
    s: State,
    ctx: InvocationView,
    again: InvocationView,
    revoker: PrincipalView,
    attestation_id: Seq<u8>,
)
    requires
        again.caller == revoker,
    ensures
        s.revoke_by(ctx, revoker, attestation_id) matches Ok(t) ==> t.revoke_by(
            again,
            revoker,
            attestation_id,
        ) == Ok::<State, Error>(t),
{
}

/// A revocation is final: while the counter has not reached its largest
/// value, no call brings a revoked attestation back.
pub proof fn lemma_revocation_is_final(s: State, c: Call, attestation_id: Seq<u8>)
    requires
        s.inv(),
        s.counter < u64::MAX,
        s.attestations.contains_key(attestation_id),
        s.attestations[attestation_id].revoked,
    ensures
        s.after(c).attestations.contains_key(attestation_id),
        s.after(c).attestations[attestation_id] == s.attestations[attestation_id],
{
    match c {
        Call::Attest { ctx, attester, schema_id, subject, data_hash, expiration, nonce } => {
            lemma_issuance_is_fresh(
                s,
                ctx,
                attester,
                schema_id,
                subject,
                data_hash,
                expiration,
                nonce,
            );
        },
        _ => {},
    }
}

// ---------------------------------------------------------------------------
// Permanence
// ---------------------------------------------------------------------------

/// A schema, once registered, is never changed or removed.
pub proof fn lemma_schema_is_permanent(s: State, c: Call, schema_id: Seq<u8>)
    requires
        s.schemas.contains_key(schema_id),
    ensures
        s.after(c).schemas.contains_key(schema_id),
        s.after(c).schemas[schema_id] == s.schemas[schema_id],
{
}

/// The identifier counter never goes down, and moves by at most one with a
/// call.
pub proof fn lemma_counter_never_decreases(s: State, c: Call)
    ensures
        s.counter <= s.after(c).counter <= s.counter + 1,
{
}

/// The log of events only grows: what was published stays, in its place,
/// and a call adds at most one event.
pub proof fn lemma_events_only_grow(s: State, c: Call)
    ensures
        s.events.is_prefix_of(s.after(c).events),
        s.after(c).events.len() <= s.events.len() + 1,
        s.call(c) is Err ==> s.after(c).events == s.events,
{
}

/// An attestation, once stored, changes only by being revoked: while the
/// counter has not reached its largest value, after any call it is as it
/// was, or as it was and revoked.
pub proof fn lemma_attestation_is_permanent(s: State, c: Call, attestation_id: Seq<u8>)
    requires
        s.inv(),
        s.counter < u64::MAX,
        s.attestations.contains_key(attestation_id),
    ensures
        s.after(c).attestations.contains_key(attestation_id),
        s.after(c).attestations[attestation_id] == s.attestations[attestation_id] || s.after(
            c,
        ).attestations[attestation_id] == revoked_attestation(s.attestations[attestation_id]),
{
    match c {
        Call::Attest { ctx, attester, schema_id, subject, data_hash, expiration, nonce } => {
            lemma_issuance_is_fresh(
                s,
                ctx,
                attester,
                schema_id,
                subject,
                data_hash,
                expiration,
                nonce,
            );
        },
        _ => {},
    }
}

} // verus!

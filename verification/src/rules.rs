//! The decisions of the registry, as functions of the values that a call
//! reads: which error a call ends in, and what it writes and announces when
//! it goes through.
//!
//! The checks of one call are made in a fixed order, and the first that
//! fails names the error. Nothing is written before all of them have passed.

use vstd::prelude::*;
use crate::ident::{id_bytes, next_attestation_id, next_counter};
use crate::types::{
    mode_of_code, Attestation, AttestationView, AttesterMode, Error, Event, EventView, Principal,
    PrincipalView, Schema, SchemaView, VerifyResult, VerifyResultView,
};

verus! {

// ---------------------------------------------------------------------------
// Verification
// ---------------------------------------------------------------------------

/// Whether an expiration has been reached at time `now`. The expiration
/// time itself already counts as expired.
pub open spec fn is_expired(expiration: Option<u64>, now: u64) -> bool {
    match expiration {
        Some(e) => now >= e,
        None => false,
    }
}

/// The standing of the attestation `att` at time `now`.
pub open spec fn evaluation(att: AttestationView, now: u64) -> VerifyResultView {
    VerifyResultView {
        exists: true,
        valid: !att.revoked && !is_expired(att.expiration, now),
        revoked: att.revoked,
        expired: is_expired(att.expiration, now),
        schema_id: att.schema_id,
        attester: att.attester,
        subject: att.subject,
        data_hash: att.data_hash,
        timestamp: att.timestamp,
        expiration: att.expiration,
    }
}

/// Evaluates a stored attestation at time `now`.
pub fn evaluate(att: &Attestation, now: u64) -> (r: VerifyResult)
    ensures
        r@ == evaluation(att@, now),
{
    let expired = match att.expiration {
        Some(exp) => now >= exp,
        None => false,
    };
    let revoked = att.revoked;
    VerifyResult {
        exists: true,
        valid: !revoked && !expired,
        revoked,
        expired,
        schema_id: att.schema_id,
        attester: att.attester,
        subject: att.subject,
        data_hash: att.data_hash,
        timestamp: att.timestamp,
        expiration: att.expiration,
    }
}

// ---------------------------------------------------------------------------
// Lookups
// ---------------------------------------------------------------------------

/// The schema that a lookup found; `SchemaNotFound` if it found none.
pub fn require_schema_exists(schema: Option<Schema>) -> (r: Result<Schema, Error>)
    ensures
        match schema {
            Some(s) => r == Ok::<Schema, Error>(s),
            None => r == Err::<Schema, Error>(Error::SchemaNotFound),
        },
{
    match schema {
        Some(schema) => Ok(schema),
        None => Err(Error::SchemaNotFound),
    }
}

/// The attestation that a lookup found; `AttestationNotFound` if it found
/// none.
pub fn require_attestation_exists(att: Option<Attestation>) -> (r: Result<Attestation, Error>)
    ensures
        match att {
            Some(a) => r == Ok::<Attestation, Error>(a),
            None => r == Err::<Attestation, Error>(Error::AttestationNotFound),
        },
{
    match att {
        Some(att) => Ok(att),
        None => Err(Error::AttestationNotFound),
    }
}

// ---------------------------------------------------------------------------
// Schema registration
// ---------------------------------------------------------------------------

/// The error in which a registration ends, if it ends in one: the mode code
/// is checked first, then whether the identifier is taken (`exists`).
pub open spec fn schema_creation_error(exists: bool, attester_mode: u32) -> Option<Error> {
    if mode_of_code(attester_mode) is None {
        Some(Error::InvalidAttesterMode)
    } else if exists {
        Some(Error::SchemaAlreadyExists)
    } else {
        None
    }
}

/// The event that announces the registration of `schema` at time `now`.
pub open spec fn schema_created_event(schema: SchemaView, now: u64) -> EventView {
    EventView::SchemaCreated {
        schema_id: schema.schema_uri_hash,
        creator: schema.creator,
        schema_uri_hash: schema.schema_uri_hash,
        revocable: schema.revocable,
        expires_allowed: schema.expires_allowed,
        attester_mode: schema.attester_mode,
        created_time: now,
    }
}

/// Decides a registration. `exists` says whether a schema is already stored
/// under `schema_uri_hash`. On success the result holds the record to store
/// under that hash and the event to publish.
pub fn plan_schema(
    exists: bool,
    creator: Principal,
    schema_uri_hash: [u8; 32],
    revocable: bool,
    expires_allowed: bool,
    attester_mode: u32,
    now: u64,
) -> (r: Result<(Schema, Event), Error>)
    ensures
        match schema_creation_error(exists, attester_mode) {
            Some(e) => r == Err::<(Schema, Event), Error>(e),
            None => r is Ok && r->Ok_0.0@ == (SchemaView {
                schema_uri_hash: schema_uri_hash@,
                creator: creator@,
                revocable,
                expires_allowed,
                attester_mode: mode_of_code(attester_mode)->Some_0,
            }) && r->Ok_0.1@ == schema_created_event(r->Ok_0.0@, now),
        },
{
    let mode = match AttesterMode::from_code(attester_mode) {
        Some(mode) => mode,
        None => {
            return Err(Error::InvalidAttesterMode);
        },
    };
    if exists {
        return Err(Error::SchemaAlreadyExists);
    }
    let schema = Schema { schema_uri_hash, creator, revocable, expires_allowed, attester_mode: mode };
    let event = Event::SchemaCreated {
        schema_id: schema_uri_hash,
        creator,
        schema_uri_hash,
        revocable,
        expires_allowed,
        attester_mode: mode,
        created_time: now,
    };
    Ok((schema, event))
}

// ---------------------------------------------------------------------------
// Issuance
// ---------------------------------------------------------------------------

/// Whether `nonce` is the one nonce that an attester at `current` may use
/// next: exactly one more.
pub open spec fn nonce_follows(current: u64, nonce: u64) -> bool {
    nonce == current + 1
}

/// The error in which an issuance ends, if it ends in one. `schema` is what
/// is stored under the schema identifier that the call names, and
/// `current_nonce` the attester's nonce. The checks, in order: the schema
/// exists; it allows an expiration if one is given; it lets this attester
/// attest; the nonce follows the attester's current one.
pub open spec fn issuance_error(
    schema: Option<SchemaView>,
    attester: PrincipalView,
    expiration: Option<u64>,
    current_nonce: u64,
    nonce: u64,
) -> Option<Error> {
    match schema {
        None => Some(Error::SchemaNotFound),
        Some(s) => if expiration is Some && !s.expires_allowed {
            Some(Error::ExpirationNotAllowed)
        } else if s.attester_mode == AttesterMode::IssuerOnly && attester != s.creator {
            Some(Error::IssuerOnly)
        } else if !nonce_follows(current_nonce, nonce) {
            Some(Error::BadNonce)
        } else {
            None
        },
    }
}

/// The record of an attestation issued at time `now`.
pub open spec fn issued_attestation(
    schema_id: Seq<u8>,
    attester: PrincipalView,
    subject: PrincipalView,
    data_hash: Seq<u8>,
    expiration: Option<u64>,
    now: u64,
) -> AttestationView {
    AttestationView {
        schema_id,
        attester,
        subject,
        data_hash,
        timestamp: now,
        expiration,
        revoked: false,
    }
}

/// The event that announces the attestation `att`, stored under `id`.
pub open spec fn attested_event(id: Seq<u8>, att: AttestationView) -> EventView {
    EventView::Attested {
        attestation_id: id,
        schema_id: att.schema_id,
        attester: att.attester,
        subject: att.subject,
        data_hash: att.data_hash,
        timestamp: att.timestamp,
        expiration: att.expiration,
    }
}

/// What an accepted issuance writes and announces.
#[derive(Clone, Copy, Debug, PartialEq, Eq)]
pub struct Issuance {
    /// The attester's new nonce.
    pub nonce: u64,
    /// The new value of the identifier counter.
    pub counter: u64,
    /// The identifier of the new attestation.
    pub attestation_id: [u8; 32],
    /// The record to store under that identifier.
    pub attestation: Attestation,
    /// The event to publish.
    pub event: Event,
}

/// Whether `nonce` follows `current`.
pub fn check_nonce(current: u64, nonce: u64) -> (ok: bool)
    ensures
        ok == nonce_follows(current, nonce),
{
    current < u64::MAX && nonce == current + 1
}

/// Decides an issuance. `schema` is what is stored under `schema_id`,
/// `current_nonce` the attester's nonce and `counter` the identifier
/// counter. On success the result holds everything that the call writes.
pub fn plan_attestation(
    schema: Option<Schema>,
    current_nonce: u64,
    counter: u64,
    attester: Principal,
    schema_id: [u8; 32],
    subject: Principal,
    data_hash: [u8; 32],
    expiration: Option<u64>,
    nonce: u64,
    now: u64,
) -> (r: Result<Issuance, Error>)
    ensures
        match issuance_error(
            match schema {
                Some(s) => Some(s@),
                None => None,
            },
            attester@,
            expiration,
            current_nonce,
            nonce,
        ) {
            Some(e) => r == Err::<Issuance, Error>(e),
            None => {
                &&& r is Ok
                &&& r->Ok_0.nonce == nonce
                &&& r->Ok_0.counter == next_counter(counter)
                &&& r->Ok_0.attestation_id@ == id_bytes(next_counter(counter))
                &&& r->Ok_0.attestation@ == issued_attestation(
                    schema_id@,
                    attester@,
                    subject@,
                    data_hash@,
                    expiration,
                    now,
                )
                &&& r->Ok_0.event@ == attested_event(
                    r->Ok_0.attestation_id@,
                    r->Ok_0.attestation@,
                )
            },
        },
{
    let schema = match schema {
        Some(schema) => schema,
        None => {
            return Err(Error::SchemaNotFound);
        },
    };
    if expiration.is_some() && !schema.expires_allowed {
        return Err(Error::ExpirationNotAllowed);
    }
    if schema.attester_mode == AttesterMode::IssuerOnly && !attester.same(&schema.creator) {
        return Err(Error::IssuerOnly);
    }
    if !check_nonce(current_nonce, nonce) {
        return Err(Error::BadNonce);
    }
    let (counter, attestation_id) = next_attestation_id(counter);
    let attestation = Attestation {
        schema_id,
        attester,
        subject,
        data_hash,
        timestamp: now,
        expiration,
        revoked: false,
    };
    let event = Event::Attested {
        attestation_id,
        schema_id,
        attester,
        subject,
        data_hash,
        timestamp: now,
        expiration,
    };
    Ok(Issuance { nonce, counter, attestation_id, attestation, event })
}

// ---------------------------------------------------------------------------
// Revocation
// ---------------------------------------------------------------------------

/// The error in which a revocation ends, if it ends in one. `att` is what is
/// stored under the attestation identifier that the call names, and `schema`
/// what is stored under that attestation's schema identifier. The checks,
/// in order: the attestation exists; the revoker is its attester; its schema
/// exists and allows revocation.
pub open spec fn revocation_error(
    att: Option<AttestationView>,
    schema: Option<SchemaView>,
    revoker: PrincipalView,
) -> Option<Error> {
    match att {
        None => Some(Error::AttestationNotFound),
        Some(a) => if revoker != a.attester {
            Some(Error::NotAttester)
        } else {
            match schema {
                None => Some(Error::SchemaNotFound),
                Some(s) => if !s.revocable {
                    Some(Error::NotRevocable)
                } else {
                    None
                },
            }
        },
    }
}

/// The attestation `att`, revoked.
pub open spec fn revoked_attestation(att: AttestationView) -> AttestationView {
    AttestationView { revoked: true, ..att }
}

/// The event that announces a revocation at time `now`.
pub open spec fn revoked_event(id: Seq<u8>, revoker: PrincipalView, now: u64) -> EventView {
    EventView::Revoked { attestation_id: id, revoker, revoked_time: now }
}

/// Decides a revocation. `att` is what is stored under `attestation_id`, and
/// `schema` what is stored under that attestation's schema identifier.
/// `Ok(None)` says that the attestation was revoked before and that nothing
/// is to be done; `Ok(Some(..))` holds the record to store under
/// `attestation_id` and the event to publish.
pub fn plan_revocation(
    att: Option<Attestation>,
    schema: Option<Schema>,
    revoker: Principal,
    attestation_id: [u8; 32],
    now: u64,
) -> (r: Result<Option<(Attestation, Event)>, Error>)
    ensures
        match revocation_error(
            match att {
                Some(a) => Some(a@),
                None => None,
            },
            match schema {
                Some(s) => Some(s@),
                None => None,
            },
            revoker@,
        ) {
            Some(e) => r == Err::<Option<(Attestation, Event)>, Error>(e),
            None => {
                &&& r is Ok
                &&& r->Ok_0 is None <==> att->Some_0.revoked
                &&& r->Ok_0 matches Some(w) ==> {
                    &&& w.0@ == revoked_attestation(att->Some_0@)
                    &&& w.1@ == revoked_event(attestation_id@, revoker@, now)
                }
            },
        },
{
    let att = match att {
        Some(att) => att,
        None => {
            return Err(Error::AttestationNotFound);
        },
    };
    if !revoker.same(&att.attester) {
        return Err(Error::NotAttester);
    }
    let schema = match schema {
        Some(schema) => schema,
        None => {
            return Err(Error::SchemaNotFound);
        },
    };
    if !schema.revocable {
        return Err(Error::NotRevocable);
    }
    if att.revoked {
        return Ok(None);
    }
    let revoked = Attestation {
        schema_id: att.schema_id,
        attester: att.attester,
        subject: att.subject,
        data_hash: att.data_hash,
        timestamp: att.timestamp,
        expiration: att.expiration,
        revoked: true,
    };
    let event = Event::Revoked { attestation_id, revoker, revoked_time: now };
    Ok(Some((revoked, event)))
}

} // verus!

//! The registry as a mathematical value, and each call as a function from
//! one such value to the next.

use vstd::prelude::*;
use crate::ident::{id_bytes, next_counter};
use crate::rules::{
    attested_event, evaluation, issuance_error, issued_attestation, revocation_error,
    revoked_attestation, revoked_event, schema_created_event, schema_creation_error,
};
use crate::types::{
    mode_of_code, AttestationView, Error, EventView, InvocationView, PrincipalView, SchemaView,
    VerifyResultView,
};

verus! {

/// A call that may change the registry, with its arguments.
pub enum Call {
    CreateSchema {
        ctx: InvocationView,
        creator: PrincipalView,
        schema_uri_hash: Seq<u8>,
        revocable: bool,
        expires_allowed: bool,
        attester_mode: u32,
    },
    Attest {
        ctx: InvocationView,
        attester: PrincipalView,
        schema_id: Seq<u8>,
        subject: PrincipalView,
        data_hash: Seq<u8>,
        expiration: Option<u64>,
        nonce: u64,
    },
    RevokeBy { ctx: InvocationView, revoker: PrincipalView, attestation_id: Seq<u8> },
}

/// Everything the registry holds.
pub struct State {
    /// The schemas, by identifier.
    pub schemas: Map<Seq<u8>, SchemaView>,
    /// The attestations, by identifier.
    pub attestations: Map<Seq<u8>, AttestationView>,
    /// The nonce of each attester that has attested.
    pub nonces: Map<PrincipalView, u64>,
    /// The identifier counter: the number of identifiers handed out.
    pub counter: u64,
    /// The events published so far, oldest first.
    pub events: Seq<EventView>,
}

impl State {
    /// The registry before its first call.
    pub open spec fn empty() -> State {
        State {
            schemas: Map::empty(),
            attestations: Map::empty(),
            nonces: Map::empty(),
            counter: 0,
            events: Seq::empty(),
        }
    }

    /// The schema stored under `id`, if there is one.
    pub open spec fn schema(self, id: Seq<u8>) -> Option<SchemaView> {
        if self.schemas.contains_key(id) {
            Some(self.schemas[id])
        } else {
            None
        }
    }

    /// The attestation stored under `id`, if there is one.
    pub open spec fn attestation(self, id: Seq<u8>) -> Option<AttestationView> {
        if self.attestations.contains_key(id) {
            Some(self.attestations[id])
        } else {
            None
        }
    }

    /// The schema that governs the attestation stored under `id`.
    pub open spec fn schema_of_attestation(self, id: Seq<u8>) -> Option<SchemaView> {
        match self.attestation(id) {
            Some(a) => self.schema(a.schema_id),
            None => None,
        }
    }

    /// The nonce of `attester`: zero until its first attestation.
    pub open spec fn get_nonce(self, attester: PrincipalView) -> u64 {
        if self.nonces.contains_key(attester) {
            self.nonces[attester]
        } else {
            0
        }
    }

    /// What holds of the registry after any sequence of calls: every
    /// attestation sits under an identifier that the counter has handed
    /// out, its schema is registered, and every schema sits under its own
    /// content hash.
    pub open spec fn inv(self) -> bool {
        &&& forall|id: Seq<u8>| #[trigger]
            self.attestations.contains_key(id) ==> exists|n: u64|
                1 <= n <= self.counter && id == #[trigger] id_bytes(n)
        &&& forall|id: Seq<u8>| #[trigger]
            self.attestations.contains_key(id) ==> self.schemas.contains_key(
                self.attestations[id].schema_id,
            )
        &&& forall|id: Seq<u8>| #[trigger]
            self.schemas.contains_key(id) ==> self.schemas[id].schema_uri_hash == id
    }

    /// The outcome of registering a schema: the error, or the registry with
    /// the schema stored under its hash and the event published.
    pub open spec fn create_schema(
        self,
        ctx: InvocationView,
        creator: PrincipalView,
        schema_uri_hash: Seq<u8>,
        revocable: bool,
        expires_allowed: bool,
        attester_mode: u32,
    ) -> Result<State, Error> {
        if ctx.caller != creator {
            Err(Error::Unauthorized)
        } else {
            match schema_creation_error(self.schemas.contains_key(schema_uri_hash), attester_mode) {
                Some(e) => Err(e),
                None => {
                    let schema = SchemaView {
                        schema_uri_hash,
                        creator,
                        revocable,
                        expires_allowed,
                        attester_mode: mode_of_code(attester_mode)->Some_0,
                    };
                    Ok(
                        State {
                            schemas: self.schemas.insert(schema_uri_hash, schema),
                            events: self.events.push(schema_created_event(schema, ctx.now)),
                            ..self
                        },
                    )
                },
            }
        }
    }

    /// The outcome of an issuance: the error, or the registry with the
    /// attester's nonce and the counter moved on, the attestation stored
    /// under the identifier made from the new counter value, and the event
    /// published.
    pub open spec fn attest(
        self,
        ctx: InvocationView,
        attester: PrincipalView,
        schema_id: Seq<u8>,
        subject: PrincipalView,
        data_hash: Seq<u8>,
        expiration: Option<u64>,
        nonce: u64,
    ) -> Result<State, Error> {
        if ctx.caller != attester {
            Err(Error::Unauthorized)
        } else {
            match issuance_error(
                self.schema(schema_id),
                attester,
                expiration,
                self.get_nonce(attester),
                nonce,
            ) {
                Some(e) => Err(e),
                None => {
                    let counter = next_counter(self.counter);
                    let id = id_bytes(counter);
                    let att = issued_attestation(
                        schema_id,
                        attester,
                        subject,
                        data_hash,
                        expiration,
                        ctx.now,
                    );
                    Ok(
                        State {
                            nonces: self.nonces.insert(attester, nonce),
                            counter,
                            attestations: self.attestations.insert(id, att),
                            events: self.events.push(attested_event(id, att)),
                            ..self
                        },
                    )
                },
            }
        }
    }

    /// The outcome of a revocation: the error, or the registry with the
    /// attestation marked and the event published; the registry as it was,
    /// if the attestation was revoked before.
    pub open spec fn revoke_by(
        self,
        ctx: InvocationView,
        revoker: PrincipalView,
        attestation_id: Seq<u8>,
    ) -> Result<State, Error> {
        if ctx.caller != revoker {
            Err(Error::Unauthorized)
        } else {
            match revocation_error(
                self.attestation(attestation_id),
                self.schema_of_attestation(attestation_id),
                revoker,
            ) {
                Some(e) => Err(e),
                None => if self.attestations[attestation_id].revoked {
                    Ok(self)
                } else {
                    Ok(
                        State {
                            attestations: self.attestations.insert(
                                attestation_id,
                                revoked_attestation(self.attestations[attestation_id]),
                            ),
                            events: self.events.push(
                                revoked_event(attestation_id, revoker, ctx.now),
                            ),
                            ..self
                        },
                    )
                },
            }
        }
    }

    /// The outcome of the call `c`.
    pub open spec fn call(self, c: Call) -> Result<State, Error> {
        match c {
            Call::CreateSchema {
                ctx,
                creator,
                schema_uri_hash,
                revocable,
                expires_allowed,
                attester_mode,
            } => self.create_schema(
                ctx,
                creator,
                schema_uri_hash,
                revocable,
                expires_allowed,
                attester_mode,
            ),
            Call::Attest { ctx, attester, schema_id, subject, data_hash, expiration, nonce } => {
                self.attest(ctx, attester, schema_id, subject, data_hash, expiration, nonce)
            },
            Call::RevokeBy { ctx, revoker, attestation_id } => self.revoke_by(
                ctx,
                revoker,
                attestation_id,
            ),
        }
    }

    /// The registry after the call `c`: a refused call leaves it as it was.
    pub open spec fn after(self, c: Call) -> State {
        match self.call(c) {
            Ok(t) => t,
            Err(_) => self,
        }
    }

    /// The registry after the calls `calls`, made one after the other.
    pub open spec fn after_all(self, calls: Seq<Call>) -> State
        decreases calls.len(),
    {
        if calls.len() == 0 {
            self
        } else {
            self.after_all(calls.drop_last()).after(calls.last())
        }
    }

    /// The standing at time `now` of the attestation stored under `id`;
    /// nothing, if none is stored there.
    pub open spec fn verify(self, id: Seq<u8>, now: u64) -> Option<VerifyResultView> {
        match self.attestation(id) {
            Some(a) => Some(evaluation(a, now)),
            None => None,
        }
    }
}

} // verus!

//! The registry itself: schemas, attestations, nonces, the identifier
//! counter and the log of published events, with the calls that read and
//! change them.
//!
//! Every call either goes through or is refused with an [`Error`]; a refused
//! call leaves the registry as it was.

use vstd::prelude::*;
use crate::ident::id_bytes;
use crate::laws::{lemma_attest_keeps_inv, lemma_revoke_keeps_inv};
use crate::rules::{
    evaluate, plan_attestation, plan_revocation, plan_schema, require_attestation_exists,
    require_schema_exists,
};
use crate::state::State;
use crate::table::Table;
use crate::types::{Attestation, Error, Event, Invocation, Principal, Schema, VerifyResult};

verus! {

/// The attestation registry.
pub struct EasContract {
    schemas: Table<[u8; 32], Schema>,
    attestations: Table<[u8; 32], Attestation>,
    nonces: Table<Principal, u64>,
    next_att_id: u64,
    events: Vec<Event>,
}

impl View for EasContract {
    type V = State;

    closed spec fn view(&self) -> State {
        State {
            schemas: self.schemas@,
            attestations: self.attestations@,
            nonces: self.nonces@,
            counter: self.next_att_id,
            events: self.events@.map_values(|e: Event| e@),
        }
    }
}

impl EasContract {
    /// The registry is sound: its stores are, and its contents are such as
    /// a sequence of calls can leave behind.
    pub closed spec fn wf(&self) -> bool {
        &&& self.schemas.wf()
        &&& self.attestations.wf()
        &&& self.nonces.wf()
        &&& self@.inv()
    }

    /// A sound registry holds what [`State::inv`] says.
    pub proof fn lemma_wf_inv(&self)
        requires
            self.wf(),
        ensures
            self@.inv(),
    {
    }

    /// An empty registry.
    pub fn new() -> (c: EasContract)
        ensures
            c.wf(),
            c@ == State::empty(),
    {
        let c = EasContract {
            schemas: Table::new(),
            attestations: Table::new(),
            nonces: Table::new(),
            next_att_id: 0,
            events: Vec::new(),
        };
        assert(c.events@.map_values(|e: Event| e@) =~= Seq::empty());
        c
    }

    /// Registers a schema under its content hash and returns that hash as
    /// the schema's identifier.
    ///
    /// Refused with `Unauthorized` unless the caller is `creator`, with
    /// `InvalidAttesterMode` if `attester_mode` is no mode's code, and with
    /// `SchemaAlreadyExists` if the hash is taken.
    pub fn create_schema(
        &mut self,
        ctx: &Invocation,
        creator: Principal,
        schema_uri_hash: [u8; 32],
        revocable: bool,
        expires_allowed: bool,
        attester_mode: u32,
    ) -> (r: Result<[u8; 32], Error>)
        requires
            old(self).wf(),
        ensures
            final(self).wf(),
            match old(self)@.create_schema(
                ctx@,
                creator@,
                schema_uri_hash@,
                revocable,
                expires_allowed,
                attester_mode,
            ) {
                Ok(s) => r is Ok && r->Ok_0@ == schema_uri_hash@ && final(self)@ == s,
                Err(e) => r == Err::<[u8; 32], Error>(e) && final(self)@ == old(self)@,
            },
    {
        if let Err(e) = ctx.require_auth(&creator) {
            return Err(e);
        }
        let exists = self.schemas.contains(&schema_uri_hash);
        match plan_schema(
            exists,
            creator,
            schema_uri_hash,
            revocable,
            expires_allowed,
            attester_mode,
            ctx.now,
        ) {
            Err(e) => Err(e),
            Ok((schema, event)) => {
                self.schemas.insert(schema_uri_hash, schema);
                self.events.push(event);
                proof {
                    assert(self.events@.map_values(|e: Event| e@) =~= old(
                        self,
                    ).events@.map_values(|e: Event| e@).push(event@));
                }
                Ok(schema_uri_hash)
            },
        }
    }

    /// The nonce of `attester`: the number of attestations it has issued,
    /// and zero before the first.
    pub fn get_nonce(&self, attester: &Principal) -> (n: u64)
        requires
            self.wf(),
        ensures
            n == self@.get_nonce(attester@),
    {
        match self.nonces.get(attester) {
            Some(n) => n,
            None => 0,
        }
    }

    /// Issues an attestation and returns its identifier.
    ///
    /// Refused with `Unauthorized` unless the caller is `attester`, with
    /// `SchemaNotFound` if no schema is stored under `schema_id`, with
    /// `ExpirationNotAllowed` if an expiration is given and the schema
    /// allows none, with `IssuerOnly` if the schema lets only its creator
    /// attest and `attester` is not the creator, and with `BadNonce` unless
    /// `nonce` is one more than the attester's nonce; the first of these
    /// that applies.
    pub fn attest(
        &mut self,
        ctx: &Invocation,
        attester: Principal,
        schema_id: [u8; 32],
        subject: Principal,
        data_hash: [u8; 32],
        expiration: Option<u64>,
        nonce: u64,
    ) -> (r: Result<[u8; 32], Error>)
        requires
            old(self).wf(),
        ensures
            final(self).wf(),
            match old(self)@.attest(
                ctx@,
                attester@,
                schema_id@,
                subject@,
                data_hash@,
                expiration,
                nonce,
            ) {
                Ok(s) => r is Ok && r->Ok_0@ == id_bytes(s.counter) && final(self)@ == s,
                Err(e) => r == Err::<[u8; 32], Error>(e) && final(self)@ == old(self)@,
            },
    {
        if let Err(e) = ctx.require_auth(&attester) {
            return Err(e);
        }
        let schema = self.schemas.get(&schema_id);
        let current_nonce = self.get_nonce(&attester);
        match plan_attestation(
            schema,
            current_nonce,
            self.next_att_id,
            attester,
            schema_id,
            subject,
            data_hash,
            expiration,
            nonce,
            ctx.now,
        ) {
            Err(e) => Err(e),
            Ok(issuance) => {
                self.nonces.insert(attester, issuance.nonce);
                self.next_att_id = issuance.counter;
                self.attestations.insert(issuance.attestation_id, issuance.attestation);
                self.events.push(issuance.event);
                proof {
                    assert(self.events@.map_values(|e: Event| e@) =~= old(
                        self,
                    ).events@.map_values(|e: Event| e@).push(issuance.event@));
                    lemma_attest_keeps_inv(
                        old(self)@,
                        ctx@,
                        attester@,
                        schema_id@,
                        subject@,
                        data_hash@,
                        expiration,
                        nonce,
                    );
                }
                Ok(issuance.attestation_id)
            },
        }
    }

    /// Revokes an attestation. Revoking one that is revoked already
    /// succeeds and changes nothing.
    ///
    /// Refused with `Unauthorized` unless the caller is `revoker`, with
    /// `AttestationNotFound` if nothing is stored under `attestation_id`,
    /// with `NotAttester` unless `revoker` issued the attestation, and with
    /// `NotRevocable` if its schema allows no revocation; the first of
    /// these that applies.
    pub fn revoke_by(&mut self, ctx: &Invocation, revoker: Principal, attestation_id: [u8; 32]) -> (r:
        Result<(), Error>)
        requires
            old(self).wf(),
        ensures
            final(self).wf(),
            match old(self)@.revoke_by(ctx@, revoker@, attestation_id@) {
                Ok(s) => r is Ok && final(self)@ == s,
                Err(e) => r == Err::<(), Error>(e) && final(self)@ == old(self)@,
            },
    {
        if let Err(e) = ctx.require_auth(&revoker) {
            return Err(e);
        }
        let att = self.attestations.get(&attestation_id);
        let schema = match att {
            Some(a) => self.schemas.get(&a.schema_id),
            None => None,
        };
        match plan_revocation(att, schema, revoker, attestation_id, ctx.now) {
            Err(e) => Err(e),
            Ok(None) => Ok(()),
            Ok(Some((revoked, event))) => {
                self.attestations.insert(attestation_id, revoked);
                self.events.push(event);
                proof {
                    assert(self.events@.map_values(|e: Event| e@) =~= old(
                        self,
                    ).events@.map_values(|e: Event| e@).push(event@));
                    lemma_revoke_keeps_inv(
                        old(self)@,
                        ctx@,
                        revoker@,
                        attestation_id@,
                    );
                }
                Ok(())
            },
        }
    }

    /// The standing at time `now` of the attestation stored under
    /// `attestation_id`; `None` if nothing is stored there.
    pub fn verify(&self, attestation_id: &[u8; 32], now: u64) -> (r: Option<VerifyResult>)
        requires
            self.wf(),
        ensures
            match self@.verify(attestation_id@, now) {
                Some(v) => r is Some && r->Some_0@ == v,
                None => r is None,
            },
    {
        match self.attestations.get(attestation_id) {
            Some(att) => Some(evaluate(&att, now)),
            None => None,
        }
    }

    /// The schema stored under `schema_id`; refused with `SchemaNotFound`
    /// if there is none.
    pub fn get_schema(&self, schema_id: &[u8; 32]) -> (r: Result<Schema, Error>)
        requires
            self.wf(),
        ensures
            match self@.schema(schema_id@) {
                Some(s) => r is Ok && r->Ok_0@ == s,
                None => r == Err::<Schema, Error>(Error::SchemaNotFound),
            },
    {
        require_schema_exists(self.schemas.get(schema_id))
    }

    /// The attestation stored under `attestation_id`; refused with
    /// `AttestationNotFound` if there is none.
    pub fn get_attestation(&self, attestation_id: &[u8; 32]) -> (r: Result<Attestation, Error>)
        requires
            self.wf(),
        ensures
            match self@.attestation(attestation_id@) {
                Some(a) => r is Ok && r->Ok_0@ == a,
                None => r == Err::<Attestation, Error>(Error::AttestationNotFound),
            },
    {
        require_attestation_exists(self.attestations.get(attestation_id))
    }

    /// The events published so far, oldest first.
    pub fn events(&self) -> (log: &Vec<Event>)
        ensures
            log@.map_values(|e: Event| e@) == self@.events,
    {
        &self.events
    }

    /// The build tag.
    pub fn version() -> (v: &'static str)
        ensures
            v@ == "v0.1"@,
    {
        "v0.1"
    }
}

} // verus!

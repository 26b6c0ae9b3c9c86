//! The records of the registry and the values that travel with them.
//!
//! Every record is plain data. Its view replaces each 32-byte array by the
//! sequence of its bytes; the contracts of the crate speak of views.

use vstd::prelude::*;

verus! {

/// Whether two 32-byte values hold the same bytes.
pub fn bytes32_eq(a: &[u8; 32], b: &[u8; 32]) -> (r: bool)
    ensures
        r == (a@ == b@),
{
    let mut i: usize = 0;
    while i < 32
        invariant
            i <= 32,
            forall|j: int| 0 <= j < i ==> a[j] == b[j],
        decreases 32 - i,
    {
        if a[i] != b[i] {
            return false;
        }
        i += 1;
    }
    assert(a@ =~= b@);
    true
}

/// What a principal identifier names.
#[derive(Clone, Copy, Debug, PartialEq, Eq, Structural)]
pub enum PrincipalKind {
    /// An account, named by its public key.
    Account,
    /// A contract, named by its hash.
    Contract,
}

/// A principal identifier: the party that registers a schema, issues a
/// claim, or is the subject of one.
#[derive(Clone, Copy, Debug, PartialEq, Eq)]
pub struct Principal {
    pub kind: PrincipalKind,
    pub key: [u8; 32],
}

/// The view of a [`Principal`].
pub struct PrincipalView {
    pub kind: PrincipalKind,
    pub key: Seq<u8>,
}

impl View for Principal {
    type V = PrincipalView;

    open spec fn view(&self) -> PrincipalView {
        PrincipalView { kind: self.kind, key: self.key@ }
    }
}

impl Principal {
    /// The account named by `key`.
    pub fn account(key: [u8; 32]) -> (p: Principal)
        ensures
            p@ == (PrincipalView { kind: PrincipalKind::Account, key: key@ }),
    {
        Principal { kind: PrincipalKind::Account, key }
    }

    /// The contract named by `key`.
    pub fn contract(key: [u8; 32]) -> (p: Principal)
        ensures
            p@ == (PrincipalView { kind: PrincipalKind::Contract, key: key@ }),
    {
        Principal { kind: PrincipalKind::Contract, key }
    }

    /// Whether `self` and `other` name the same principal.
    pub fn same(&self, other: &Principal) -> (r: bool)
        ensures
            r == (self@ == other@),
    {
        self.kind == other.kind && bytes32_eq(&self.key, &other.key)
    }
}

/// The circumstances of one call: the principal that the caller is
/// authenticated as, and the current logical time.
#[derive(Clone, Copy, Debug, PartialEq, Eq)]
pub struct Invocation {
    pub caller: Principal,
    pub now: u64,
}

/// The view of an [`Invocation`].
pub struct InvocationView {
    pub caller: PrincipalView,
    pub now: u64,
}

impl View for Invocation {
    type V = InvocationView;

    open spec fn view(&self) -> InvocationView {
        InvocationView { caller: self.caller@, now: self.now }
    }
}

impl Invocation {
    /// A call by `caller` at time `now`.
    pub fn new(caller: Principal, now: u64) -> (ctx: Invocation)
        ensures
            ctx@ == (InvocationView { caller: caller@, now }),
    {
        Invocation { caller, now }
    }

    /// Succeeds if the caller is authenticated as `principal`, and fails
    /// with [`Error::Unauthorized`] if not.
    pub fn require_auth(&self, principal: &Principal) -> (r: Result<(), Error>)
        ensures
            r == if self@.caller == principal@ {
                Ok::<(), Error>(())
            } else {
                Err::<(), Error>(Error::Unauthorized)
            },
    {
        if self.caller.same(principal) {
            Ok(())
        } else {
            Err(Error::Unauthorized)
        }
    }
}

/// The code of [`AttesterMode::Permissionless`].
pub const MODE_PERMISSIONLESS: u32 = 0;

/// The code of [`AttesterMode::IssuerOnly`].
pub const MODE_ISSUER_ONLY: u32 = 1;

/// Who may issue attestations under a schema.
#[derive(Clone, Copy, Debug, PartialEq, Eq, Structural)]
pub enum AttesterMode {
    /// Anyone may attest.
    Permissionless,
    /// Only the schema's creator may attest.
    IssuerOnly,
}

/// The mode that a code stands for, if it stands for one.
pub open spec fn mode_of_code(code: u32) -> Option<AttesterMode> {
    if code == MODE_PERMISSIONLESS {
        Some(AttesterMode::Permissionless)
    } else if code == MODE_ISSUER_ONLY {
        Some(AttesterMode::IssuerOnly)
    } else {
        None
    }
}

/// The code that stands for a mode.
pub open spec fn code_of_mode(mode: AttesterMode) -> u32 {
    match mode {
        AttesterMode::Permissionless => MODE_PERMISSIONLESS,
        AttesterMode::IssuerOnly => MODE_ISSUER_ONLY,
    }
}

impl AttesterMode {
    /// Reads a mode from its code.
    pub fn from_code(code: u32) -> (r: Option<AttesterMode>)
        ensures
            r == mode_of_code(code),
    {
        if code == MODE_PERMISSIONLESS {
            Some(AttesterMode::Permissionless)
        } else if code == MODE_ISSUER_ONLY {
            Some(AttesterMode::IssuerOnly)
        } else {
            None
        }
    }

    /// The code of this mode.
    pub fn code(&self) -> (c: u32)
        ensures
            c == code_of_mode(*self),
            mode_of_code(c) == Some(*self),
    {
        match self {
            AttesterMode::Permissionless => MODE_PERMISSIONLESS,
            AttesterMode::IssuerOnly => MODE_ISSUER_ONLY,
        }
    }
}

/// A registered template for a class of attestations. It never changes once
/// it is registered, and it is known by its content hash.
#[derive(Clone, Copy, Debug, PartialEq, Eq)]
pub struct Schema {
    /// The hash of the schema document; it is the schema's identifier.
    pub schema_uri_hash: [u8; 32],
    /// The principal that registered the schema.
    pub creator: Principal,
    /// Whether attestations under this schema may be revoked.
    pub revocable: bool,
    /// Whether attestations under this schema may carry an expiration.
    pub expires_allowed: bool,
    /// Who may attest under this schema.
    pub attester_mode: AttesterMode,
}

/// The view of a [`Schema`].
pub struct SchemaView {
    pub schema_uri_hash: Seq<u8>,
    pub creator: PrincipalView,
    pub revocable: bool,
    pub expires_allowed: bool,
    pub attester_mode: AttesterMode,
}

impl View for Schema {
    type V = SchemaView;

    open spec fn view(&self) -> SchemaView {
        SchemaView {
            schema_uri_hash: self.schema_uri_hash@,
            creator: self.creator@,
            revocable: self.revocable,
            expires_allowed: self.expires_allowed,
            attester_mode: self.attester_mode,
        }
    }
}

/// One claim by an attester about a subject, made under a schema.
#[derive(Clone, Copy, Debug, PartialEq, Eq)]
pub struct Attestation {
    /// The identifier of the schema that governs the claim.
    pub schema_id: [u8; 32],
    /// The principal that issued the claim.
    pub attester: Principal,
    /// The principal that the claim is about.
    pub subject: Principal,
    /// The hash of the claim's payload.
    pub data_hash: [u8; 32],
    /// The logical time of issuance.
    pub timestamp: u64,
    /// The logical time from which the claim counts as expired, if any.
    pub expiration: Option<u64>,
    /// Whether the claim has been revoked.
    pub revoked: bool,
}

/// The view of an [`Attestation`].
pub struct AttestationView {
    pub schema_id: Seq<u8>,
    pub attester: PrincipalView,
    pub subject: PrincipalView,
    pub data_hash: Seq<u8>,
    pub timestamp: u64,
    pub expiration: Option<u64>,
    pub revoked: bool,
}

impl View for Attestation {
    type V = AttestationView;

    open spec fn view(&self) -> AttestationView {
        AttestationView {
            schema_id: self.schema_id@,
            attester: self.attester@,
            subject: self.subject@,
            data_hash: self.data_hash@,
            timestamp: self.timestamp,
            expiration: self.expiration,
            revoked: self.revoked,
        }
    }
}

/// The standing of an attestation at one point in time.
#[derive(Clone, Copy, Debug, PartialEq, Eq)]
pub struct VerifyResult {
    /// Always true: an unknown identifier has no result at all.
    pub exists: bool,
    /// Neither revoked nor expired.
    pub valid: bool,
    pub revoked: bool,
    pub expired: bool,
    pub schema_id: [u8; 32],
    pub attester: Principal,
    pub subject: Principal,
    pub data_hash: [u8; 32],
    pub timestamp: u64,
    pub expiration: Option<u64>,
}

/// The view of a [`VerifyResult`].
pub struct VerifyResultView {
    pub exists: bool,
    pub valid: bool,
    pub revoked: bool,
    pub expired: bool,
    pub schema_id: Seq<u8>,
    pub attester: PrincipalView,
    pub subject: PrincipalView,
    pub data_hash: Seq<u8>,
    pub timestamp: u64,
    pub expiration: Option<u64>,
}

impl View for VerifyResult {
    type V = VerifyResultView;

    open spec fn view(&self) -> VerifyResultView {
        VerifyResultView {
            exists: self.exists,
            valid: self.valid,
            revoked: self.revoked,
            expired: self.expired,
            schema_id: self.schema_id@,
            attester: self.attester@,
            subject: self.subject@,
            data_hash: self.data_hash@,
            timestamp: self.timestamp,
            expiration: self.expiration,
        }
    }
}

/// A notification of a change to the registry.
#[derive(Clone, Copy, Debug, PartialEq, Eq)]
pub enum Event {
    /// A schema was registered.
    SchemaCreated {
        schema_id: [u8; 32],
        creator: Principal,
        schema_uri_hash: [u8; 32],
        revocable: bool,
        expires_allowed: bool,
        attester_mode: AttesterMode,
        created_time: u64,
    },
    /// An attestation was issued.
    Attested {
        attestation_id: [u8; 32],
        schema_id: [u8; 32],
        attester: Principal,
        subject: Principal,
        data_hash: [u8; 32],
        timestamp: u64,
        expiration: Option<u64>,
    },
    /// An attestation went from not revoked to revoked.
    Revoked { attestation_id: [u8; 32], revoker: Principal, revoked_time: u64 },
}

/// The view of an [`Event`].
pub enum EventView {
    SchemaCreated {
        schema_id: Seq<u8>,
        creator: PrincipalView,
        schema_uri_hash: Seq<u8>,
        revocable: bool,
        expires_allowed: bool,
        attester_mode: AttesterMode,
        created_time: u64,
    },
    Attested {
        attestation_id: Seq<u8>,
        schema_id: Seq<u8>,
        attester: PrincipalView,
        subject: PrincipalView,
        data_hash: Seq<u8>,
        timestamp: u64,
        expiration: Option<u64>,
    },
    Revoked { attestation_id: Seq<u8>, revoker: PrincipalView, revoked_time: u64 },
}

impl View for Event {
    type V = EventView;

    open spec fn view(&self) -> EventView {
        match *self {
            Event::SchemaCreated {
                schema_id,
                creator,
                schema_uri_hash,
                revocable,
                expires_allowed,
                attester_mode,
                created_time,
            } => EventView::SchemaCreated {
                schema_id: schema_id@,
                creator: creator@,
                schema_uri_hash: schema_uri_hash@,
                revocable,
                expires_allowed,
                attester_mode,
                created_time,
            },
            Event::Attested {
                attestation_id,
                schema_id,
                attester,
                subject,
                data_hash,
                timestamp,
                expiration,
            } => EventView::Attested {
                attestation_id: attestation_id@,
                schema_id: schema_id@,
                attester: attester@,
                subject: subject@,
                data_hash: data_hash@,
                timestamp,
                expiration,
            },
            Event::Revoked { attestation_id, revoker, revoked_time } => EventView::Revoked {
                attestation_id: attestation_id@,
                revoker: revoker@,
                revoked_time,
            },
        }
    }
}

impl Event {
    /// The topic under which the event is published.
    pub fn topic(&self) -> (t: &'static str)
        ensures
            t@ == match *self {
                Event::SchemaCreated { .. } => "SchemaCreated"@,
                Event::Attested { .. } => "Attested"@,
                Event::Revoked { .. } => "Revoked"@,
            },
    {
        match self {
            Event::SchemaCreated { .. } => "SchemaCreated",
            Event::Attested { .. } => "Attested",
            Event::Revoked { .. } => "Revoked",
        }
    }
}

/// Why a call was refused. A refused call changes nothing.
#[derive(Clone, Copy, Debug, PartialEq, Eq, Structural)]
pub enum Error {
    /// The caller is not authenticated as the principal that the call names.
    Unauthorized,
    /// No schema is registered under the identifier.
    SchemaNotFound,
    /// No attestation is stored under the identifier.
    AttestationNotFound,
    /// A schema is already registered under the identifier.
    SchemaAlreadyExists,
    /// The attester mode is none of the defined ones.
    InvalidAttesterMode,
    /// An expiration was given, and the schema allows none.
    ExpirationNotAllowed,
    /// The schema lets only its creator attest.
    IssuerOnly,
    /// The schema allows no revocation.
    NotRevocable,
    /// Only the issuer of an attestation may revoke it.
    NotAttester,
    /// The nonce is not one more than the attester's current nonce.
    BadNonce,
}

impl Error {
    /// A short name of the error.
    pub fn message(&self) -> (m: &'static str)
        ensures
            m@ == match *self {
                Error::Unauthorized => "unauthorized"@,
                Error::SchemaNotFound => "schema_not_found"@,
                Error::AttestationNotFound => "attestation_not_found"@,
                Error::SchemaAlreadyExists => "schema_already_exists"@,
                Error::InvalidAttesterMode => "invalid_attester_mode"@,
                Error::ExpirationNotAllowed => "expiration_not_allowed"@,
                Error::IssuerOnly => "issuer_only"@,
                Error::NotRevocable => "not_revocable"@,
                Error::NotAttester => "not_attester"@,
                Error::BadNonce => "bad_nonce"@,
            },
    {
        match self {
            Error::Unauthorized => "unauthorized",
            Error::SchemaNotFound => "schema_not_found",
            Error::AttestationNotFound => "attestation_not_found",
            Error::SchemaAlreadyExists => "schema_already_exists",
            Error::InvalidAttesterMode => "invalid_attester_mode",
            Error::ExpirationNotAllowed => "expiration_not_allowed",
            Error::IssuerOnly => "issuer_only",
            Error::NotRevocable => "not_revocable",
            Error::NotAttester => "not_attester",
            Error::BadNonce => "bad_nonce",
        }
    }
}

} // verus!

//! Core data types and error definitions.

use vstd::prelude::*;

verus! {

/// An on-ledger address, held as the 32 bytes that identify it.
///
/// An account address (`G...`) is identified by its ed25519 public key,
/// a contract address (`C...`) by its contract hash.
#[derive(Clone, Copy, Debug, PartialEq, Eq)]
pub enum Address {
    /// An account, identified by its ed25519 public key.
    Account([u8; 32]),
    /// A contract, identified by its contract hash.
    Contract([u8; 32]),
}

/// A single attestation record.
#[derive(Clone, Debug, PartialEq, Eq)]
pub struct Attestation {
    /// Deterministic hash-based identifier for this attestation.
    pub id: Vec<u8>,
    /// Address that created the attestation.
    pub issuer: Address,
    /// Address the attestation is about.
    pub subject: Address,
    /// Free-form claim label, e.g. `"KYC_PASSED"`.
    pub claim_type: String,
    /// Ledger timestamp (seconds) when the attestation was created.
    pub timestamp: u64,
    /// Optional Unix timestamp after which the attestation is expired.
    pub expiration: Option<u64>,
    /// `true` if the issuer has explicitly revoked this attestation.
    pub revoked: bool,
}

/// The current validity state of an attestation.
#[derive(Clone, Copy, Debug, PartialEq, Eq, Structural)]
pub enum AttestationStatus {
    /// Attestation is active and has not expired.
    Valid,
    /// Attestation has passed its expiration timestamp.
    Expired,
    /// Attestation was explicitly revoked by its issuer.
    Revoked,
}

/// Errors returned by the attestation operations.
///
/// Each variant carries a stable numeric code, given by [`Error::code`].
#[derive(Clone, Copy, Debug, PartialEq, Eq, Structural)]
pub enum Error {
    /// Initialisation was requested more than once.
    AlreadyInitialized,
    /// An operation was requested before initialisation.
    NotInitialized,
    /// The caller lacks the required admin or issuer role.
    Unauthorized,
    /// No attestation exists with the requested ID.
    NotFound,
    /// An attestation with the same deterministic ID already exists.
    DuplicateAttestation,
    /// The attestation has already been revoked.
    AlreadyRevoked,
    /// The attestation has passed its expiration timestamp.
    Expired,
}

/// The numeric code of each error: 1 through 7, in declaration order.
pub open spec fn error_code(e: Error) -> u32 {
    match e {
        Error::AlreadyInitialized => 1,
        Error::NotInitialized => 2,
        Error::Unauthorized => 3,
        Error::NotFound => 4,
        Error::DuplicateAttestation => 5,
        Error::AlreadyRevoked => 6,
        Error::Expired => 7,
    }
}

impl Error {
    /// The stable numeric code of this error.
    pub fn code(&self) -> (c: u32)
        ensures
            c == error_code(*self),
    {
        match self {
            Error::AlreadyInitialized => 1,
            Error::NotInitialized => 2,
            Error::Unauthorized => 3,
            Error::NotFound => 4,
            Error::DuplicateAttestation => 5,
            Error::AlreadyRevoked => 6,
            Error::Expired => 7,
        }
    }

    /// The error whose code is `code`, if there is one.
    pub fn from_code(code: u32) -> (e: Option<Error>)
        ensures
            e matches Some(err) ==> error_code(err) == code,
            e is None <==> !(1 <= code <= 7),
    {
        match code {
            1 => Some(Error::AlreadyInitialized),
            2 => Some(Error::NotInitialized),
            3 => Some(Error::Unauthorized),
            4 => Some(Error::NotFound),
            5 => Some(Error::DuplicateAttestation),
            6 => Some(Error::AlreadyRevoked),
            7 => Some(Error::Expired),
            _ => None,
        }
    }
}

/// Every error has a code in `1..=7`, and distinct errors have distinct
/// codes; with the contract of [`Error::from_code`], decoding an error's code
/// gives back that error.
pub proof fn lemma_error_codes_are_distinct(e: Error, f: Error)
    ensures
        1 <= error_code(e) <= 7,
        error_code(e) == error_code(f) ==> e == f,
{
}

impl Attestation {
    /// Whether the attestation has an expiration that `current_time` has
    /// passed (strictly).
    pub open spec fn is_expired_at(self, current_time: u64) -> bool {
        match self.expiration {
            Some(exp) => current_time > exp,
            None => false,
        }
    }

    /// The status of the attestation at `current_time`: revocation first,
    /// then expiration, otherwise valid.
    pub open spec fn status_at(self, current_time: u64) -> AttestationStatus {
        if self.revoked {
            AttestationStatus::Revoked
        } else if self.is_expired_at(current_time) {
            AttestationStatus::Expired
        } else {
            AttestationStatus::Valid
        }
    }

    /// Compute the current [`AttestationStatus`] given `current_time`.
    ///
    /// Revocation takes precedence: a revoked attestation always returns
    /// [`AttestationStatus::Revoked`] regardless of its expiration field.
    pub fn get_status(&self, current_time: u64) -> (status: AttestationStatus)
        ensures
            status == self.status_at(current_time),
            self.revoked ==> status == AttestationStatus::Revoked,
            status == AttestationStatus::Expired <==> !self.revoked && self.is_expired_at(
                current_time,
            ),
            status == AttestationStatus::Valid <==> !self.revoked && !self.is_expired_at(
                current_time,
            ),
    {
        if self.revoked {
            return AttestationStatus::Revoked;
        }
        if let Some(exp) = self.expiration {
            if current_time > exp {
                return AttestationStatus::Expired;
            }
        }
        AttestationStatus::Valid
    }
}

/// Once an attestation is expired it stays expired at every later time.
pub proof fn lemma_expired_stays_expired(a: Attestation, t1: u64, t2: u64)
    requires
        t1 <= t2,
        a.status_at(t1) == AttestationStatus::Expired,
    ensures
        a.status_at(t2) == AttestationStatus::Expired,
{
}

/// An attestation valid at some time was valid at every earlier time.
pub proof fn lemma_valid_at_earlier_times(a: Attestation, t1: u64, t2: u64)
    requires
        t1 <= t2,
        a.status_at(t2) == AttestationStatus::Valid,
    ensures
        a.status_at(t1) == AttestationStatus::Valid,
{
}

/// Revocation does not depend on time: a revoked attestation is revoked at
/// every time, and one that is not revoked is never reported revoked.
pub proof fn lemma_revocation_is_timeless(a: Attestation, t1: u64, t2: u64)
    ensures
        a.status_at(t1) == AttestationStatus::Revoked <==> a.revoked,
        a.status_at(t1) == AttestationStatus::Revoked <==> a.status_at(t2)
            == AttestationStatus::Revoked,
{
}

/// Without an expiration an attestation that is not revoked is valid at
/// every time.
pub proof fn lemma_no_expiration_never_expires(a: Attestation, t: u64)
    requires
        a.expiration is None,
        !a.revoked,
    ensures
        a.status_at(t) == AttestationStatus::Valid,
{
}

} // verus!

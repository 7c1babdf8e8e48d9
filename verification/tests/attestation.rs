use soroban_sdk::xdr::{AccountId, PublicKey, ScAddress, ToXdr, Uint256};
use soroban_sdk::{Env, TryFromVal};
use trustlink::id::{id_from_digest, ID_LEN};
use trustlink::{Address, Attestation, AttestationStatus, Error};

fn sample(revoked: bool, expiration: Option<u64>) -> Attestation {
    Attestation {
        id: vec![0u8; 16],
        issuer: Address::Account([1u8; 32]),
        subject: Address::Contract([2u8; 32]),
        claim_type: String::from("KYC_PASSED"),
        timestamp: 1_000,
        expiration,
        revoked,
    }
}

#[test]
fn status_is_valid_without_expiration() {
    let a = sample(false, None);
    assert_eq!(a.get_status(0), AttestationStatus::Valid);
    assert_eq!(a.get_status(u64::MAX), AttestationStatus::Valid);
}

#[test]
fn status_expires_strictly_after_expiration() {
    let now = 5_000u64;
    let a = sample(false, Some(now + 100));
    assert_eq!(a.get_status(now), AttestationStatus::Valid);
    assert_eq!(a.get_status(now + 100), AttestationStatus::Valid);
    assert_eq!(a.get_status(now + 101), AttestationStatus::Expired);
}

#[test]
fn status_imported_attestation_can_be_expired_today() {
    let mut a = sample(false, Some(2_000));
    a.timestamp = 1_000;
    assert_eq!(a.get_status(5_000), AttestationStatus::Expired);
}

#[test]
fn status_revocation_takes_precedence() {
    let expired_and_revoked = sample(true, Some(10));
    assert_eq!(expired_and_revoked.get_status(11), AttestationStatus::Revoked);
    assert_eq!(expired_and_revoked.get_status(0), AttestationStatus::Revoked);
    let revoked = sample(true, None);
    assert_eq!(revoked.get_status(123), AttestationStatus::Revoked);
}

#[test]
fn status_expired_stays_expired_and_valid_was_valid() {
    let a = sample(false, Some(100));
    assert_eq!(a.get_status(101), AttestationStatus::Expired);
    assert_eq!(a.get_status(1_000_000), AttestationStatus::Expired);
    assert_eq!(a.get_status(100), AttestationStatus::Valid);
    assert_eq!(a.get_status(1), AttestationStatus::Valid);
}

#[test]
fn error_codes_are_stable() {
    let all = [
        Error::AlreadyInitialized,
        Error::NotInitialized,
        Error::Unauthorized,
        Error::NotFound,
        Error::DuplicateAttestation,
        Error::AlreadyRevoked,
        Error::Expired,
    ];
    for (i, e) in all.iter().enumerate() {
        assert_eq!(e.code(), i as u32 + 1);
        assert_eq!(Error::from_code(e.code()), Some(*e));
    }
    assert_eq!(Error::DuplicateAttestation.code(), 5);
}

#[test]
fn error_from_unknown_code_is_none() {
    assert_eq!(Error::from_code(0), None);
    assert_eq!(Error::from_code(8), None);
    assert_eq!(Error::from_code(u32::MAX), None);
}

#[test]
fn id_from_digest_keeps_first_sixteen_bytes() {
    let mut digest = [0u8; 32];
    for (i, b) in digest.iter_mut().enumerate() {
        *b = i as u8;
    }
    let id = id_from_digest(&digest);
    assert_eq!(id, (0u8..16).collect::<Vec<u8>>());
    assert_eq!(id.len(), ID_LEN);
}

fn host_address(env: &Env, a: &Address) -> soroban_sdk::Address {
    let sc = match *a {
        Address::Account(k) => {
            ScAddress::Account(AccountId(PublicKey::PublicKeyTypeEd25519(Uint256(k))))
        }
        Address::Contract(h) => ScAddress::Contract(soroban_sdk::xdr::Hash(h)),
    };
    soroban_sdk::Address::try_from_val(env, &sc).unwrap()
}

#[test]
fn generate_id_is_prefix_of_sha256_of_xdr() {
    let env = Env::default();
    let issuer = Address::Account([7u8; 32]);
    let subject = Address::Contract([9u8; 32]);
    let claim = String::from("KYC_PASSED");
    let id = Attestation::generate_id(&env, &issuer, &subject, &claim, 1_000);

    let data = (
        host_address(&env, &issuer),
        host_address(&env, &subject),
        soroban_sdk::String::from_str(&env, "KYC_PASSED"),
        1_000u64,
    );
    let digest = env.crypto().sha256(&data.to_xdr(&env)).to_array();
    assert_eq!(id.len(), 16);
    assert_eq!(id[..], digest[..16]);
}

#[test]
fn generate_id_is_deterministic() {
    let env = Env::default();
    let other_env = Env::default();
    let issuer = Address::Account([3u8; 32]);
    let subject = Address::Account([4u8; 32]);
    let claim = String::from("ACCREDITED_INVESTOR");
    let a = Attestation::generate_id(&env, &issuer, &subject, &claim, 42);
    let b = Attestation::generate_id(&env, &issuer, &subject, &claim, 42);
    let c = Attestation::generate_id(&other_env, &issuer, &subject, &claim, 42);
    assert_eq!(a, b);
    assert_eq!(a, c);
}

#[test]
fn generate_id_depends_on_every_part() {
    let env = Env::default();
    let issuer = Address::Account([3u8; 32]);
    let subject = Address::Account([4u8; 32]);
    let claim = String::from("KYC_PASSED");
    let base = Attestation::generate_id(&env, &issuer, &subject, &claim, 1_000);
    let later = Attestation::generate_id(&env, &issuer, &subject, &claim, 1_001);
    let swapped = Attestation::generate_id(&env, &subject, &issuer, &claim, 1_000);
    let as_contract =
        Attestation::generate_id(&env, &Address::Contract([3u8; 32]), &subject, &claim, 1_000);
    let other_claim =
        Attestation::generate_id(&env, &issuer, &subject, &String::from("AML_CLEARED"), 1_000);
    assert_ne!(base, later);
    assert_ne!(base, swapped);
    assert_ne!(base, as_contract);
    assert_ne!(base, other_claim);
}

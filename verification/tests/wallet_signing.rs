use opbnb_quantum::crypto::sig::{generate_dilithium_keys, sign_message, verify_message};
use opbnb_quantum::wallet::kdf::CostParams;
use opbnb_quantum::wallet::loader::{generate_container, load, load_public_key, load_wallet};
use opbnb_quantum::wallet::record::LoadedWallet;
use opbnb_quantum::wallet::secret::Password;
use opbnb_quantum::wallet::signing::{
    check_signature, generate_record, sign_with_wallet, tamper, KeyError,
};

fn small() -> CostParams {
    CostParams { m_cost_kib: 8, t_cost: 1, p_cost: 1 }
}

#[test]
fn tampering_changes_the_lowest_bit_of_the_first_byte() {
    assert_eq!(tamper(b""), vec![1]);
    assert_eq!(tamper(&[0]), vec![1]);
    assert_eq!(tamper(&[1]), vec![0]);
    assert_eq!(tamper(&[0xff, 7, 8]), vec![0xfe, 7, 8]);
    assert_eq!(tamper(b"abc"), b"`bc".to_vec());
    assert_eq!(tamper(&tamper(b"abc")), b"abc".to_vec());
}

#[test]
fn signing_with_a_wallet_signs_checks_and_wipes() {
    let keys = generate_dilithium_keys();
    let mut wallet = LoadedWallet { pk: keys.public_key.clone(), sk: keys.secret_key.clone() };
    let report = sign_with_wallet(&mut wallet, b"pay Bob 5").ok().unwrap();
    assert_eq!(report.signature, sign_message(&keys.secret_key, b"pay Bob 5").bytes);
    assert!(report.message_verifies);
    assert!(!report.tampered_verifies);
    assert!(wallet.sk.is_empty());
    assert_eq!(wallet.pk, keys.public_key);
    assert!(verify_message(&report.signature, &keys.public_key, b"pay Bob 5"));
}

#[test]
fn signing_an_empty_message_works() {
    let keys = generate_dilithium_keys();
    let mut wallet = LoadedWallet { pk: keys.public_key, sk: keys.secret_key };
    let report = sign_with_wallet(&mut wallet, b"").ok().unwrap();
    assert!(report.message_verifies);
    assert!(!report.tampered_verifies);
    assert_eq!(report.signature.len(), 4627);
}

#[test]
fn signing_with_a_public_key_of_another_wallet_is_found_out() {
    let keys = generate_dilithium_keys();
    let other = generate_dilithium_keys();
    let mut wallet = LoadedWallet { pk: other.public_key, sk: keys.secret_key };
    let report = sign_with_wallet(&mut wallet, b"m").ok().unwrap();
    assert!(!report.message_verifies);
    assert!(!report.tampered_verifies);
}

#[test]
fn keys_of_a_wrong_length_are_refused_and_the_secret_is_wiped_all_the_same() {
    let keys = generate_dilithium_keys();
    let mut wallet = LoadedWallet { pk: keys.public_key.clone(), sk: vec![1, 2, 3] };
    assert!(matches!(sign_with_wallet(&mut wallet, b"m"), Err(KeyError::BadSecretKey)));
    assert!(wallet.sk.is_empty());

    let mut wallet = LoadedWallet { pk: vec![9; 10], sk: keys.secret_key.clone() };
    assert!(matches!(sign_with_wallet(&mut wallet, b"m"), Err(KeyError::BadPublicKey)));
    assert!(wallet.sk.is_empty());

    // The secret key is judged first.
    let mut wallet = LoadedWallet { pk: vec![], sk: vec![] };
    assert!(matches!(sign_with_wallet(&mut wallet, b"m"), Err(KeyError::BadSecretKey)));
}

#[test]
fn checking_a_signature_says_whether_it_verifies() {
    let keys = generate_dilithium_keys();
    let sig = sign_message(&keys.secret_key, b"message").bytes;
    assert_eq!(check_signature(&sig, &keys.public_key, b"message"), Ok(true));
    assert_eq!(check_signature(&sig, &keys.public_key, b"massage"), Ok(false));
    assert_eq!(check_signature(&sig[..100], &keys.public_key, b"message"), Ok(false));
    assert_eq!(check_signature(&[], &keys.public_key, b"message"), Ok(false));
    let mut long = sig.clone();
    long.push(0);
    assert_eq!(
        check_signature(&long, &keys.public_key, b"message"),
        Err(KeyError::SignatureTooLong)
    );
    assert_eq!(check_signature(&sig, &keys.public_key[1..], b"message"), Err(KeyError::BadPublicKey));
    // The signature is judged first.
    assert_eq!(check_signature(&long, &[], b"message"), Err(KeyError::SignatureTooLong));
}

#[test]
fn a_new_wallet_has_a_fresh_pair_of_each_scheme() {
    let a = generate_record();
    let b = generate_record();
    assert_eq!(a.kyber_public.len(), 1568);
    assert_eq!(a.kyber_secret.len(), 3168);
    assert_eq!(a.ntru_public.len(), 1230);
    assert_eq!(a.ntru_secret.len(), 1590);
    assert_eq!(a.dilithium_public.len(), 2592);
    assert_eq!(a.dilithium_secret.len(), 4896);
    assert_ne!(a.kyber_public, b.kyber_public);
    assert_ne!(a.ntru_public, b.ntru_public);
    assert_ne!(a.dilithium_public, b.dilithium_public);
}

#[test]
fn generate_load_sign_verify() {
    let record = generate_record();
    let password = Password::from_text("correct horse");
    let bytes = generate_container(&record, &password, small()).unwrap();

    let loaded = load(&bytes, &password).unwrap();
    assert_eq!(loaded.kyber_public, record.kyber_public);
    assert_eq!(loaded.kyber_secret, record.kyber_secret);
    assert_eq!(loaded.ntru_public, record.ntru_public);
    assert_eq!(loaded.ntru_secret, record.ntru_secret);
    assert_eq!(loaded.dilithium_public, record.dilithium_public);
    assert_eq!(loaded.dilithium_secret, record.dilithium_secret);
    assert_eq!(loaded.fingerprints(), record.fingerprints());

    let mut wallet = load_wallet(&bytes, &password).unwrap();
    let report = sign_with_wallet(&mut wallet, b"hello").ok().unwrap();
    assert!(report.message_verifies && !report.tampered_verifies);

    let public = load_public_key(&bytes, &password).unwrap();
    assert_eq!(check_signature(&report.signature, &public, b"hello"), Ok(true));
    assert_eq!(check_signature(&report.signature, &public, b"hellp"), Ok(false));
}

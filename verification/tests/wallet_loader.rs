use opbnb_quantum::wallet::aead::encrypt;
use opbnb_quantum::wallet::container::decode;
use opbnb_quantum::wallet::envelope::FormatError;
use opbnb_quantum::wallet::kdf::{derive_key, CostParams, KdfError};
use opbnb_quantum::wallet::loader::{
    generate_container, load, load_public_key, load_wallet, open_container, seal_payload,
    seal_record, LoadError, SealError,
};
use opbnb_quantum::wallet::record::WalletSecretRecord;
use opbnb_quantum::wallet::secret::Password;

const SALT: [u8; 16] = [0x10, 0x11, 0x12, 0x13, 0x14, 0x15, 0x16, 0x17, 0x18, 0x19, 0x1a, 0x1b,
    0x1c, 0x1d, 0x1e, 0x1f];
const NONCE: [u8; 12] = [0, 1, 2, 3, 4, 5, 6, 7, 8, 9, 10, 11];

fn small() -> CostParams {
    CostParams { m_cost_kib: 8, t_cost: 1, p_cost: 1 }
}

fn six_blobs() -> WalletSecretRecord {
    WalletSecretRecord {
        kyber_public: vec![1, 2, 3],
        kyber_secret: vec![4, 5, 6, 7],
        ntru_public: vec![8],
        ntru_secret: vec![9, 10],
        dilithium_public: vec![11, 12, 13, 14, 15],
        dilithium_secret: vec![255, 0, 128],
    }
}

fn assert_same(a: &WalletSecretRecord, b: &WalletSecretRecord) {
    assert_eq!(a.kyber_public, b.kyber_public);
    assert_eq!(a.kyber_secret, b.kyber_secret);
    assert_eq!(a.ntru_public, b.ntru_public);
    assert_eq!(a.ntru_secret, b.ntru_secret);
    assert_eq!(a.dilithium_public, b.dilithium_public);
    assert_eq!(a.dilithium_secret, b.dilithium_secret);
}

fn err_of<T>(r: Result<T, LoadError>) -> LoadError {
    match r {
        Ok(_) => panic!("loaded"),
        Err(e) => e,
    }
}

fn scenario_container() -> Vec<u8> {
    let costs = CostParams { m_cost_kib: 65536, t_cost: 3, p_cost: 1 };
    generate_container(&six_blobs(), &Password::from_text("correct-password"), costs).unwrap()
}

fn legacy_container(password: &str, salt: &[u8], inner: &[u8]) -> Vec<u8> {
    let key = derive_key(&Password::from_text(password), salt, CostParams::legacy()).unwrap();
    let ct = encrypt(&key, &NONCE, inner, b"wallet-v1");
    format!(
        "{{\"salt\": \"{}\", \"nonce\": \" {}\\n\", \"ciphertext\": \"{}\"}}",
        hex::encode(salt),
        hex::encode(NONCE),
        hex::encode_upper(ct)
    )
    .into_bytes()
}

#[test]
fn scenario_correct_password_returns_the_six_blobs() {
    let bytes = scenario_container();
    assert_eq!(&bytes[..4], b"QSW1");
    assert_eq!(&bytes[6..18], &[0, 0, 1, 0, 3, 0, 0, 0, 1, 0, 0, 0]);
    let record = load(&bytes, &Password::from_text("correct-password")).unwrap();
    assert_same(&record, &six_blobs());
}

#[test]
fn scenario_wrong_password_is_an_authentication_error() {
    let bytes = scenario_container();
    assert_eq!(err_of(load(&bytes, &Password::from_text("wrong-password"))), LoadError::Authentication);
}

#[test]
fn scenario_corrupting_offset_40_is_an_authentication_error() {
    let mut bytes = scenario_container();
    bytes[40] ^= 0xff;
    assert_eq!(
        err_of(load(&bytes, &Password::from_text("correct-password"))),
        LoadError::Authentication
    );
}

#[test]
fn scenario_corrupting_offset_20_is_an_authentication_error() {
    let mut bytes = scenario_container();
    let ciphertext = bytes[46..].to_vec();
    bytes[20] ^= 0xff;
    assert_eq!(&bytes[46..], &ciphertext[..]);
    assert_eq!(
        err_of(load(&bytes, &Password::from_text("correct-password"))),
        LoadError::Authentication
    );
}

#[test]
fn sealing_then_loading_recovers_the_record() {
    let password = Password::from_text("p");
    let bytes = seal_record(&six_blobs(), &password, small(), SALT, NONCE).unwrap();
    assert_same(&load(&bytes, &password).unwrap(), &six_blobs());
    let empty = WalletSecretRecord {
        kyber_public: vec![],
        kyber_secret: vec![],
        ntru_public: vec![],
        ntru_secret: vec![],
        dilithium_public: vec![],
        dilithium_secret: vec![],
    };
    let bytes = seal_record(&empty, &password, small(), SALT, NONCE).unwrap();
    assert_same(&load(&bytes, &password).unwrap(), &empty);
}

#[test]
fn sealing_then_opening_recovers_any_payload() {
    let password = Password::from_text("p");
    for payload in [&b""[..], &b"x"[..], &b"\x00\xff not a record at all"[..]] {
        let bytes = seal_payload(payload, &password, small(), SALT, NONCE).unwrap();
        assert_eq!(bytes.len(), 46 + payload.len() + 16);
        let container = decode(&bytes).unwrap();
        assert_eq!(open_container(&container, &password).ok(), Some(payload.to_vec()));
    }
}

#[test]
fn sealing_is_a_function_of_its_input() {
    let password = Password::from_text("p");
    let a = seal_record(&six_blobs(), &password, small(), SALT, NONCE).unwrap();
    let b = seal_record(&six_blobs(), &password, small(), SALT, NONCE).unwrap();
    assert_eq!(a, b);
    assert_eq!(&a[18..34], &SALT);
    assert_eq!(&a[34..46], &NONCE);
    assert_eq!(&a[6..18], &[8, 0, 0, 0, 1, 0, 0, 0, 1, 0, 0, 0]);
}

#[test]
fn two_generated_containers_differ_in_salt_nonce_and_ciphertext() {
    let password = Password::from_text("p");
    let a = generate_container(&six_blobs(), &password, small()).unwrap();
    let b = generate_container(&six_blobs(), &password, small()).unwrap();
    assert_eq!(a.len(), b.len());
    assert_eq!(&a[..18], &b[..18]);
    assert_ne!(&a[18..34], &b[18..34]);
    assert_ne!(&a[34..46], &b[34..46]);
    assert_ne!(&a[46..], &b[46..]);
    assert_ne!(&a[18..34], &[0u8; 16]);
    assert_ne!(&a[34..46], &[0u8; 12]);
    assert_same(&load(&a, &password).unwrap(), &six_blobs());
    assert_same(&load(&b, &password).unwrap(), &six_blobs());
}

#[test]
fn every_bit_of_a_container_is_guarded() {
    let password = Password::from_text("p");
    let bytes = seal_record(&six_blobs(), &password, small(), SALT, NONCE).unwrap();
    for at in 0..bytes.len() {
        let mut bad = bytes.clone();
        bad[at] ^= 1 << (at % 8);
        match load(&bad, &password) {
            Ok(_) => panic!("byte {} escaped", at),
            Err(LoadError::Deserialization) => panic!("byte {} reached the record", at),
            Err(_) => {},
        }
    }
}

#[test]
fn header_bytes_that_stay_well_formed_fail_at_the_tag() {
    let password = Password::from_text("p");
    let bytes = seal_record(&six_blobs(), &password, small(), SALT, NONCE).unwrap();
    // The time cost and the salt stay acceptable: only the tag can tell.
    for at in [10usize, 18, 20, 33, 34, 40, 45, 46, bytes.len() - 1] {
        let mut bad = bytes.clone();
        bad[at] ^= 0x02;
        assert_eq!(err_of(load(&bad, &password)), LoadError::Authentication, "byte {}", at);
    }
}

#[test]
fn format_errors_come_before_any_key_is_derived() {
    let password = Password::from_text("p");
    // Costs that would take long, or be refused, if they were ever used.
    let mut bytes = seal_record(&six_blobs(), &password, small(), SALT, NONCE).unwrap();
    bytes[6..18].copy_from_slice(&[255, 255, 255, 127, 255, 255, 255, 255, 0, 0, 0, 0]);
    let mut bad = bytes.clone();
    bad[4] = 2;
    assert_eq!(err_of(load(&bad, &password)), LoadError::Format(FormatError::UnsupportedVersion(2)));
    let mut bad = bytes.clone();
    bad[5] = 2;
    assert_eq!(err_of(load(&bad, &password)), LoadError::Format(FormatError::UnsupportedKdf(2)));
    assert_eq!(err_of(load(&bytes[..45], &password)), LoadError::Format(FormatError::Truncated));
    assert_eq!(err_of(load(b"junk", &password)), LoadError::Format(FormatError::LegacyNotARecord));
    assert_eq!(err_of(load_wallet(b"junk", &password)), LoadError::Format(FormatError::LegacyNotARecord));
    assert_eq!(
        err_of(load_public_key(b"QSW1", &password)),
        LoadError::Format(FormatError::Truncated)
    );
}

#[test]
fn costs_that_the_hashing_stage_refuses_are_reported() {
    let password = Password::from_text("p");
    let mut bytes = seal_record(&six_blobs(), &password, small(), SALT, NONCE).unwrap();
    bytes[6] = 7;
    assert_eq!(err_of(load(&bytes, &password)), LoadError::Kdf(KdfError::MemoryTooLittle));
    bytes[6] = 8;
    bytes[10] = 0;
    assert_eq!(err_of(load(&bytes, &password)), LoadError::Kdf(KdfError::TimeTooSmall));
    bytes[10] = 1;
    bytes[14] = 0;
    assert_eq!(err_of(load(&bytes, &password)), LoadError::Kdf(KdfError::ThreadsTooFew));
    bytes[14] = 2;
    assert_eq!(err_of(load(&bytes, &password)), LoadError::Kdf(KdfError::MemoryTooLittle));
    bytes[6..10].copy_from_slice(&[255, 255, 255, 255]);
    bytes[14..18].copy_from_slice(&[0, 0, 0, 1]);
    assert_eq!(err_of(load(&bytes, &password)), LoadError::Kdf(KdfError::ThreadsTooMany));
    // A header that asks for 32 GiB is refused before anything is allocated.
    bytes[6..10].copy_from_slice(&[8, 0, 0, 2]);
    bytes[14..18].copy_from_slice(&[1, 0, 0, 0]);
    assert_eq!(err_of(load(&bytes, &password)), LoadError::Kdf(KdfError::MemoryTooLarge));
    bytes[6..10].copy_from_slice(&[1, 0, 16, 0]);
    assert_eq!(err_of(load(&bytes, &password)), LoadError::Kdf(KdfError::MemoryTooLarge));
    // So is one that asks for a million passes.
    bytes[6..10].copy_from_slice(&[8, 0, 0, 0]);
    bytes[10..14].copy_from_slice(&[0, 0, 16, 0]);
    assert_eq!(err_of(load(&bytes, &password)), LoadError::Kdf(KdfError::TimeTooLarge));

    let bad = CostParams { m_cost_kib: 1, t_cost: 1, p_cost: 1 };
    assert_eq!(
        seal_record(&six_blobs(), &password, bad, SALT, NONCE),
        Err(SealError::Kdf(KdfError::MemoryTooLittle))
    );
    assert_eq!(
        generate_container(&six_blobs(), &password, bad),
        Err(SealError::Kdf(KdfError::MemoryTooLittle))
    );
    assert_eq!(
        seal_payload(b"x", &password, CostParams { m_cost_kib: 8, t_cost: 0, p_cost: 1 }, SALT, NONCE),
        Err(SealError::Kdf(KdfError::TimeTooSmall))
    );
}

#[test]
fn a_plaintext_that_is_no_record_is_a_deserialization_error() {
    let password = Password::from_text("p");
    for payload in [
        &b"not json"[..],
        &b"{}"[..],
        &b"[]"[..],
        &b"{\"kyber_public\":[1],\"kyber_secret\":[2],\"ntru_public\":[3],\"ntru_secret\":[4],\"dilithium_public\":[5]}"[..],
        &b"{\"kyber_public\":[1],\"kyber_secret\":[2],\"ntru_public\":[3],\"ntru_secret\":[4],\"dilithium_public\":[5],\"dilithium_secret\":[256]}"[..],
        &b"{\"kyber_public\":[1],\"kyber_secret\":[2],\"ntru_public\":[3],\"ntru_secret\":[4],\"dilithium_public\":[5],\"dilithium_secret\":\"06\"}"[..],
    ] {
        let bytes = seal_payload(payload, &password, small(), SALT, NONCE).unwrap();
        assert_eq!(err_of(load(&bytes, &password)), LoadError::Deserialization);
        assert_eq!(err_of(load_wallet(&bytes, &password)), LoadError::Deserialization);
        assert_eq!(err_of(load_public_key(&bytes, &password)), LoadError::Deserialization);
    }
}

#[test]
fn a_plaintext_in_any_field_order_is_a_record() {
    let password = Password::from_text("p");
    let payload = b" {\"ntru_secret\":[4], \"kyber_public\":[1],\"dilithium_secret\":[6,7],\n\"kyber_secret\":[2],\"ntru_public\":[],\"dilithium_public\":[5]} ";
    let bytes = seal_payload(payload, &password, small(), SALT, NONCE).unwrap();
    let record = load(&bytes, &password).unwrap();
    assert_eq!(record.kyber_public, vec![1]);
    assert_eq!(record.kyber_secret, vec![2]);
    assert_eq!(record.ntru_public, Vec::<u8>::new());
    assert_eq!(record.ntru_secret, vec![4]);
    assert_eq!(record.dilithium_public, vec![5]);
    assert_eq!(record.dilithium_secret, vec![6, 7]);
}

#[test]
fn loading_for_signing_gives_the_signature_pair() {
    let password = Password::from_text("p");
    let bytes = seal_record(&six_blobs(), &password, small(), SALT, NONCE).unwrap();
    let pair = load_wallet(&bytes, &password).unwrap();
    assert_eq!(pair.pk, vec![11, 12, 13, 14, 15]);
    assert_eq!(pair.sk, vec![255, 0, 128]);
    assert_eq!(load_public_key(&bytes, &password).ok(), Some(vec![11, 12, 13, 14, 15]));
    assert_eq!(
        err_of(load_wallet(&bytes, &Password::from_text("q"))),
        LoadError::Authentication
    );
    assert_eq!(
        err_of(load_public_key(&bytes, &Password::from_text("q"))),
        LoadError::Authentication
    );
}

#[test]
fn a_text_container_loads_under_the_fixed_costs() {
    let inner = b"{\"dilithium_public\": \" 0b0C0d \", \"dilithium_secret\": \"ff0080\"}";
    let bytes = legacy_container("legacy-pw", &SALT, inner);
    let password = Password::from_text("legacy-pw");
    let record = load(&bytes, &password).unwrap();
    assert_eq!(record.dilithium_public, vec![0x0b, 0x0c, 0x0d]);
    assert_eq!(record.dilithium_secret, vec![0xff, 0x00, 0x80]);
    assert!(record.kyber_public.is_empty());
    assert!(record.kyber_secret.is_empty());
    assert!(record.ntru_public.is_empty());
    assert!(record.ntru_secret.is_empty());
    let pair = load_wallet(&bytes, &password).unwrap();
    assert_eq!(pair.pk, vec![0x0b, 0x0c, 0x0d]);
    assert_eq!(pair.sk, vec![0xff, 0x00, 0x80]);
    assert_eq!(load_public_key(&bytes, &password).ok(), Some(vec![0x0b, 0x0c, 0x0d]));
    assert_eq!(err_of(load(&bytes, &Password::from_text("other"))), LoadError::Authentication);
}

#[test]
fn a_text_container_with_the_public_key_alone_serves_verifying_only() {
    let inner = b"{\"dilithium_public\": \"0b0c0d\"}";
    let bytes = legacy_container("legacy-pw", &SALT, inner);
    let password = Password::from_text("legacy-pw");
    assert_eq!(load_public_key(&bytes, &password).ok(), Some(vec![0x0b, 0x0c, 0x0d]));
    assert_eq!(err_of(load(&bytes, &password)), LoadError::Deserialization);
    assert_eq!(err_of(load_wallet(&bytes, &password)), LoadError::Deserialization);
}

#[test]
fn a_text_container_with_bad_inner_fields_is_a_deserialization_error() {
    let password = Password::from_text("legacy-pw");
    for inner in [
        &b"{\"dilithium_public\": \"0b0c0\", \"dilithium_secret\": \"ff\"}"[..],
        &b"{\"dilithium_public\": \"0b\", \"dilithium_secret\": \"xx\"}"[..],
        &b"{\"dilithium_secret\": \"ff\"}"[..],
        &b"[1]"[..],
    ] {
        let bytes = legacy_container("legacy-pw", &SALT, inner);
        assert_eq!(err_of(load(&bytes, &password)), LoadError::Deserialization);
    }
}

#[test]
fn a_text_container_with_a_short_salt_is_a_kdf_error() {
    let bytes = b"{\"salt\":\"01020304050607\",\"nonce\":\"000102030405060708090a0b\",\"ciphertext\":\"00\"}";
    assert_eq!(
        err_of(load(bytes, &Password::from_text("p"))),
        LoadError::Kdf(KdfError::SaltTooShort)
    );
}

#[test]
fn a_text_container_is_not_authenticated_by_the_binary_header() {
    // The same ciphertext under the header of the binary layout does not open.
    let inner = b"{\"dilithium_public\": \"0b\", \"dilithium_secret\": \"ff\"}";
    let key = derive_key(&Password::from_text("p"), &SALT, CostParams::legacy()).unwrap();
    let ct = encrypt(&key, &NONCE, inner, b"wallet-v1");
    let mut bytes = Vec::new();
    bytes.extend_from_slice(b"QSW1");
    bytes.extend_from_slice(&[1, 1]);
    bytes.extend_from_slice(&19456u32.to_le_bytes());
    bytes.extend_from_slice(&2u32.to_le_bytes());
    bytes.extend_from_slice(&1u32.to_le_bytes());
    bytes.extend_from_slice(&SALT);
    bytes.extend_from_slice(&NONCE);
    bytes.extend_from_slice(&ct);
    assert_eq!(err_of(load(&bytes, &Password::from_text("p"))), LoadError::Authentication);
}

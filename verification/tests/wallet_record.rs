use opbnb_quantum::wallet::json::{find_blob, find_text, read_blob_fields, read_text_fields, write_blob_fields};
use opbnb_quantum::wallet::record::{
    fingerprint, parse_legacy_public_key, parse_legacy_record, parse_record, record_from_fields,
    DeserializationError, WalletSecretRecord,
};

fn six_blobs() -> WalletSecretRecord {
    WalletSecretRecord {
        kyber_public: vec![1, 2, 3],
        kyber_secret: vec![4, 5, 6, 7],
        ntru_public: vec![8],
        ntru_secret: vec![9, 10],
        dilithium_public: vec![11, 12, 13, 14, 15],
        dilithium_secret: vec![255, 0, 128],
    }
}

#[test]
fn the_payload_is_a_json_map_of_the_six_fields() {
    let payload = six_blobs().to_payload();
    assert_eq!(
        String::from_utf8(payload).unwrap(),
        "{\"dilithium_public\":[11,12,13,14,15],\"dilithium_secret\":[255,0,128],\"kyber_public\":[1,2,3],\"kyber_secret\":[4,5,6,7],\"ntru_public\":[8],\"ntru_secret\":[9,10]}"
    );
}

#[test]
fn the_fields_of_a_record_are_its_six_blobs_by_name() {
    let fields = six_blobs().to_fields();
    assert_eq!(fields.len(), 6);
    assert_eq!(find_blob(&fields, "kyber_public"), Some(&vec![1, 2, 3]));
    assert_eq!(find_blob(&fields, "kyber_secret"), Some(&vec![4, 5, 6, 7]));
    assert_eq!(find_blob(&fields, "ntru_public"), Some(&vec![8]));
    assert_eq!(find_blob(&fields, "ntru_secret"), Some(&vec![9, 10]));
    assert_eq!(find_blob(&fields, "dilithium_public"), Some(&vec![11, 12, 13, 14, 15]));
    assert_eq!(find_blob(&fields, "dilithium_secret"), Some(&vec![255, 0, 128]));
    assert_eq!(find_blob(&fields, "kyber"), None);
    let back = record_from_fields(&fields).unwrap();
    assert_eq!(back.kyber_secret, vec![4, 5, 6, 7]);
    assert_eq!(back.dilithium_secret, vec![255, 0, 128]);
}

#[test]
fn parsing_the_payload_of_a_record_gives_the_record() {
    let record = parse_record(&six_blobs().to_payload()).ok().unwrap();
    assert_eq!(record.kyber_public, vec![1, 2, 3]);
    assert_eq!(record.kyber_secret, vec![4, 5, 6, 7]);
    assert_eq!(record.ntru_public, vec![8]);
    assert_eq!(record.ntru_secret, vec![9, 10]);
    assert_eq!(record.dilithium_public, vec![11, 12, 13, 14, 15]);
    assert_eq!(record.dilithium_secret, vec![255, 0, 128]);
}

#[test]
fn a_record_needs_each_of_its_six_fields() {
    let names = ["kyber_public", "kyber_secret", "ntru_public", "ntru_secret",
        "dilithium_public", "dilithium_secret"];
    for missing in names {
        let mut fields = six_blobs().to_fields();
        fields.retain(|f| f.0 != missing);
        assert!(record_from_fields(&fields).is_none(), "without {}", missing);
    }
    let mut fields = six_blobs().to_fields();
    fields.push(("extra".to_owned(), vec![1]));
    assert!(record_from_fields(&fields).is_some());
    assert!(record_from_fields(&Vec::new()).is_none());
}

#[test]
fn the_first_field_of_a_name_is_the_one_found() {
    let fields = vec![
        ("a".to_owned(), vec![1u8]),
        ("b".to_owned(), vec![2u8]),
        ("a".to_owned(), vec![3u8]),
    ];
    assert_eq!(find_blob(&fields, "a"), Some(&vec![1u8]));
    assert_eq!(find_blob(&fields, "b"), Some(&vec![2u8]));
    assert_eq!(find_blob(&fields, "c"), None);
    assert_eq!(find_blob(&Vec::new(), "a"), None);
    let texts = vec![("x".to_owned(), "1".to_owned()), ("y".to_owned(), "2".to_owned())];
    assert_eq!(find_text(&texts, "y"), Some(&"2".to_owned()));
    assert_eq!(find_text(&texts, "z"), None);
    assert_eq!(find_text(&texts, ""), None);
}

#[test]
fn json_maps_are_read_in_the_order_of_their_names() {
    let fields = read_blob_fields(b"{\"b\":[2,3],\"a\":[],\"c\":[255]}").unwrap();
    assert_eq!(fields, vec![
        ("a".to_owned(), vec![]),
        ("b".to_owned(), vec![2, 3]),
        ("c".to_owned(), vec![255]),
    ]);
    assert_eq!(read_blob_fields(b"{}"), Some(vec![]));
    assert_eq!(read_blob_fields(b""), None);
    assert_eq!(read_blob_fields(b"{\"a\":[256]}"), None);
    assert_eq!(read_blob_fields(b"{\"a\":[-1]}"), None);
    assert_eq!(read_blob_fields(b"{\"a\":\"01\"}"), None);
    assert_eq!(read_blob_fields(b"{\"a\":[1]} trailing"), None);
    assert_eq!(read_blob_fields(b"[[1]]"), None);

    let texts = read_text_fields(b"{\"nonce\":\"00\", \"a\":\"\\u00e9\"}").unwrap();
    assert_eq!(texts, vec![
        ("a".to_owned(), "\u{e9}".to_owned()),
        ("nonce".to_owned(), "00".to_owned()),
    ]);
    assert_eq!(read_text_fields(b"{\"a\":1}"), None);
    assert_eq!(read_text_fields(b"\"a\""), None);
}

#[test]
fn json_maps_are_written_in_the_order_of_their_names() {
    let fields = vec![("b".to_owned(), vec![2u8, 3]), ("a".to_owned(), vec![])];
    assert_eq!(write_blob_fields(&fields), b"{\"a\":[],\"b\":[2,3]}".to_vec());
    assert_eq!(write_blob_fields(&Vec::new()), b"{}".to_vec());
    let back = read_blob_fields(&write_blob_fields(&fields)).unwrap();
    assert_eq!(back, vec![("a".to_owned(), vec![]), ("b".to_owned(), vec![2u8, 3])]);
}

#[test]
fn a_plaintext_that_is_no_record_is_refused() {
    assert!(matches!(parse_record(b""), Err(DeserializationError)));
    assert!(matches!(parse_record(b"{\"kyber_public\":[1]}"), Err(DeserializationError)));
    assert!(matches!(parse_legacy_record(b"{}"), Err(DeserializationError)));
    assert!(matches!(parse_legacy_record(b"nope"), Err(DeserializationError)));
    assert!(matches!(parse_legacy_public_key(b"{}"), Err(DeserializationError)));
    assert!(matches!(
        parse_legacy_public_key(b"{\"dilithium_public\":\"0\"}"),
        Err(DeserializationError)
    ));
}

#[test]
fn a_text_record_is_the_signature_pair_in_hexadecimal() {
    let record = parse_legacy_record(
        b"{\"dilithium_public\":\"0A0b\",\"dilithium_secret\":\" ff \",\"note\":\"kept out\"}",
    )
    .ok()
    .unwrap();
    assert_eq!(record.dilithium_public, vec![10, 11]);
    assert_eq!(record.dilithium_secret, vec![255]);
    assert!(record.kyber_public.is_empty() && record.kyber_secret.is_empty());
    assert!(record.ntru_public.is_empty() && record.ntru_secret.is_empty());
    assert_eq!(
        parse_legacy_public_key(b"{\"dilithium_public\":\"0A0b\"}").ok(),
        Some(vec![10, 11])
    );
}

#[test]
fn the_fingerprint_is_the_first_four_bytes_of_sha_256() {
    assert_eq!(fingerprint(b"abc"), [0xba, 0x78, 0x16, 0xbf]);
    assert_eq!(fingerprint(b""), [0xe3, 0xb0, 0xc4, 0x42]);
    let fps = six_blobs().fingerprints();
    assert_eq!(fps.0, fingerprint(&[1, 2, 3]));
    assert_eq!(fps.1, fingerprint(&[8]));
    assert_eq!(fps.2, fingerprint(&[11, 12, 13, 14, 15]));
    assert_ne!(fps.0, fps.1);
}

#[test]
fn wiping_the_secrets_keeps_the_public_keys() {
    let mut record = six_blobs();
    record.wipe_secrets();
    assert!(record.kyber_secret.is_empty());
    assert!(record.ntru_secret.is_empty());
    assert!(record.dilithium_secret.is_empty());
    assert_eq!(record.kyber_public, vec![1, 2, 3]);
    assert_eq!(record.ntru_public, vec![8]);
    assert_eq!(record.dilithium_public, vec![11, 12, 13, 14, 15]);
}

#[test]
fn the_signing_pair_is_the_dilithium_pair() {
    let pair = six_blobs().into_signing_pair();
    assert_eq!(pair.pk, vec![11, 12, 13, 14, 15]);
    assert_eq!(pair.sk, vec![255, 0, 128]);
}

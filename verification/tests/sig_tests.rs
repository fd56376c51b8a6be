use jadwiga::sig::{
    build_comparison_string, get_valid_signature, verify_with_key, Signature, SigField,
    SignatureHeaderError, VerifyError,
};

fn header_pairs(pairs: &[(&str, &str)]) -> Vec<(String, String)> {
    pairs
        .iter()
        .map(|(k, v)| (k.to_string(), v.to_string()))
        .collect()
}

fn names(list: &[&str]) -> Vec<String> {
    list.iter().map(|n| n.to_string()).collect()
}

#[test]
fn from_str_parses_a_full_header() {
    let s = Signature::from_str("keyId=\"a\",headers=\"b c\",signature=\"ZA==\"").unwrap();
    assert_eq!(s.key_id, "a");
    assert_eq!(s.headers, vec!["b".to_string(), "c".to_string()]);
    assert_eq!(s.signature, vec![0x64]);
}

#[test]
fn from_str_reports_missing_fields() {
    let r = Signature::from_str("headers=\"a\",signature=\"ZA==\"");
    assert_eq!(
        r.unwrap_err(),
        SignatureHeaderError::MissingField(SigField::KeyId)
    );
    let r = Signature::from_str("keyId=\"a\",signature=\"ZA==\"");
    assert_eq!(
        r.unwrap_err(),
        SignatureHeaderError::MissingField(SigField::Headers)
    );
    let r = Signature::from_str("keyId=\"a\",headers=\"b\"");
    assert_eq!(
        r.unwrap_err(),
        SignatureHeaderError::MissingField(SigField::SignatureValue)
    );
}

#[test]
fn from_str_rejects_a_malformed_header() {
    let r = Signature::from_str("garbage");
    assert!(matches!(r, Err(SignatureHeaderError::Parse(_))));
}

#[test]
fn from_str_rejects_bad_base64() {
    let r = Signature::from_str("keyId=\"a\",headers=\"b\",signature=\"%%%\"");
    assert_eq!(r.unwrap_err(), SignatureHeaderError::BadBase64);
}

#[test]
fn from_str_takes_the_last_repeated_field() {
    let s = Signature::from_str("keyId=\"first\",keyId=\"second\",headers=\"b\",signature=\"ZA==\"")
        .unwrap();
    assert_eq!(s.key_id, "second");
}

#[test]
fn canonical_string_is_exact() {
    let headers = header_pairs(&[
        ("host", "example.com"),
        ("date", "Tue, 01 Jan 2019 00:00:00 GMT"),
    ]);
    let cs = build_comparison_string(
        &names(&["(request-target)", "host", "date"]),
        "POST",
        "/_inbox",
        &headers,
    )
    .unwrap();
    assert_eq!(
        cs,
        "(request-target): post /_inbox\nhost: example.com\ndate: Tue, 01 Jan 2019 00:00:00 GMT"
    );
}

#[test]
fn canonical_string_lowercases_names_and_joins_multiple_values() {
    let headers = header_pairs(&[("X-Thing", " one "), ("x-thing", "two")]);
    let cs = build_comparison_string(&names(&["X-Thing"]), "GET", "/", &headers).unwrap();
    assert_eq!(cs, "x-thing: one, two");
}

#[test]
fn canonical_string_reports_first_missing_header() {
    let headers = header_pairs(&[("host", "example.com")]);
    let r = build_comparison_string(&names(&["host", "date"]), "POST", "/_inbox", &headers);
    assert_eq!(r.unwrap_err(), VerifyError::MissingHeader("date".to_string()));
}

fn generate_key() -> (openssl::pkey::PKey<openssl::pkey::Private>, String) {
    let rsa = openssl::rsa::Rsa::generate(2048).unwrap();
    let pem = String::from_utf8(rsa.public_key_to_pem().unwrap()).unwrap();
    let key = openssl::pkey::PKey::from_rsa(rsa).unwrap();
    (key, pem)
}

fn sign(key: &openssl::pkey::PKey<openssl::pkey::Private>, text: &str) -> Vec<u8> {
    let mut signer =
        openssl::sign::Signer::new(openssl::hash::MessageDigest::sha256(), key).unwrap();
    signer.update(text.as_bytes()).unwrap();
    signer.sign_to_vec().unwrap()
}

fn actor_document(pem: &str) -> String {
    let mut public_key = serde_json::Map::new();
    public_key.insert(
        "publicKeyPem".to_string(),
        serde_json::Value::String(pem.to_string()),
    );
    let mut root = serde_json::Map::new();
    root.insert(
        "publicKey".to_string(),
        serde_json::Value::Object(public_key),
    );
    serde_json::to_string(&serde_json::Value::Object(root)).unwrap()
}

#[test]
fn end_to_end_verification_succeeds_and_every_bit_flip_fails() {
    let (key, pem) = generate_key();
    let canonical =
        "(request-target): post /_inbox\nhost: example.com\ndate: Tue, 01 Jan 2019 00:00:00 GMT";
    let signature_bytes = sign(&key, canonical);
    let doc = actor_document(&pem);
    let request_headers = header_pairs(&[
        ("Host", "example.com"),
        ("Date", "Tue, 01 Jan 2019 00:00:00 GMT"),
    ]);
    let signature = Signature {
        key_id: "https://remote.example/actor#main-key".to_string(),
        headers: names(&["(request-target)", "host", "date"]),
        signature: signature_bytes.clone(),
    };
    let ok = get_valid_signature(&signature, &doc, &request_headers, "POST", "/_inbox");
    assert!(ok.is_ok());

    for byte in 0..signature_bytes.len() {
        for bit in 0..8 {
            let mut flipped = signature_bytes.clone();
            flipped[byte] ^= 1u8 << bit;
            let bad = Signature {
                key_id: signature.key_id.clone(),
                headers: signature.headers.clone(),
                signature: flipped,
            };
            let r = get_valid_signature(&bad, &doc, &request_headers, "POST", "/_inbox");
            assert_eq!(r.unwrap_err(), VerifyError::SignatureMismatch);
        }
    }
}

#[test]
fn date_is_required_even_when_not_declared() {
    let (key, pem) = generate_key();
    // The signer declares only `host`; the verifier must still demand
    // a `date` header from the request.
    let signature = Signature {
        key_id: "k".to_string(),
        headers: names(&["host"]),
        signature: sign(&key, "host: example.com"),
    };
    let headers_without_date = header_pairs(&[("Host", "example.com")]);
    let r = verify_with_key(&pem, &signature, &headers_without_date, "POST", "/_inbox");
    assert_eq!(r.unwrap_err(), VerifyError::MissingHeader("date".to_string()));
}

#[test]
fn date_is_included_in_the_signed_string_when_not_declared() {
    let (key, pem) = generate_key();
    // Declared headers omit `date`, but the signed text must cover it:
    // only a signature over "host: ...\ndate: ..." verifies.
    let signature = Signature {
        key_id: "k".to_string(),
        headers: names(&["host"]),
        signature: sign(&key, "host: example.com\ndate: Tue, 01 Jan 2019 00:00:00 GMT"),
    };
    let request_headers = header_pairs(&[
        ("Host", "example.com"),
        ("Date", "Tue, 01 Jan 2019 00:00:00 GMT"),
    ]);
    let r = verify_with_key(&pem, &signature, &request_headers, "POST", "/_inbox");
    assert!(r.is_ok());

    // A signature over the declared list alone does not verify.
    let short = Signature {
        key_id: "k".to_string(),
        headers: names(&["host"]),
        signature: sign(&key, "host: example.com"),
    };
    let r = verify_with_key(&pem, &short, &request_headers, "POST", "/_inbox");
    assert_eq!(r.unwrap_err(), VerifyError::SignatureMismatch);
}

#[test]
fn malformed_actor_documents_are_rejected() {
    let signature = Signature {
        key_id: "k".to_string(),
        headers: names(&["host"]),
        signature: vec![0u8; 16],
    };
    let headers = header_pairs(&[("Host", "h"), ("Date", "d")]);
    let r = get_valid_signature(&signature, "not json", &headers, "POST", "/_inbox");
    assert_eq!(r.unwrap_err(), VerifyError::MalformedActorDocument);
    let r = get_valid_signature(&signature, "{\"other\":1}", &headers, "POST", "/_inbox");
    assert_eq!(r.unwrap_err(), VerifyError::MalformedActorDocument);
    let r = get_valid_signature(
        &signature,
        "{\"publicKey\":{\"publicKeyPem\":5}}",
        &headers,
        "POST",
        "/_inbox",
    );
    assert_eq!(r.unwrap_err(), VerifyError::MalformedActorDocument);
}

#[test]
fn unusable_pem_is_a_malformed_public_key() {
    let signature = Signature {
        key_id: "k".to_string(),
        headers: names(&["host"]),
        signature: vec![0u8; 16],
    };
    let headers = header_pairs(&[("Host", "h"), ("Date", "d")]);
    let doc = actor_document("not a pem");
    let r = get_valid_signature(&signature, &doc, &headers, "POST", "/_inbox");
    assert_eq!(r.unwrap_err(), VerifyError::MalformedPublicKey);
}

use base64::Engine;
use esp_agent::signing::{
    compute_key_fingerprint, compute_signed_data, create_backend, sign_envelope, try_sign_envelope,
    ResultEnvelope, SigningBackend, SoftwareBackend,
};
use p256::ecdsa::signature::Verifier;
use p256::ecdsa::{Signature, VerifyingKey};

fn create_test_envelope() -> ResultEnvelope {
    ResultEnvelope {
        content_hash: "sha256:8726504ca47412e0d8c0be36a1286a79".to_string(),
        evidence_hash: "sha256:9fbea98350c00a9642fe91431619dd3a".to_string(),
        signature: None,
    }
}

fn backend() -> SoftwareBackend {
    match SoftwareBackend::new() {
        Ok(b) => b,
        Err(e) => panic!("Failed to create backend: {}", e.message()),
    }
}

#[test]
fn test_compute_signed_data_deterministic() {
    let content_hash = "sha256:abc123";
    let evidence_hash = "sha256:def456";

    let result1 = compute_signed_data(content_hash, evidence_hash);
    let result2 = compute_signed_data(content_hash, evidence_hash);

    assert_eq!(result1, result2);
    assert_eq!(result1.len(), 32);
}

#[test]
fn test_compute_signed_data_different_inputs() {
    let result1 = compute_signed_data("sha256:aaa", "sha256:bbb");
    let result2 = compute_signed_data("sha256:aaa", "sha256:ccc");

    assert_ne!(result1, result2);
}

#[test]
fn test_compute_key_fingerprint() {
    let key_bytes = b"test public key bytes";
    let fingerprint = compute_key_fingerprint(key_bytes);

    assert_eq!(fingerprint.len(), 16);

    let fingerprint2 = compute_key_fingerprint(key_bytes);
    assert_eq!(fingerprint, fingerprint2);
}

#[test]
fn test_software_backend_creation() {
    let backend = backend();

    assert!(backend.is_available());
    assert_eq!(backend.algorithm(), "ecdsa-p256");
    assert!(backend.key_id().starts_with("software:ephemeral:"));
    assert!(backend
        .signer_id()
        .unwrap_or_else(|e| panic!("{}", e.message()))
        .starts_with("software:sha256:"));
}

#[test]
fn test_software_backend_signing() {
    let backend = backend();

    let content_hash = "sha256:8726504ca47412e0d8c0be36a1286a79";
    let evidence_hash = "sha256:9fbea98350c00a9642fe91431619dd3a";

    let sig_block = backend
        .sign_envelope_hashes(content_hash, evidence_hash)
        .unwrap_or_else(|e| panic!("Signing failed: {}", e.message()));

    assert_eq!(sig_block.algorithm, "ecdsa-p256");
    assert_eq!(sig_block.signer_type, "agent");
    assert_eq!(sig_block.covers, vec!["content_hash", "evidence_hash"]);
    assert!(!sig_block.signature.is_empty());
    assert!(!sig_block.public_key.is_empty());
}

#[test]
fn test_software_backend_signature_verification() {
    let backend = backend();

    let content_hash = "sha256:8726504ca47412e0d8c0be36a1286a79";
    let evidence_hash = "sha256:9fbea98350c00a9642fe91431619dd3a";

    let sig_block = backend
        .sign_envelope_hashes(content_hash, evidence_hash)
        .unwrap_or_else(|e| panic!("Signing failed: {}", e.message()));

    let b64 = base64::engine::general_purpose::STANDARD;
    let public_key_bytes = b64
        .decode(&sig_block.public_key)
        .expect("Failed to decode public key");
    let verifying_key =
        VerifyingKey::from_sec1_bytes(&public_key_bytes).expect("Failed to parse public key");

    let signature_bytes = b64
        .decode(&sig_block.signature)
        .expect("Failed to decode signature");
    let signature = Signature::from_der(&signature_bytes).expect("Failed to parse signature");

    let signed_data = compute_signed_data(content_hash, evidence_hash);

    assert!(verifying_key.verify(&signed_data, &signature).is_ok());
}

#[test]
fn test_different_backends_produce_different_keys() {
    let backend1 = backend();
    let backend2 = backend();

    assert_ne!(
        backend1.signer_id().ok().unwrap(),
        backend2.signer_id().ok().unwrap()
    );
    assert_ne!(backend1.key_id(), backend2.key_id());
}

#[test]
fn test_sign_envelope() {
    let backend = backend();
    let mut envelope = create_test_envelope();

    assert!(envelope.signature.is_none());

    assert!(sign_envelope(&mut envelope, &backend).is_ok(), "Signing failed");

    assert!(envelope.signature.is_some());

    let sig = envelope.signature.as_ref().unwrap();
    assert_eq!(sig.covers, vec!["content_hash", "evidence_hash"]);
    assert_eq!(sig.signer_type, "agent");
    assert!(!sig.signature.is_empty());
    assert!(!sig.public_key.is_empty());
}

#[test]
fn test_try_sign_envelope_success() {
    let backend = backend();
    let mut envelope = create_test_envelope();

    let result = try_sign_envelope(&mut envelope, &backend);

    assert!(result);
    assert!(envelope.signature.is_some());
}

#[test]
fn test_signature_covers_correct_fields() {
    let backend = backend();
    let mut envelope = create_test_envelope();

    assert!(sign_envelope(&mut envelope, &backend).is_ok(), "Signing failed");

    let sig = envelope.signature.as_ref().unwrap();
    assert_eq!(sig.covers.len(), 2);
    assert!(sig.covers.contains(&"content_hash".to_string()));
    assert!(sig.covers.contains(&"evidence_hash".to_string()));
}

// ---------------------------------------------------------------------------
// Further cases
// ---------------------------------------------------------------------------

#[test]
fn fingerprint_known_value() {
    // SHA-256("abc") begins ba7816bf8f01cfea.
    assert_eq!(compute_key_fingerprint(b"abc"), "ba7816bf8f01cfea");
}

#[test]
fn signed_data_is_hash_of_concatenation() {
    // SHA-256("abc"), split across the two hashes.
    let d = compute_signed_data("a", "bc");
    assert_eq!(d[0], 0xba);
    assert_eq!(d[1], 0x78);
    assert_eq!(d, compute_signed_data("ab", "c"));
}

#[test]
fn signer_id_matches_public_key() {
    let backend = backend();
    let b64 = base64::engine::general_purpose::STANDARD;
    let pk = b64
        .decode(backend.export_public_key_base64().ok().unwrap())
        .unwrap();
    assert_eq!(pk.len(), 65);
    assert_eq!(
        backend.signer_id().ok().unwrap(),
        format!("software:sha256:{}", compute_key_fingerprint(&pk))
    );
    assert_eq!(backend.key_id().len(), "software:ephemeral:".len() + 36);
}

#[test]
fn key_id_ends_in_a_version_4_uuid() {
    let backend = SoftwareBackend::new().ok().unwrap();
    let id = backend.key_id().to_string();
    let uuid: Vec<char> = id["software:ephemeral:".len()..].chars().collect();
    assert_eq!(uuid.len(), 36);
    for (i, c) in uuid.iter().enumerate() {
        if i == 8 || i == 13 || i == 18 || i == 23 {
            assert_eq!(*c, '-');
        } else {
            assert!(c.is_ascii_digit() || ('a'..='f').contains(c), "{}", id);
        }
    }
    assert_eq!(uuid[14], '4');
    assert!("89ab".contains(uuid[19]));
}

#[test]
fn test_create_backend() {
    let backend = match create_backend() {
        Ok(b) => b,
        Err(e) => panic!("Failed to create backend: {}", e.message()),
    };
    assert!(backend.is_available());
}

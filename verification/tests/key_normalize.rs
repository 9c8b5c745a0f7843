use base64::Engine;
use tee_wasm_runner::error::Error;
use tee_wasm_runner::key::normalize;

fn sample_key() -> Vec<u8> {
    (0u8..32u8).collect()
}

#[test]
fn canonical_key_returned_unchanged() {
    let key = sample_key();
    let out = normalize(key.clone()).expect("32-byte key is canonical");
    assert_eq!(out, key);
}

#[test]
fn canonical_key_of_other_bytes_unchanged() {
    let key = vec![0xabu8; 32];
    let out = normalize(key.clone()).expect("32-byte key is canonical");
    assert_eq!(out, key);
}

#[test]
fn base64_wrapped_key_recovered() {
    let key = sample_key();
    let enc = base64::engine::general_purpose::STANDARD.encode(&key);
    let wrapped = format!("  \t{}\r\n ", enc);
    let out = normalize(wrapped.into_bytes()).expect("base64 of 32 bytes is accepted");
    assert_eq!(out, key);
}

#[test]
fn base64_with_trailing_newline_recovered() {
    // A broker that answers with a textual key and a trailing newline.
    let key = vec![0x5au8; 32];
    let enc = base64::engine::general_purpose::STANDARD.encode(&key);
    let wrapped = format!("{}\n", enc);
    let out = normalize(wrapped.into_bytes()).expect("trailing newline is trimmed");
    assert_eq!(out, key);
}

#[test]
fn undecodable_buffer_rejected_with_original_length() {
    let bad = vec![1u8, 2u8, 3u8];
    let err = normalize(bad).expect_err("3 bytes of non-base64 are rejected");
    assert_eq!(
        err,
        Error::KeyValidation {
            original_len: 3,
            decoded_len: None,
        }
    );
}

#[test]
fn wrong_decoded_length_rejected_with_both_lengths() {
    let short = vec![7u8; 16];
    let enc = base64::engine::general_purpose::STANDARD.encode(&short);
    let original_len = enc.len();
    let err = normalize(enc.into_bytes()).expect_err("base64 of 16 bytes is rejected");
    assert_eq!(
        err,
        Error::KeyValidation {
            original_len,
            decoded_len: Some(16),
        }
    );
}

#[test]
fn whitespace_only_buffer_rejected() {
    let err = normalize(b" \n\t".to_vec()).expect_err("whitespace alone is no key");
    assert_eq!(
        err,
        Error::KeyValidation {
            original_len: 3,
            decoded_len: Some(0),
        }
    );
}

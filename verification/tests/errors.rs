use ctap2_get_assertion::cose::EcdhEsHkdf256PublicKey;
use ctap2_get_assertion::error::SchemaError;
use ctap2_get_assertion::get_assertion::{HmacSecretInput, Request, Response};
use ctap2_get_assertion::webauthn::PublicKeyCredentialDescriptor;
use ctap2_get_assertion::wire::{HmacValue, Value};

fn key() -> EcdhEsHkdf256PublicKey {
    EcdhEsHkdf256PublicKey { x: vec![1u8; 32], y: vec![2u8; 32] }
}

fn credential() -> PublicKeyCredentialDescriptor {
    PublicKeyCredentialDescriptor { key_type: String::from("public-key"), id: vec![9u8; 16] }
}

fn hmac_entries(salt_enc_len: usize) -> Vec<(u8, HmacValue)> {
    vec![
        (1, HmacValue::PublicKey(key())),
        (2, HmacValue::Bytes(vec![3u8; salt_enc_len])),
        (3, HmacValue::Bytes(vec![4u8; 32])),
    ]
}

#[test]
fn salt_enc_of_81_bytes_is_rejected() {
    assert_eq!(HmacSecretInput::decode(&hmac_entries(81)), Err(SchemaError::InvalidLength));
}

#[test]
fn salt_enc_of_48_bytes_is_accepted() {
    let decoded = HmacSecretInput::decode(&hmac_entries(48)).unwrap();
    assert_eq!(decoded.salt_enc.len(), 48);
}

#[test]
fn salt_enc_of_64_bytes_is_accepted() {
    let decoded = HmacSecretInput::decode(&hmac_entries(64)).unwrap();
    assert_eq!(decoded.salt_enc.len(), 64);
}

#[test]
fn salt_enc_of_32_bytes_is_rejected() {
    assert_eq!(HmacSecretInput::decode(&hmac_entries(32)), Err(SchemaError::InvalidLength));
}

#[test]
fn salt_auth_of_wrong_length_is_rejected() {
    let entries = vec![
        (1, HmacValue::PublicKey(key())),
        (2, HmacValue::Bytes(vec![3u8; 48])),
        (3, HmacValue::Bytes(vec![4u8; 31])),
    ];
    assert_eq!(HmacSecretInput::decode(&entries), Err(SchemaError::InvalidLength));
}

#[test]
fn missing_required_field_is_rejected() {
    let entries: Vec<(u8, Value)> = Vec::new();
    assert_eq!(Request::decode(&entries), Err(SchemaError::MissingField));
    let only_rp_id = vec![(1, Value::Text(String::from("example.com")))];
    assert_eq!(Request::decode(&only_rp_id), Err(SchemaError::MissingField));
}

#[test]
fn wrong_primitive_type_is_rejected() {
    let entries = vec![(1, Value::Uint(5)), (2, Value::Bytes(vec![5u8; 32]))];
    assert_eq!(Request::decode(&entries), Err(SchemaError::WrongType));
}

#[test]
fn unknown_key_is_rejected() {
    let entries = vec![
        (1, Value::Text(String::from("example.com"))),
        (2, Value::Bytes(vec![5u8; 32])),
        (12, Value::Uint(1)),
    ];
    assert_eq!(Request::decode(&entries), Err(SchemaError::InvalidKey));
}

#[test]
fn descending_keys_are_rejected() {
    let entries = vec![
        (1, Value::Text(String::from("example.com"))),
        (2, Value::Bytes(vec![5u8; 32])),
        (7, Value::Uint(1)),
        (6, Value::Bytes(vec![6u8; 16])),
    ];
    assert_eq!(Request::decode(&entries), Err(SchemaError::InvalidKey));
}

#[test]
fn oversized_allow_list_is_rejected() {
    let mut list: Vec<PublicKeyCredentialDescriptor> = Vec::new();
    for _ in 0..11 {
        list.push(credential());
    }
    let entries = vec![
        (1, Value::Text(String::from("example.com"))),
        (2, Value::Bytes(vec![5u8; 32])),
        (3, Value::Credentials(list)),
    ];
    assert_eq!(Request::decode(&entries), Err(SchemaError::TooLong));
}

#[test]
fn oversized_credential_id_is_rejected() {
    let bad = PublicKeyCredentialDescriptor { key_type: String::from("public-key"), id: vec![0u8; 256] };
    let entries = vec![
        (1, Value::Text(String::from("example.com"))),
        (2, Value::Bytes(vec![5u8; 32])),
        (3, Value::Credentials(vec![bad])),
    ];
    assert_eq!(Request::decode(&entries), Err(SchemaError::TooLong));
}

#[test]
fn oversized_auth_data_is_rejected() {
    let entries = vec![
        (1, Value::Credential(credential())),
        (2, Value::Bytes(vec![0u8; 677])),
        (3, Value::Bytes(vec![1u8; 70])),
    ];
    assert_eq!(Response::decode(&entries), Err(SchemaError::TooLong));
}

#[test]
fn oversized_signature_is_rejected() {
    let entries = vec![
        (1, Value::Credential(credential())),
        (2, Value::Bytes(vec![0u8; 37])),
        (3, Value::Bytes(vec![1u8; 78])),
    ];
    assert_eq!(Response::decode(&entries), Err(SchemaError::TooLong));
}

#[test]
fn large_blob_key_of_wrong_length_is_rejected() {
    let entries = vec![
        (1, Value::Credential(credential())),
        (2, Value::Bytes(vec![0u8; 37])),
        (3, Value::Bytes(vec![1u8; 70])),
        (7, Value::Bytes(vec![2u8; 31])),
    ];
    assert_eq!(Response::decode(&entries), Err(SchemaError::InvalidLength));
}

#[test]
fn response_auth_of_wrong_length_is_rejected() {
    let entries = vec![
        (1, Value::Credential(credential())),
        (2, Value::Bytes(vec![0u8; 37])),
        (3, Value::Bytes(vec![1u8; 70])),
        (11, Value::Bytes(vec![2u8; 33])),
    ];
    assert_eq!(Response::decode(&entries), Err(SchemaError::InvalidLength));
}

#[test]
fn nested_extension_error_propagates() {
    let bad_hmac = vec![
        (1, HmacValue::PublicKey(key())),
        (2, HmacValue::Bytes(vec![3u8; 81])),
        (3, HmacValue::Bytes(vec![4u8; 32])),
    ];
    let entries = vec![
        (1, Value::Text(String::from("example.com"))),
        (2, Value::Bytes(vec![5u8; 32])),
        (
            4,
            Value::Extensions(vec![(
                ctap2_get_assertion::wire::ExtensionKey::HmacSecret,
                ctap2_get_assertion::wire::ExtensionValue::HmacSecretInput(bad_hmac),
            )]),
        ),
    ];
    assert_eq!(Request::decode(&entries), Err(SchemaError::InvalidLength));
}

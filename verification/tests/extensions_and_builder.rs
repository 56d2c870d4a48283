use ctap2_get_assertion::cose::EcdhEsHkdf256PublicKey;
use ctap2_get_assertion::ctap2::{SerializeAttestedCredentialData, SerializedAuthenticatorData};
use ctap2_get_assertion::error::SchemaError;
use ctap2_get_assertion::get_assertion::{
    ExtensionsInput, ExtensionsOutput, HmacSecretInput, NoAttestedCredentialData, Response,
    ResponseBuilder,
};
use ctap2_get_assertion::webauthn::PublicKeyCredentialDescriptor;
use ctap2_get_assertion::wire::{ExtensionKey, ExtensionValue};

#[test]
fn default_extensions_output_is_not_set() {
    let e = ExtensionsOutput::default();
    assert!(!e.is_set());
    assert_eq!(e.hmac_secret, None);
    assert_eq!(e.third_party_payment, None);
}

#[test]
fn hmac_secret_output_alone_sets_the_extensions() {
    let mut e = ExtensionsOutput::default();
    e.hmac_secret = Some(vec![5u8; 32]);
    assert!(e.is_set());
}

#[test]
fn third_party_payment_alone_sets_the_extensions() {
    let mut e = ExtensionsOutput::default();
    e.third_party_payment = Some(false);
    assert!(e.is_set());
}

#[test]
fn default_extensions_input_is_empty() {
    let e = ExtensionsInput::default();
    assert_eq!(e.hmac_secret, None);
    assert_eq!(e.large_blob_key, None);
    assert_eq!(e.third_party_payment, None);
    assert_eq!(e.encode().len(), 0);
}

#[test]
fn default_extensions_output_encodes_to_the_empty_map() {
    let e = ExtensionsOutput::default();
    assert_eq!(e.encode().len(), 0);
    let mut set = ExtensionsOutput::default();
    set.third_party_payment = Some(true);
    assert_eq!(set.encode().len(), 1);
}

#[test]
fn extensions_input_round_trip_with_hmac_only() {
    let e = ExtensionsInput {
        hmac_secret: Some(HmacSecretInput {
            key_agreement: EcdhEsHkdf256PublicKey { x: vec![1u8; 32], y: vec![2u8; 32] },
            salt_enc: vec![3u8; 64],
            salt_auth: vec![4u8; 32],
            pin_protocol: None,
        }),
        large_blob_key: None,
        third_party_payment: None,
    };
    let m = e.encode();
    assert_eq!(m.len(), 1);
    assert_eq!(m[0].0, ExtensionKey::HmacSecret);
    let decoded = ExtensionsInput::decode(&m).unwrap();
    assert_eq!(decoded, e);
}

#[test]
fn extensions_output_hmac_of_wrong_length_is_rejected() {
    let entries = vec![(ExtensionKey::HmacSecret, ExtensionValue::Bytes(vec![5u8; 48]))];
    assert_eq!(ExtensionsOutput::decode(&entries), Err(SchemaError::InvalidLength));
}

#[test]
fn extensions_keys_out_of_declaration_order_are_rejected() {
    let entries = vec![
        (ExtensionKey::ThirdPartyPayment, ExtensionValue::Bool(true)),
        (ExtensionKey::LargeBlobKey, ExtensionValue::Bool(true)),
    ];
    assert_eq!(ExtensionsInput::decode(&entries), Err(SchemaError::InvalidKey));
}

#[test]
fn builder_fills_every_optional_field_with_absent() {
    let credential =
        PublicKeyCredentialDescriptor { key_type: String::from("public-key"), id: vec![9u8; 16] };
    let auth_data = vec![8u8; 37];
    let signature = vec![1u8; 70];
    let built = ResponseBuilder {
        credential: credential.clone(),
        auth_data: auth_data.clone(),
        signature: signature.clone(),
    }
    .build();
    let expected = Response {
        credential,
        auth_data,
        signature,
        user: None,
        number_of_credentials: None,
        user_selected: None,
        large_blob_key: None,
        unsigned_extension_outputs: None,
        ep_att: None,
        att_stmt: None,
        response_auth: None,
    };
    assert_eq!(built, expected);
}

#[test]
fn no_attested_credential_data_serializes_to_nothing() {
    let mut buffer = SerializedAuthenticatorData { data: vec![1u8, 2, 3] };
    let r = NoAttestedCredentialData.serialize(&mut buffer);
    assert_eq!(r, Ok(()));
    assert_eq!(buffer.data, vec![1u8, 2, 3]);
}

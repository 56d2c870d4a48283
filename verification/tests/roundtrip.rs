use ctap2_get_assertion::cose::EcdhEsHkdf256PublicKey;
use ctap2_get_assertion::ctap2::{AttestationFormatsPreference, AttestationStatement, AuthenticatorOptions};
use ctap2_get_assertion::get_assertion::{
    ExtensionsInput, ExtensionsOutput, HmacSecretInput, Request, Response, UnsignedExtensionOutputs,
};
use ctap2_get_assertion::webauthn::{PublicKeyCredentialDescriptor, PublicKeyCredentialUserEntity};
use ctap2_get_assertion::wire::Value;

fn sample_key() -> EcdhEsHkdf256PublicKey {
    EcdhEsHkdf256PublicKey { x: vec![1u8; 32], y: vec![2u8; 32] }
}

fn sample_credential() -> PublicKeyCredentialDescriptor {
    PublicKeyCredentialDescriptor { key_type: String::from("public-key"), id: vec![9u8; 16] }
}

fn sample_user() -> PublicKeyCredentialUserEntity {
    PublicKeyCredentialUserEntity {
        id: vec![7u8; 8],
        icon: None,
        name: Some(String::from("jane")),
        display_name: Some(String::from("Jane Doe")),
    }
}

fn minimal_request() -> Request {
    Request {
        rp_id: String::from("example.com"),
        client_data_hash: vec![5u8; 32],
        allow_list: None,
        extensions: None,
        options: None,
        pin_auth: None,
        pin_protocol: None,
        enterprise_attestation: None,
        attestation_formats_preference: None,
    }
}

fn full_request() -> Request {
    Request {
        rp_id: String::from("example.com"),
        client_data_hash: vec![5u8; 32],
        allow_list: Some(vec![sample_credential(), sample_credential()]),
        extensions: Some(ExtensionsInput {
            hmac_secret: Some(HmacSecretInput {
                key_agreement: sample_key(),
                salt_enc: vec![3u8; 48],
                salt_auth: vec![4u8; 32],
                pin_protocol: Some(2),
            }),
            large_blob_key: Some(true),
            third_party_payment: Some(false),
        }),
        options: Some(AuthenticatorOptions { rk: Some(true), up: Some(true), uv: None }),
        pin_auth: Some(vec![6u8; 16]),
        pin_protocol: Some(1),
        enterprise_attestation: Some(2),
        attestation_formats_preference: Some(AttestationFormatsPreference {
            formats: vec![String::from("packed"), String::from("tpm")],
        }),
    }
}

fn minimal_response() -> Response {
    Response {
        credential: sample_credential(),
        auth_data: vec![8u8; 37],
        signature: vec![1u8; 70],
        user: None,
        number_of_credentials: None,
        user_selected: None,
        large_blob_key: None,
        unsigned_extension_outputs: None,
        ep_att: None,
        att_stmt: None,
        response_auth: None,
    }
}

fn full_response() -> Response {
    Response {
        credential: sample_credential(),
        auth_data: vec![8u8; 37],
        signature: vec![1u8; 70],
        user: Some(sample_user()),
        number_of_credentials: Some(3),
        user_selected: Some(true),
        large_blob_key: Some(vec![2u8; 32]),
        unsigned_extension_outputs: Some(UnsignedExtensionOutputs {}),
        ep_att: Some(true),
        att_stmt: Some(AttestationStatement::Packed { alg: -7, sig: vec![3u8; 64] }),
        response_auth: Some(vec![4u8; 32]),
    }
}

#[test]
fn request_round_trip_required_only() {
    let r = minimal_request();
    let m = r.encode();
    assert_eq!(m.len(), 2);
    let decoded = Request::decode(&m).unwrap();
    assert_eq!(decoded, r);
}

#[test]
fn request_round_trip_all_fields() {
    let r = full_request();
    let m = r.encode();
    assert_eq!(m.len(), 9);
    let decoded = Request::decode(&m).unwrap();
    assert_eq!(decoded, r);
}

#[test]
fn request_round_trip_subset_of_optionals() {
    let mut r = minimal_request();
    r.pin_auth = Some(vec![6u8; 16]);
    r.pin_protocol = Some(1);
    let m = r.encode();
    assert_eq!(m.len(), 4);
    let decoded = Request::decode(&m).unwrap();
    assert_eq!(decoded.pin_auth, Some(vec![6u8; 16]));
    assert_eq!(decoded.pin_protocol, Some(1));
    assert_eq!(decoded.allow_list, None);
    assert_eq!(decoded.extensions, None);
    assert_eq!(decoded, r);
}

#[test]
fn response_round_trip_required_only() {
    let r = minimal_response();
    let m = r.encode();
    assert_eq!(m.len(), 3);
    let decoded = Response::decode(&m).unwrap();
    assert_eq!(decoded, r);
}

#[test]
fn response_round_trip_all_fields() {
    let r = full_response();
    let m = r.encode();
    assert_eq!(m.len(), 11);
    let decoded = Response::decode(&m).unwrap();
    assert_eq!(decoded, r);
}

#[test]
fn response_minimal_encoding_has_exactly_the_mandatory_keys() {
    let r = minimal_response();
    let m = r.encode();
    assert_eq!(m.len(), 3);
    assert_eq!(m[0].0, 1);
    assert_eq!(m[1].0, 2);
    assert_eq!(m[2].0, 3);
    assert!(matches!(m[0].1, Value::Credential(_)));
    match &m[1].1 {
        Value::Bytes(b) => assert_eq!(b, &vec![8u8; 37]),
        _ => panic!("auth_data must encode as bytes"),
    }
    match &m[2].1 {
        Value::Bytes(b) => assert_eq!(b, &vec![1u8; 70]),
        _ => panic!("signature must encode as bytes"),
    }
}

#[test]
fn extensions_output_round_trip() {
    let e = ExtensionsOutput { hmac_secret: Some(vec![5u8; 64]), third_party_payment: Some(true) };
    let m = e.encode();
    assert_eq!(m.len(), 2);
    let decoded = ExtensionsOutput::decode(&m).unwrap();
    assert_eq!(decoded, e);
}

#[test]
fn multi_credential_sequencing_first_and_followup() {
    let mut first = minimal_response();
    first.number_of_credentials = Some(3);
    let m1 = first.encode();
    let d1 = Response::decode(&m1).unwrap();
    assert_eq!(d1.number_of_credentials, Some(3));
    assert_eq!(d1, first);

    let followup = minimal_response();
    let m2 = followup.encode();
    let d2 = Response::decode(&m2).unwrap();
    assert_eq!(d2.number_of_credentials, None);
    assert_eq!(d2, followup);

    // A later response that still carries the count is schema-valid:
    // the decoder accepts it, and only the sequencing check flags it.
    let mut third = minimal_response();
    third.number_of_credentials = Some(3);
    let m3 = third.encode();
    let d3 = Response::decode(&m3).unwrap();
    assert!(d3.sequencing_ok(true));
    assert!(!d3.sequencing_ok(false));
    assert!(followup.sequencing_ok(false));
}

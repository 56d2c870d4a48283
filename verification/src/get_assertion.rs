//! The get-assertion request and response schemas.
//!
//! Each schema type decodes from and encodes into the abstract map model
//! of [`crate::wire`].  A spec-level codec pins each exec codec down: the
//! exec functions are proved to return exactly what the spec functions
//! say, and the round-trip and omission laws are proved of the spec
//! functions once and for all.

use vstd::prelude::*;

use crate::cose::{copy_bytes, EcdhEsHkdf256PublicKey, EcdhEsHkdf256PublicKeyModel};
use crate::ctap2::{
    AttestationFormatsPreference, AttestationFormatsPreferenceModel, AttestationStatement,
    AttestationStatementModel, AuthenticatorOptions, SerializeAttestedCredentialData,
    SerializedAuthenticatorData,
};
use crate::error::SchemaError;
use crate::sizes::{
    ASN1_SIGNATURE_LENGTH, AUTHENTICATOR_DATA_LENGTH, LARGE_BLOB_KEY_LENGTH,
    MAX_CREDENTIAL_COUNT_IN_LIST, MAX_CREDENTIAL_ID_LENGTH, ONE_SALT_ENC_LENGTH,
    ONE_SALT_OUTPUT_LENGTH, RESPONSE_AUTH_LENGTH, SALT_AUTH_LENGTH, TWO_SALT_ENC_LENGTH,
    TWO_SALT_OUTPUT_LENGTH,
};
use crate::webauthn::{
    PublicKeyCredentialDescriptor, PublicKeyCredentialDescriptorModel,
    PublicKeyCredentialUserEntity, PublicKeyCredentialUserEntityModel,
};
use crate::wire::{
    bytes_option_model, ExtensionKey, ExtensionValue, ExtensionValueModel, HmacValue,
    HmacValueModel, Value, ValueModel,
};

verus! {

/// The hmac-secret extension input.
#[derive(Debug, PartialEq, Eq)]
pub struct HmacSecretInput {
    /// The platform's ECDH-ES+HKDF-256 key-agreement key.
    pub key_agreement: EcdhEsHkdf256PublicKey,
    /// The ciphertext of one 32-byte salt or of two concatenated ones.
    pub salt_enc: Vec<u8>,
    /// The authentication tag over the encrypted salts.
    pub salt_auth: Vec<u8>,
    /// The PIN protocol the salts were encrypted under, when it is not
    /// the one established at the request level.
    pub pin_protocol: Option<u32>,
}

/// The mathematical value of an [`HmacSecretInput`].
pub struct HmacSecretInputModel {
    pub key_agreement: EcdhEsHkdf256PublicKeyModel,
    pub salt_enc: Seq<u8>,
    pub salt_auth: Seq<u8>,
    pub pin_protocol: Option<u32>,
}

impl View for HmacSecretInput {
    type V = HmacSecretInputModel;

    open spec fn view(&self) -> HmacSecretInputModel {
        HmacSecretInputModel {
            key_agreement: self.key_agreement@,
            salt_enc: self.salt_enc@,
            salt_auth: self.salt_auth@,
            pin_protocol: self.pin_protocol,
        }
    }
}

impl DeepView for HmacSecretInput {
    type V = HmacSecretInputModel;

    open spec fn deep_view(&self) -> HmacSecretInputModel {
        self.view()
    }
}

impl HmacSecretInputModel {
    /// The salt ciphertext has the one-salt or the two-salt length, and
    /// the tag its fixed length.  These are the lengths the decoder
    /// admits; any other is malformed.
    pub open spec fn wf(self) -> bool {
        &&& (self.salt_enc.len() == ONE_SALT_ENC_LENGTH || self.salt_enc.len()
            == TWO_SALT_ENC_LENGTH)
        &&& self.salt_auth.len() == SALT_AUTH_LENGTH
    }
}

/// The wire form of an hmac-secret input: keys 1 to 4 in declaration
/// order, the optional PIN protocol omitted when absent.
pub open spec fn spec_encode_hmac_secret_input(h: HmacSecretInputModel) -> Seq<
    (u8, HmacValueModel),
> {
    let required = seq![
        (1u8, HmacValueModel::PublicKey(h.key_agreement)),
        (2u8, HmacValueModel::Bytes(h.salt_enc)),
        (3u8, HmacValueModel::Bytes(h.salt_auth)),
    ];
    match h.pin_protocol {
        Some(p) => required.push((4u8, HmacValueModel::Uint(p))),
        None => required,
    }
}

/// Decoding an hmac-secret input map: the three required fields must
/// stand first at keys 1 to 3, the optional PIN protocol may follow at
/// key 4, and nothing else is admitted.
pub open spec fn spec_decode_hmac_secret_input(s: Seq<(u8, HmacValueModel)>) -> Result<
    HmacSecretInputModel,
    SchemaError,
> {
    if !(s.len() > 0 && s[0].0 == 1) {
        Err(SchemaError::MissingField)
    } else if !(s[0].1 is PublicKey) {
        Err(SchemaError::WrongType)
    } else if !(s.len() > 1 && s[1].0 == 2) {
        Err(SchemaError::MissingField)
    } else if !(s[1].1 is Bytes) {
        Err(SchemaError::WrongType)
    } else if !(s[1].1->Bytes_0.len() == ONE_SALT_ENC_LENGTH || s[1].1->Bytes_0.len()
        == TWO_SALT_ENC_LENGTH) {
        Err(SchemaError::InvalidLength)
    } else if !(s.len() > 2 && s[2].0 == 3) {
        Err(SchemaError::MissingField)
    } else if !(s[2].1 is Bytes) {
        Err(SchemaError::WrongType)
    } else if s[2].1->Bytes_0.len() != SALT_AUTH_LENGTH {
        Err(SchemaError::InvalidLength)
    } else if s.len() == 3 {
        Ok(
            HmacSecretInputModel {
                key_agreement: s[0].1->PublicKey_0,
                salt_enc: s[1].1->Bytes_0,
                salt_auth: s[2].1->Bytes_0,
                pin_protocol: None,
            },
        )
    } else if s[3].0 != 4 {
        Err(SchemaError::InvalidKey)
    } else if !(s[3].1 is Uint) {
        Err(SchemaError::WrongType)
    } else if s.len() != 4 {
        Err(SchemaError::InvalidKey)
    } else {
        Ok(
            HmacSecretInputModel {
                key_agreement: s[0].1->PublicKey_0,
                salt_enc: s[1].1->Bytes_0,
                salt_auth: s[2].1->Bytes_0,
                pin_protocol: Some(s[3].1->Uint_0),
            },
        )
    }
}

/// The decoded value of a decode result, for stating exec contracts.
pub open spec fn hmac_secret_input_result_model(r: Result<HmacSecretInput, SchemaError>) -> Result<
    HmacSecretInputModel,
    SchemaError,
> {
    match r {
        Ok(h) => Ok(h@),
        Err(e) => Err(e),
    }
}

impl HmacSecretInput {
    /// Encodes this input as its indexed map.
    pub fn encode(&self) -> (m: Vec<(u8, HmacValue)>)
        ensures
            m.deep_view() == spec_encode_hmac_secret_input(self@),
    {
        let mut m: Vec<(u8, HmacValue)> = Vec::new();
        m.push((1, HmacValue::PublicKey(self.key_agreement.clone())));
        m.push((2, HmacValue::Bytes(copy_bytes(&self.salt_enc))));
        m.push((3, HmacValue::Bytes(copy_bytes(&self.salt_auth))));
        if let Some(p) = self.pin_protocol {
            m.push((4, HmacValue::Uint(p)));
        }
        proof {
            assert(m.deep_view() =~= spec_encode_hmac_secret_input(self@));
        }
        m
    }

    /// Decodes an indexed map as an hmac-secret input.
    pub fn decode(entries: &Vec<(u8, HmacValue)>) -> (r: Result<Self, SchemaError>)
        ensures
            hmac_secret_input_result_model(r) == spec_decode_hmac_secret_input(
                entries.deep_view(),
            ),
    {
        if !(entries.len() > 0 && entries[0].0 == 1) {
            return Err(SchemaError::MissingField);
        }
        let key_agreement = match &entries[0].1 {
            HmacValue::PublicKey(k) => k.clone(),
            _ => { return Err(SchemaError::WrongType); },
        };
        if !(entries.len() > 1 && entries[1].0 == 2) {
            return Err(SchemaError::MissingField);
        }
        let salt_enc = match &entries[1].1 {
            HmacValue::Bytes(b) => {
                if !(b.len() == ONE_SALT_ENC_LENGTH || b.len() == TWO_SALT_ENC_LENGTH) {
                    return Err(SchemaError::InvalidLength);
                }
                copy_bytes(b)
            },
            _ => { return Err(SchemaError::WrongType); },
        };
        if !(entries.len() > 2 && entries[2].0 == 3) {
            return Err(SchemaError::MissingField);
        }
        let salt_auth = match &entries[2].1 {
            HmacValue::Bytes(b) => {
                if b.len() != SALT_AUTH_LENGTH {
                    return Err(SchemaError::InvalidLength);
                }
                copy_bytes(b)
            },
            _ => { return Err(SchemaError::WrongType); },
        };
        let pin_protocol: Option<u32>;
        if entries.len() == 3 {
            pin_protocol = None;
        } else if entries[3].0 != 4 {
            return Err(SchemaError::InvalidKey);
        } else {
            match &entries[3].1 {
                HmacValue::Uint(p) => {
                    if entries.len() != 4 {
                        return Err(SchemaError::InvalidKey);
                    }
                    pin_protocol = Some(*p);
                },
                _ => { return Err(SchemaError::WrongType); },
            }
        }
        Ok(HmacSecretInput { key_agreement, salt_enc, salt_auth, pin_protocol })
    }
}

/// Round trip: a well-formed hmac-secret input decodes from its own
/// encoding, unchanged.
pub proof fn lemma_hmac_secret_input_round_trip(h: HmacSecretInputModel)
    requires
        h.wf(),
    ensures
        spec_decode_hmac_secret_input(spec_encode_hmac_secret_input(h)) == Ok::<
            HmacSecretInputModel,
            SchemaError,
        >(h),
{
}

/// The decoder admits no salt-ciphertext length but the one-salt and the
/// two-salt lengths, and no tag length but the fixed one: whatever it
/// returns is well-formed.
pub proof fn lemma_decoded_hmac_secret_input_wf(s: Seq<(u8, HmacValueModel)>)
    requires
        spec_decode_hmac_secret_input(s) is Ok,
    ensures
        spec_decode_hmac_secret_input(s)->Ok_0.wf(),
{
}

/// The negotiated extension inputs of a request.
#[derive(Debug, PartialEq, Eq)]
pub struct ExtensionsInput {
    /// The hmac-secret input.
    pub hmac_secret: Option<HmacSecretInput>,
    /// Whether a large blob key is requested.
    pub large_blob_key: Option<bool>,
    /// Whether third-party-payment data is requested.  When the
    /// capability is disabled this field is simply never populated; the
    /// schema's shape does not change.
    pub third_party_payment: Option<bool>,
}

/// The mathematical value of an [`ExtensionsInput`].
pub struct ExtensionsInputModel {
    pub hmac_secret: Option<HmacSecretInputModel>,
    pub large_blob_key: Option<bool>,
    pub third_party_payment: Option<bool>,
}

impl View for ExtensionsInput {
    type V = ExtensionsInputModel;

    open spec fn view(&self) -> ExtensionsInputModel {
        ExtensionsInputModel {
            hmac_secret: self.hmac_secret.deep_view(),
            large_blob_key: self.large_blob_key,
            third_party_payment: self.third_party_payment,
        }
    }
}

impl DeepView for ExtensionsInput {
    type V = ExtensionsInputModel;

    open spec fn deep_view(&self) -> ExtensionsInputModel {
        self.view()
    }
}

impl ExtensionsInputModel {
    /// A present hmac-secret input is well-formed.
    pub open spec fn wf(self) -> bool {
        self.hmac_secret matches Some(h) ==> h.wf()
    }
}

impl Default for ExtensionsInput {
    /// Every extension input starts absent.
    fn default() -> (r: Self)
        ensures
            r@.hmac_secret is None,
            r@.large_blob_key is None,
            r@.third_party_payment is None,
    {
        ExtensionsInput { hmac_secret: None, large_blob_key: None, third_party_payment: None }
    }
}

/// The wire form of the extension inputs: the present fields' entries in
/// declaration order, absent fields omitted entirely.
pub open spec fn spec_encode_extensions_input(e: ExtensionsInputModel) -> Seq<
    (ExtensionKey, ExtensionValueModel),
> {
    (match e.hmac_secret {
        Some(h) => seq![
            (
                ExtensionKey::HmacSecret,
                ExtensionValueModel::HmacSecretInput(spec_encode_hmac_secret_input(h)),
            ),
        ],
        None => seq![],
    }) + (match e.large_blob_key {
        Some(b) => seq![(ExtensionKey::LargeBlobKey, ExtensionValueModel::Bool(b))],
        None => seq![],
    }) + (match e.third_party_payment {
        Some(b) => seq![(ExtensionKey::ThirdPartyPayment, ExtensionValueModel::Bool(b))],
        None => seq![],
    })
}

/// One step of decoding a name-keyed map: an optional hmac-secret input
/// at position `i`.  Returns the field and the next position.
pub open spec fn spec_take_hmac_secret_input(
    s: Seq<(ExtensionKey, ExtensionValueModel)>,
    i: int,
) -> Result<(Option<HmacSecretInputModel>, int), SchemaError> {
    if 0 <= i < s.len() && s[i].0 == ExtensionKey::HmacSecret {
        if !(s[i].1 is HmacSecretInput) {
            Err(SchemaError::WrongType)
        } else {
            match spec_decode_hmac_secret_input(s[i].1->HmacSecretInput_0) {
                Ok(h) => Ok((Some(h), i + 1)),
                Err(e) => Err(e),
            }
        }
    } else {
        Ok((None, i))
    }
}

/// One step of decoding a name-keyed map: an optional boolean flag under
/// the key `k` at position `i`.
pub open spec fn spec_take_extension_bool(
    s: Seq<(ExtensionKey, ExtensionValueModel)>,
    i: int,
    k: ExtensionKey,
) -> Result<(Option<bool>, int), SchemaError> {
    if 0 <= i < s.len() && s[i].0 == k {
        if s[i].1 is Bool {
            Ok((Some(s[i].1->Bool_0), i + 1))
        } else {
            Err(SchemaError::WrongType)
        }
    } else {
        Ok((None, i))
    }
}

/// Decoding an extensions-input map: each known key may appear once, in
/// declaration order; every field is optional; nothing else is admitted.
pub open spec fn spec_decode_extensions_input(s: Seq<(ExtensionKey, ExtensionValueModel)>) -> Result<
    ExtensionsInputModel,
    SchemaError,
> {
    match spec_take_hmac_secret_input(s, 0) {
        Err(e) => Err(e),
        Ok((hmac_secret, i1)) => match spec_take_extension_bool(s, i1, ExtensionKey::LargeBlobKey) {
            Err(e) => Err(e),
            Ok((large_blob_key, i2)) => match spec_take_extension_bool(
                s,
                i2,
                ExtensionKey::ThirdPartyPayment,
            ) {
                Err(e) => Err(e),
                Ok((third_party_payment, i3)) => {
                    if i3 == s.len() {
                        Ok(ExtensionsInputModel { hmac_secret, large_blob_key, third_party_payment })
                    } else {
                        Err(SchemaError::InvalidKey)
                    }
                },
            },
        },
    }
}

/// The decoded value of a decode result, for stating exec contracts.
pub open spec fn extensions_input_result_model(r: Result<ExtensionsInput, SchemaError>) -> Result<
    ExtensionsInputModel,
    SchemaError,
> {
    match r {
        Ok(e) => Ok(e@),
        Err(e) => Err(e),
    }
}

impl ExtensionsInput {
    /// Encodes these inputs as their name-keyed map.
    pub fn encode(&self) -> (m: Vec<(ExtensionKey, ExtensionValue)>)
        ensures
            m.deep_view() == spec_encode_extensions_input(self@),
    {
        let mut m: Vec<(ExtensionKey, ExtensionValue)> = Vec::new();
        if let Some(h) = &self.hmac_secret {
            m.push((ExtensionKey::HmacSecret, ExtensionValue::HmacSecretInput(h.encode())));
        }
        if let Some(b) = self.large_blob_key {
            m.push((ExtensionKey::LargeBlobKey, ExtensionValue::Bool(b)));
        }
        if let Some(b) = self.third_party_payment {
            m.push((ExtensionKey::ThirdPartyPayment, ExtensionValue::Bool(b)));
        }
        proof {
            assert(m.deep_view() =~= spec_encode_extensions_input(self@));
        }
        m
    }

    /// Decodes a name-keyed map as extension inputs.
    pub fn decode(entries: &Vec<(ExtensionKey, ExtensionValue)>) -> (r: Result<Self, SchemaError>)
        ensures
            extensions_input_result_model(r) == spec_decode_extensions_input(entries.deep_view()),
    {
        let mut i: usize = 0;
        let hmac_secret: Option<HmacSecretInput>;
        if i < entries.len() && entries[i].0 == ExtensionKey::HmacSecret {
            match &entries[i].1 {
                ExtensionValue::HmacSecretInput(sub) => {
                    match HmacSecretInput::decode(sub) {
                        Ok(h) => {
                            hmac_secret = Some(h);
                            i = i + 1;
                        },
                        Err(e) => { return Err(e); },
                    }
                },
                _ => { return Err(SchemaError::WrongType); },
            }
        } else {
            hmac_secret = None;
        }
        let large_blob_key: Option<bool>;
        if i < entries.len() && entries[i].0 == ExtensionKey::LargeBlobKey {
            match &entries[i].1 {
                ExtensionValue::Bool(b) => {
                    large_blob_key = Some(*b);
                    i = i + 1;
                },
                _ => { return Err(SchemaError::WrongType); },
            }
        } else {
            large_blob_key = None;
        }
        let third_party_payment: Option<bool>;
        if i < entries.len() && entries[i].0 == ExtensionKey::ThirdPartyPayment {
            match &entries[i].1 {
                ExtensionValue::Bool(b) => {
                    third_party_payment = Some(*b);
                    i = i + 1;
                },
                _ => { return Err(SchemaError::WrongType); },
            }
        } else {
            third_party_payment = None;
        }
        if i != entries.len() {
            return Err(SchemaError::InvalidKey);
        }
        Ok(ExtensionsInput { hmac_secret, large_blob_key, third_party_payment })
    }
}

/// Round trip: well-formed extension inputs decode from their own
/// encoding, unchanged; in particular exactly the present fields come
/// back present.
pub proof fn lemma_extensions_input_round_trip(e: ExtensionsInputModel)
    requires
        e.wf(),
    ensures
        spec_decode_extensions_input(spec_encode_extensions_input(e)) == Ok::<
            ExtensionsInputModel,
            SchemaError,
        >(e),
{
    if e.hmac_secret is Some {
        lemma_hmac_secret_input_round_trip(e.hmac_secret->0);
    }
}

/// Extension data excluded from the signed part of a response.
///
/// Reserved: no field is defined yet, and its wire form is an empty map.
#[derive(Clone, Copy, Debug, PartialEq, Eq, Structural)]
pub struct UnsignedExtensionOutputs {}

impl View for UnsignedExtensionOutputs {
    type V = UnsignedExtensionOutputs;

    open spec fn view(&self) -> UnsignedExtensionOutputs {
        *self
    }
}

impl DeepView for UnsignedExtensionOutputs {
    type V = UnsignedExtensionOutputs;

    open spec fn deep_view(&self) -> UnsignedExtensionOutputs {
        *self
    }
}

/// The negotiated extension outputs of a response.
#[derive(Debug, PartialEq, Eq)]
pub struct ExtensionsOutput {
    /// The encrypted hmac-secret output: one derived secret or the
    /// concatenation of two, mirroring the number of input salts.
    pub hmac_secret: Option<Vec<u8>>,
    /// The echoed third-party-payment flag.  When the capability is
    /// disabled this field is simply never populated; the schema's shape
    /// does not change.
    pub third_party_payment: Option<bool>,
}

/// The mathematical value of an [`ExtensionsOutput`].
pub struct ExtensionsOutputModel {
    pub hmac_secret: Option<Seq<u8>>,
    pub third_party_payment: Option<bool>,
}

impl View for ExtensionsOutput {
    type V = ExtensionsOutputModel;

    open spec fn view(&self) -> ExtensionsOutputModel {
        ExtensionsOutputModel {
            hmac_secret: bytes_option_model(self.hmac_secret),
            third_party_payment: self.third_party_payment,
        }
    }
}

impl DeepView for ExtensionsOutput {
    type V = ExtensionsOutputModel;

    open spec fn deep_view(&self) -> ExtensionsOutputModel {
        self.view()
    }
}

impl ExtensionsOutput {
    /// True exactly when at least one extension output is present.
    ///
    /// An empty extensions map must not be emitted into authenticator
    /// data; the caller consults this before including the map at all.
    pub fn is_set(&self) -> (r: bool)
        ensures
            r == (self@.hmac_secret is Some || self@.third_party_payment is Some),
    {
        if self.hmac_secret.is_some() {
            return true;
        }
        if self.third_party_payment.is_some() {
            return true;
        }
        false
    }
}

impl Default for ExtensionsOutput {
    /// Both extension outputs start absent.
    fn default() -> (r: Self)
        ensures
            r@.hmac_secret is None,
            r@.third_party_payment is None,
    {
        ExtensionsOutput { hmac_secret: None, third_party_payment: None }
    }
}

impl ExtensionsOutputModel {
    /// A present hmac-secret output has the one-salt or the two-salt
    /// output length.
    pub open spec fn wf(self) -> bool {
        self.hmac_secret matches Some(b) ==> b.len() == ONE_SALT_OUTPUT_LENGTH || b.len()
            == TWO_SALT_OUTPUT_LENGTH
    }
}

/// The wire form of the extension outputs: the present fields' entries in
/// declaration order, absent fields omitted entirely.
pub open spec fn spec_encode_extensions_output(e: ExtensionsOutputModel) -> Seq<
    (ExtensionKey, ExtensionValueModel),
> {
    (match e.hmac_secret {
        Some(b) => seq![(ExtensionKey::HmacSecret, ExtensionValueModel::Bytes(b))],
        None => seq![],
    }) + (match e.third_party_payment {
        Some(b) => seq![(ExtensionKey::ThirdPartyPayment, ExtensionValueModel::Bool(b))],
        None => seq![],
    })
}

/// Decoding an extensions-output map: each known key may appear once, in
/// declaration order; every field is optional; a present hmac-secret
/// output must have an admitted length; nothing else is admitted.
pub open spec fn spec_decode_extensions_output(
    s: Seq<(ExtensionKey, ExtensionValueModel)>,
) -> Result<ExtensionsOutputModel, SchemaError> {
    let take_hmac: Result<(Option<Seq<u8>>, int), SchemaError> = if 0 < s.len() && s[0].0
        == ExtensionKey::HmacSecret {
        if !(s[0].1 is Bytes) {
            Err(SchemaError::WrongType)
        } else if !(s[0].1->Bytes_0.len() == ONE_SALT_OUTPUT_LENGTH || s[0].1->Bytes_0.len()
            == TWO_SALT_OUTPUT_LENGTH) {
            Err(SchemaError::InvalidLength)
        } else {
            Ok((Some(s[0].1->Bytes_0), 1int))
        }
    } else {
        Ok((None, 0int))
    };
    match take_hmac {
        Err(e) => Err(e),
        Ok((hmac_secret, i1)) => match spec_take_extension_bool(
            s,
            i1,
            ExtensionKey::ThirdPartyPayment,
        ) {
            Err(e) => Err(e),
            Ok((third_party_payment, i2)) => {
                if i2 == s.len() {
                    Ok(ExtensionsOutputModel { hmac_secret, third_party_payment })
                } else {
                    Err(SchemaError::InvalidKey)
                }
            },
        },
    }
}

/// The decoded value of a decode result, for stating exec contracts.
pub open spec fn extensions_output_result_model(r: Result<ExtensionsOutput, SchemaError>) -> Result<
    ExtensionsOutputModel,
    SchemaError,
> {
    match r {
        Ok(e) => Ok(e@),
        Err(e) => Err(e),
    }
}

impl ExtensionsOutput {
    /// Encodes these outputs as their name-keyed map.
    pub fn encode(&self) -> (m: Vec<(ExtensionKey, ExtensionValue)>)
        ensures
            m.deep_view() == spec_encode_extensions_output(self@),
    {
        let mut m: Vec<(ExtensionKey, ExtensionValue)> = Vec::new();
        if let Some(b) = &self.hmac_secret {
            m.push((ExtensionKey::HmacSecret, ExtensionValue::Bytes(copy_bytes(b))));
        }
        if let Some(b) = self.third_party_payment {
            m.push((ExtensionKey::ThirdPartyPayment, ExtensionValue::Bool(b)));
        }
        proof {
            assert(m.deep_view() =~= spec_encode_extensions_output(self@));
        }
        m
    }

    /// Decodes a name-keyed map as extension outputs.
    pub fn decode(entries: &Vec<(ExtensionKey, ExtensionValue)>) -> (r: Result<Self, SchemaError>)
        ensures
            extensions_output_result_model(r) == spec_decode_extensions_output(
                entries.deep_view(),
            ),
    {
        let mut i: usize = 0;
        let hmac_secret: Option<Vec<u8>>;
        if i < entries.len() && entries[i].0 == ExtensionKey::HmacSecret {
            match &entries[i].1 {
                ExtensionValue::Bytes(b) => {
                    if !(b.len() == ONE_SALT_OUTPUT_LENGTH || b.len() == TWO_SALT_OUTPUT_LENGTH) {
                        return Err(SchemaError::InvalidLength);
                    }
                    hmac_secret = Some(copy_bytes(b));
                    i = i + 1;
                },
                _ => { return Err(SchemaError::WrongType); },
            }
        } else {
            hmac_secret = None;
        }
        let third_party_payment: Option<bool>;
        if i < entries.len() && entries[i].0 == ExtensionKey::ThirdPartyPayment {
            match &entries[i].1 {
                ExtensionValue::Bool(b) => {
                    third_party_payment = Some(*b);
                    i = i + 1;
                },
                _ => { return Err(SchemaError::WrongType); },
            }
        } else {
            third_party_payment = None;
        }
        if i != entries.len() {
            return Err(SchemaError::InvalidKey);
        }
        Ok(ExtensionsOutput { hmac_secret, third_party_payment })
    }
}

/// Emptiness: the extension outputs encode to the empty map exactly when
/// both fields are absent — the case in which the caller must not emit
/// the map at all, and which [`ExtensionsOutput::is_set`] reports.
pub proof fn lemma_extensions_output_emptiness(e: ExtensionsOutputModel)
    ensures
        (spec_encode_extensions_output(e).len() == 0) == (e.hmac_secret is None
            && e.third_party_payment is None),
{
}

/// The decoder admits only well-formed extension inputs: a present
/// hmac-secret input always has admitted salt lengths.
pub proof fn lemma_decoded_extensions_input_wf(s: Seq<(ExtensionKey, ExtensionValueModel)>)
    requires
        spec_decode_extensions_input(s) is Ok,
    ensures
        spec_decode_extensions_input(s)->Ok_0.wf(),
{
    if 0 < s.len() && s[0].0 == ExtensionKey::HmacSecret {
        lemma_decoded_hmac_secret_input_wf(s[0].1->HmacSecretInput_0);
    }
}

/// Round trip: well-formed extension outputs decode from their own
/// encoding, unchanged.
pub proof fn lemma_extensions_output_round_trip(e: ExtensionsOutputModel)
    requires
        e.wf(),
    ensures
        spec_decode_extensions_output(spec_encode_extensions_output(e)) == Ok::<
            ExtensionsOutputModel,
            SchemaError,
        >(e),
{
}

/// A request's allow list: the credentials the relying party will accept,
/// in its order of preference.
pub type AllowList = Vec<PublicKeyCredentialDescriptor>;

/// The get-assertion command parameters.
///
/// Each field owns a copy of its wire value, taken while decoding, so a
/// request does not borrow from the transport's decode buffer.
#[derive(Debug, PartialEq, Eq)]
pub struct Request {
    /// The relying-party identifier.  Required.
    pub rp_id: String,
    /// The hash of the serialized client data.  Required.
    pub client_data_hash: Vec<u8>,
    /// The credentials the caller will accept; when absent, all
    /// discoverable credentials for the relying party are candidates.
    pub allow_list: Option<AllowList>,
    /// The negotiated extension inputs.
    pub extensions: Option<ExtensionsInput>,
    /// Authenticator behavior flags.
    pub options: Option<AuthenticatorOptions>,
    /// The PIN/UV authentication proof.
    pub pin_auth: Option<Vec<u8>>,
    /// The PIN protocol `pin_auth` was computed under.
    pub pin_protocol: Option<u32>,
    /// The requested enterprise-attestation mode.
    pub enterprise_attestation: Option<u32>,
    /// The caller's ordered preference among attestation formats.
    pub attestation_formats_preference: Option<AttestationFormatsPreference>,
}

/// The mathematical value of a [`Request`].
pub struct RequestModel {
    pub rp_id: Seq<char>,
    pub client_data_hash: Seq<u8>,
    pub allow_list: Option<Seq<PublicKeyCredentialDescriptorModel>>,
    pub extensions: Option<ExtensionsInputModel>,
    pub options: Option<AuthenticatorOptions>,
    pub pin_auth: Option<Seq<u8>>,
    pub pin_protocol: Option<u32>,
    pub enterprise_attestation: Option<u32>,
    pub attestation_formats_preference: Option<AttestationFormatsPreferenceModel>,
}

impl View for Request {
    type V = RequestModel;

    open spec fn view(&self) -> RequestModel {
        RequestModel {
            rp_id: self.rp_id@,
            client_data_hash: self.client_data_hash@,
            allow_list: match self.allow_list {
                Some(l) => Some(l.deep_view()),
                None => None,
            },
            extensions: self.extensions.deep_view(),
            options: self.options,
            pin_auth: bytes_option_model(self.pin_auth),
            pin_protocol: self.pin_protocol,
            enterprise_attestation: self.enterprise_attestation,
            attestation_formats_preference: self.attestation_formats_preference.deep_view(),
        }
    }
}

impl DeepView for Request {
    type V = RequestModel;

    open spec fn deep_view(&self) -> RequestModel {
        self.view()
    }
}

impl RequestModel {
    /// The allow list fits its capacity and holds well-formed
    /// descriptors, and present extension inputs are well-formed.
    pub open spec fn wf(self) -> bool {
        &&& self.allow_list matches Some(l) ==> l.len() <= MAX_CREDENTIAL_COUNT_IN_LIST
            && forall|j: int| 0 <= j < l.len() ==> (#[trigger] l[j]).wf()
        &&& self.extensions matches Some(e) ==> e.wf()
    }
}

/// An optional field's entry, for assembling an encoding: the entry when
/// the field is present, nothing when it is absent.
pub open spec fn spec_opt_entry(k: u8, v: Option<ValueModel>) -> Seq<(u8, ValueModel)> {
    match v {
        Some(value) => seq![(k, value)],
        None => seq![],
    }
}

/// The wire form of a request: keys 1 to 9 in declaration order, absent
/// optional fields omitted entirely.
pub open spec fn spec_encode_request(r: RequestModel) -> Seq<(u8, ValueModel)> {
    seq![(1u8, ValueModel::Text(r.rp_id)), (2u8, ValueModel::Bytes(r.client_data_hash))]
        + spec_opt_entry(
        3,
        match r.allow_list {
            Some(l) => Some(ValueModel::Credentials(l)),
            None => None,
        },
    ) + spec_opt_entry(
        4,
        match r.extensions {
            Some(e) => Some(ValueModel::Extensions(spec_encode_extensions_input(e))),
            None => None,
        },
    ) + spec_opt_entry(
        5,
        match r.options {
            Some(o) => Some(ValueModel::Options(o)),
            None => None,
        },
    ) + spec_opt_entry(
        6,
        match r.pin_auth {
            Some(b) => Some(ValueModel::Bytes(b)),
            None => None,
        },
    ) + spec_opt_entry(
        7,
        match r.pin_protocol {
            Some(p) => Some(ValueModel::Uint(p)),
            None => None,
        },
    ) + spec_opt_entry(
        8,
        match r.enterprise_attestation {
            Some(p) => Some(ValueModel::Uint(p)),
            None => None,
        },
    ) + spec_opt_entry(
        9,
        match r.attestation_formats_preference {
            Some(p) => Some(ValueModel::FormatsPreference(p)),
            None => None,
        },
    )
}

/// One step of decoding an indexed map: an optional allow list under the
/// key `k` at position `i`.  The list must fit its capacity and every
/// descriptor's id its own.
pub open spec fn spec_take_credentials(s: Seq<(u8, ValueModel)>, i: int, k: u8) -> Result<
    (Option<Seq<PublicKeyCredentialDescriptorModel>>, int),
    SchemaError,
> {
    if 0 <= i < s.len() && s[i].0 == k {
        if !(s[i].1 is Credentials) {
            Err(SchemaError::WrongType)
        } else if s[i].1->Credentials_0.len() > MAX_CREDENTIAL_COUNT_IN_LIST {
            Err(SchemaError::TooLong)
        } else if !(forall|j: int|
            0 <= j < s[i].1->Credentials_0.len() ==> (#[trigger] s[i].1->Credentials_0[j]).wf()) {
            Err(SchemaError::TooLong)
        } else {
            Ok((Some(s[i].1->Credentials_0), i + 1))
        }
    } else {
        Ok((None, i))
    }
}

/// One step of decoding an indexed map: an optional extensions-input map
/// under the key `k` at position `i`.
pub open spec fn spec_take_request_extensions(s: Seq<(u8, ValueModel)>, i: int, k: u8) -> Result<
    (Option<ExtensionsInputModel>, int),
    SchemaError,
> {
    if 0 <= i < s.len() && s[i].0 == k {
        if !(s[i].1 is Extensions) {
            Err(SchemaError::WrongType)
        } else {
            match spec_decode_extensions_input(s[i].1->Extensions_0) {
                Ok(e) => Ok((Some(e), i + 1)),
                Err(e) => Err(e),
            }
        }
    } else {
        Ok((None, i))
    }
}

/// One step of decoding an indexed map: an optional options value under
/// the key `k` at position `i`.
pub open spec fn spec_take_options(s: Seq<(u8, ValueModel)>, i: int, k: u8) -> Result<
    (Option<AuthenticatorOptions>, int),
    SchemaError,
> {
    if 0 <= i < s.len() && s[i].0 == k {
        if s[i].1 is Options {
            Ok((Some(s[i].1->Options_0), i + 1))
        } else {
            Err(SchemaError::WrongType)
        }
    } else {
        Ok((None, i))
    }
}

/// One step of decoding an indexed map: an optional byte buffer under the
/// key `k` at position `i`.  Length rules are the caller's.
pub open spec fn spec_take_bytes(s: Seq<(u8, ValueModel)>, i: int, k: u8) -> Result<
    (Option<Seq<u8>>, int),
    SchemaError,
> {
    if 0 <= i < s.len() && s[i].0 == k {
        if s[i].1 is Bytes {
            Ok((Some(s[i].1->Bytes_0), i + 1))
        } else {
            Err(SchemaError::WrongType)
        }
    } else {
        Ok((None, i))
    }
}

/// One step of decoding an indexed map: an optional unsigned integer
/// under the key `k` at position `i`.
pub open spec fn spec_take_uint(s: Seq<(u8, ValueModel)>, i: int, k: u8) -> Result<
    (Option<u32>, int),
    SchemaError,
> {
    if 0 <= i < s.len() && s[i].0 == k {
        if s[i].1 is Uint {
            Ok((Some(s[i].1->Uint_0), i + 1))
        } else {
            Err(SchemaError::WrongType)
        }
    } else {
        Ok((None, i))
    }
}

/// One step of decoding an indexed map: an optional format-preference
/// list under the key `k` at position `i`.
pub open spec fn spec_take_formats_preference(s: Seq<(u8, ValueModel)>, i: int, k: u8) -> Result<
    (Option<AttestationFormatsPreferenceModel>, int),
    SchemaError,
> {
    if 0 <= i < s.len() && s[i].0 == k {
        if s[i].1 is FormatsPreference {
            Ok((Some(s[i].1->FormatsPreference_0), i + 1))
        } else {
            Err(SchemaError::WrongType)
        }
    } else {
        Ok((None, i))
    }
}

/// Decoding a request map: the two required fields must stand first at
/// keys 1 and 2, the optional fields may follow, each at its own key, in
/// ascending order; nothing else is admitted.
pub open spec fn spec_decode_request(s: Seq<(u8, ValueModel)>) -> Result<
    RequestModel,
    SchemaError,
> {
    if !(s.len() > 0 && s[0].0 == 1) {
        Err(SchemaError::MissingField)
    } else if !(s[0].1 is Text) {
        Err(SchemaError::WrongType)
    } else if !(s.len() > 1 && s[1].0 == 2) {
        Err(SchemaError::MissingField)
    } else if !(s[1].1 is Bytes) {
        Err(SchemaError::WrongType)
    } else {
        match spec_take_credentials(s, 2, 3) {
            Err(e) => Err(e),
            Ok((allow_list, i3)) => match spec_take_request_extensions(s, i3, 4) {
                Err(e) => Err(e),
                Ok((extensions, i4)) => match spec_take_options(s, i4, 5) {
                    Err(e) => Err(e),
                    Ok((options, i5)) => match spec_take_bytes(s, i5, 6) {
                        Err(e) => Err(e),
                        Ok((pin_auth, i6)) => match spec_take_uint(s, i6, 7) {
                            Err(e) => Err(e),
                            Ok((pin_protocol, i7)) => match spec_take_uint(s, i7, 8) {
                                Err(e) => Err(e),
                                Ok((enterprise_attestation, i8)) => match spec_take_formats_preference(
                                    s,
                                    i8,
                                    9,
                                ) {
                                    Err(e) => Err(e),
                                    Ok((attestation_formats_preference, i9)) => {
                                        if i9 == s.len() {
                                            Ok(
                                                RequestModel {
                                                    rp_id: s[0].1->Text_0,
                                                    client_data_hash: s[1].1->Bytes_0,
                                                    allow_list,
                                                    extensions,
                                                    options,
                                                    pin_auth,
                                                    pin_protocol,
                                                    enterprise_attestation,
                                                    attestation_formats_preference,
                                                },
                                            )
                                        } else {
                                            Err(SchemaError::InvalidKey)
                                        }
                                    },
                                },
                            },
                        },
                    },
                },
            },
        }
    }
}

/// The decoded value of a decode result, for stating exec contracts.
pub open spec fn request_result_model(r: Result<Request, SchemaError>) -> Result<
    RequestModel,
    SchemaError,
> {
    match r {
        Ok(q) => Ok(q@),
        Err(e) => Err(e),
    }
}

/// A copy of a credential list with the same contents.
fn copy_credentials(list: &Vec<PublicKeyCredentialDescriptor>) -> (r: Vec<
    PublicKeyCredentialDescriptor,
>)
    ensures
        r.deep_view() == list.deep_view(),
{
    let mut r: Vec<PublicKeyCredentialDescriptor> = Vec::new();
    let mut j: usize = 0;
    while j < list.len()
        invariant
            j <= list.len(),
            r@.len() == j,
            forall|t: int| 0 <= t < j as int ==> (#[trigger] r@[t])@ == list@[t]@,
        decreases list.len() - j,
    {
        r.push(list[j].clone());
        j = j + 1;
    }
    proof {
        assert forall|t: int| 0 <= t < r@.len() implies r.deep_view()[t] == list.deep_view()[t] by {
            assert(r@[t]@ == list@[t]@);
        }
        assert(r.deep_view() =~= list.deep_view());
    }
    r
}

/// Whether every credential id of the list fits its capacity.
fn credential_ids_fit(list: &Vec<PublicKeyCredentialDescriptor>) -> (ok: bool)
    ensures
        ok == forall|j: int|
            0 <= j < list.deep_view().len() ==> (#[trigger] list.deep_view()[j]).wf(),
{
    let mut j: usize = 0;
    while j < list.len()
        invariant
            j <= list.len(),
            forall|t: int| 0 <= t < j as int ==> (#[trigger] list.deep_view()[t]).wf(),
        decreases list.len() - j,
    {
        proof {
            assert(list.deep_view()[j as int] == list@[j as int]@);
        }
        if list[j].id.len() > MAX_CREDENTIAL_ID_LENGTH {
            return false;
        }
        j = j + 1;
    }
    true
}

/// Appends an optional field's entry: the entry when the field is
/// present, nothing when it is absent.
fn push_opt_entry(m: &mut Vec<(u8, Value)>, k: u8, v: Option<Value>)
    ensures
        final(m).deep_view() == old(m).deep_view() + spec_opt_entry(
            k,
            match v {
                Some(value) => Some(value@),
                None => None,
            },
        ),
{
    match v {
        Some(value) => {
            m.push((k, value));
            proof {
                assert(m.deep_view() =~= old(m).deep_view() + spec_opt_entry(
                    k,
                    match v {
                        Some(value) => Some(value@),
                        None => None,
                    },
                ));
            }
        },
        None => {
            proof {
                assert(m.deep_view() =~= old(m).deep_view() + spec_opt_entry(
                    k,
                    match v {
                        Some(value) => Some(value@),
                        None => None,
                    },
                ));
            }
        },
    }
}

impl Request {
    /// Encodes this request as its indexed map.
    pub fn encode(&self) -> (m: Vec<(u8, Value)>)
        ensures
            m.deep_view() == spec_encode_request(self@),
    {
        let ghost g2: Seq<(u8, ValueModel)> = seq![
            (1u8, ValueModel::Text(self.rp_id@)),
            (2u8, ValueModel::Bytes(self.client_data_hash@)),
        ];
        let ghost g3: Seq<(u8, ValueModel)> = g2 + spec_opt_entry(
            3,
            match self@.allow_list {
                Some(l) => Some(ValueModel::Credentials(l)),
                None => None,
            },
        );
        let ghost g4: Seq<(u8, ValueModel)> = g3 + spec_opt_entry(
            4,
            match self@.extensions {
                Some(e) => Some(ValueModel::Extensions(spec_encode_extensions_input(e))),
                None => None,
            },
        );
        let ghost g5: Seq<(u8, ValueModel)> = g4 + spec_opt_entry(
            5,
            match self@.options {
                Some(o) => Some(ValueModel::Options(o)),
                None => None,
            },
        );
        let ghost g6: Seq<(u8, ValueModel)> = g5 + spec_opt_entry(
            6,
            match self@.pin_auth {
                Some(b) => Some(ValueModel::Bytes(b)),
                None => None,
            },
        );
        let ghost g7: Seq<(u8, ValueModel)> = g6 + spec_opt_entry(
            7,
            match self@.pin_protocol {
                Some(p) => Some(ValueModel::Uint(p)),
                None => None,
            },
        );
        let ghost g8: Seq<(u8, ValueModel)> = g7 + spec_opt_entry(
            8,
            match self@.enterprise_attestation {
                Some(p) => Some(ValueModel::Uint(p)),
                None => None,
            },
        );
        let ghost g9: Seq<(u8, ValueModel)> = g8 + spec_opt_entry(
            9,
            match self@.attestation_formats_preference {
                Some(p) => Some(ValueModel::FormatsPreference(p)),
                None => None,
            },
        );
        let mut m: Vec<(u8, Value)> = Vec::new();
        m.push((1, Value::Text(self.rp_id.clone())));
        m.push((2, Value::Bytes(copy_bytes(&self.client_data_hash))));
        proof {
            assert(m.deep_view() =~= g2);
        }
        push_opt_entry(
            &mut m,
            3,
            match &self.allow_list {
                Some(l) => Some(Value::Credentials(copy_credentials(l))),
                None => None,
            },
        );
        proof {
            assert(m.deep_view() == g3);
        }
        push_opt_entry(
            &mut m,
            4,
            match &self.extensions {
                Some(e) => Some(Value::Extensions(e.encode())),
                None => None,
            },
        );
        proof {
            assert(m.deep_view() == g4);
        }
        push_opt_entry(
            &mut m,
            5,
            match &self.options {
                Some(o) => Some(Value::Options(*o)),
                None => None,
            },
        );
        proof {
            assert(m.deep_view() == g5);
        }
        push_opt_entry(
            &mut m,
            6,
            match &self.pin_auth {
                Some(b) => Some(Value::Bytes(copy_bytes(b))),
                None => None,
            },
        );
        proof {
            assert(m.deep_view() == g6);
        }
        push_opt_entry(
            &mut m,
            7,
            match self.pin_protocol {
                Some(p) => Some(Value::Uint(p)),
                None => None,
            },
        );
        proof {
            assert(m.deep_view() == g7);
        }
        push_opt_entry(
            &mut m,
            8,
            match self.enterprise_attestation {
                Some(p) => Some(Value::Uint(p)),
                None => None,
            },
        );
        proof {
            assert(m.deep_view() == g8);
        }
        push_opt_entry(
            &mut m,
            9,
            match &self.attestation_formats_preference {
                Some(p) => Some(Value::FormatsPreference(p.clone())),
                None => None,
            },
        );
        proof {
            assert(m.deep_view() == g9);
            assert(g9 == spec_encode_request(self@));
        }
        m
    }

    /// Decodes an indexed map as a request, copying each field out of
    /// the map.
    pub fn decode(entries: &Vec<(u8, Value)>) -> (r: Result<Self, SchemaError>)
        ensures
            request_result_model(r) == spec_decode_request(entries.deep_view()),
    {
        if !(entries.len() > 0 && entries[0].0 == 1) {
            return Err(SchemaError::MissingField);
        }
        let rp_id = match &entries[0].1 {
            Value::Text(s) => s.clone(),
            _ => { return Err(SchemaError::WrongType); },
        };
        if !(entries.len() > 1 && entries[1].0 == 2) {
            return Err(SchemaError::MissingField);
        }
        let client_data_hash = match &entries[1].1 {
            Value::Bytes(b) => copy_bytes(b),
            _ => { return Err(SchemaError::WrongType); },
        };
        let mut i: usize = 2;
        let allow_list: Option<AllowList>;
        if i < entries.len() && entries[i].0 == 3 {
            match &entries[i].1 {
                Value::Credentials(list) => {
                    if list.len() > MAX_CREDENTIAL_COUNT_IN_LIST {
                        return Err(SchemaError::TooLong);
                    }
                    if !credential_ids_fit(list) {
                        return Err(SchemaError::TooLong);
                    }
                    allow_list = Some(copy_credentials(list));
                    i = i + 1;
                },
                _ => { return Err(SchemaError::WrongType); },
            }
        } else {
            allow_list = None;
        }
        let extensions: Option<ExtensionsInput>;
        if i < entries.len() && entries[i].0 == 4 {
            match &entries[i].1 {
                Value::Extensions(sub) => {
                    match ExtensionsInput::decode(sub) {
                        Ok(e) => {
                            extensions = Some(e);
                            i = i + 1;
                        },
                        Err(e) => { return Err(e); },
                    }
                },
                _ => { return Err(SchemaError::WrongType); },
            }
        } else {
            extensions = None;
        }
        let options: Option<AuthenticatorOptions>;
        if i < entries.len() && entries[i].0 == 5 {
            match &entries[i].1 {
                Value::Options(o) => {
                    options = Some(*o);
                    i = i + 1;
                },
                _ => { return Err(SchemaError::WrongType); },
            }
        } else {
            options = None;
        }
        let pin_auth: Option<Vec<u8>>;
        if i < entries.len() && entries[i].0 == 6 {
            match &entries[i].1 {
                Value::Bytes(b) => {
                    pin_auth = Some(copy_bytes(b));
                    i = i + 1;
                },
                _ => { return Err(SchemaError::WrongType); },
            }
        } else {
            pin_auth = None;
        }
        let pin_protocol: Option<u32>;
        if i < entries.len() && entries[i].0 == 7 {
            match &entries[i].1 {
                Value::Uint(p) => {
                    pin_protocol = Some(*p);
                    i = i + 1;
                },
                _ => { return Err(SchemaError::WrongType); },
            }
        } else {
            pin_protocol = None;
        }
        let enterprise_attestation: Option<u32>;
        if i < entries.len() && entries[i].0 == 8 {
            match &entries[i].1 {
                Value::Uint(p) => {
                    enterprise_attestation = Some(*p);
                    i = i + 1;
                },
                _ => { return Err(SchemaError::WrongType); },
            }
        } else {
            enterprise_attestation = None;
        }
        let attestation_formats_preference: Option<AttestationFormatsPreference>;
        if i < entries.len() && entries[i].0 == 9 {
            match &entries[i].1 {
                Value::FormatsPreference(p) => {
                    attestation_formats_preference = Some(p.clone());
                    i = i + 1;
                },
                _ => { return Err(SchemaError::WrongType); },
            }
        } else {
            attestation_formats_preference = None;
        }
        if i != entries.len() {
            return Err(SchemaError::InvalidKey);
        }
        Ok(
            Request {
                rp_id,
                client_data_hash,
                allow_list,
                extensions,
                options,
                pin_auth,
                pin_protocol,
                enterprise_attestation,
                attestation_formats_preference,
            },
        )
    }
}

/// Round trip: a well-formed request decodes from its own encoding,
/// unchanged; in particular exactly the present optional fields come
/// back present.
#[verifier::rlimit(100)]
pub proof fn lemma_request_round_trip(r: RequestModel)
    requires
        r.wf(),
    ensures
        spec_decode_request(spec_encode_request(r)) == Ok::<RequestModel, SchemaError>(r),
{
    if r.extensions is Some {
        lemma_extensions_input_round_trip(r.extensions->0);
    }
    let s = spec_encode_request(r);
    let g2 = seq![(1u8, ValueModel::Text(r.rp_id)), (2u8, ValueModel::Bytes(r.client_data_hash))];
    let e3 = spec_opt_entry(
        3,
        match r.allow_list {
            Some(l) => Some(ValueModel::Credentials(l)),
            None => None,
        },
    );
    let e4 = spec_opt_entry(
        4,
        match r.extensions {
            Some(e) => Some(ValueModel::Extensions(spec_encode_extensions_input(e))),
            None => None,
        },
    );
    let e5 = spec_opt_entry(
        5,
        match r.options {
            Some(o) => Some(ValueModel::Options(o)),
            None => None,
        },
    );
    let e6 = spec_opt_entry(
        6,
        match r.pin_auth {
            Some(b) => Some(ValueModel::Bytes(b)),
            None => None,
        },
    );
    let e7 = spec_opt_entry(
        7,
        match r.pin_protocol {
            Some(p) => Some(ValueModel::Uint(p)),
            None => None,
        },
    );
    let e8 = spec_opt_entry(
        8,
        match r.enterprise_attestation {
            Some(p) => Some(ValueModel::Uint(p)),
            None => None,
        },
    );
    let e9 = spec_opt_entry(
        9,
        match r.attestation_formats_preference {
            Some(p) => Some(ValueModel::FormatsPreference(p)),
            None => None,
        },
    );
    assert(s == g2 + e3 + e4 + e5 + e6 + e7 + e8 + e9);
    let p4 = 2 + e3.len() as int;
    let p5 = p4 + e4.len();
    let p6 = p5 + e5.len();
    let p7 = p6 + e6.len();
    let p8 = p7 + e7.len();
    let p9 = p8 + e8.len();
    let p10 = p9 + e9.len();
    assert(p10 == s.len());
    assert(s[0] == (1u8, ValueModel::Text(r.rp_id)));
    assert(s[1] == (2u8, ValueModel::Bytes(r.client_data_hash)));
    assert(spec_take_credentials(s, 2, 3) == Ok::<_, SchemaError>((r.allow_list, p4))) by {
        if r.allow_list is Some {
            assert(s[2] == e3[0]);
        } else {
            if 2 < s.len() {
                assert(s[2].0 != 3);
            }
        }
    };
    assert(spec_take_request_extensions(s, p4, 4) == Ok::<_, SchemaError>((r.extensions, p5))) by {
        if r.extensions is Some {
            assert(s[p4] == e4[0]);
        } else {
            if p4 < s.len() {
                assert(s[p4].0 != 4);
            }
        }
    };
    assert(spec_take_options(s, p5, 5) == Ok::<_, SchemaError>((r.options, p6))) by {
        if r.options is Some {
            assert(s[p5] == e5[0]);
        } else {
            if p5 < s.len() {
                assert(s[p5].0 != 5);
            }
        }
    };
    assert(spec_take_bytes(s, p6, 6) == Ok::<_, SchemaError>((r.pin_auth, p7))) by {
        if r.pin_auth is Some {
            assert(s[p6] == e6[0]);
        } else {
            if p6 < s.len() {
                assert(s[p6].0 != 6);
            }
        }
    };
    assert(spec_take_uint(s, p7, 7) == Ok::<_, SchemaError>((r.pin_protocol, p8))) by {
        if r.pin_protocol is Some {
            assert(s[p7] == e7[0]);
        } else {
            if p7 < s.len() {
                assert(s[p7].0 != 7);
            }
        }
    };
    assert(spec_take_uint(s, p8, 8) == Ok::<_, SchemaError>((r.enterprise_attestation, p9))) by {
        if r.enterprise_attestation is Some {
            assert(s[p8] == e8[0]);
        } else {
            if p8 < s.len() {
                assert(s[p8].0 != 8);
            }
        }
    };
    assert(spec_take_formats_preference(s, p9, 9) == Ok::<
        _,
        SchemaError,
    >((r.attestation_formats_preference, p10))) by {
        if r.attestation_formats_preference is Some {
            assert(s[p9] == e9[0]);
        } else {
            assert(p9 == s.len());
        }
    };
    lemma_decode_request_from_takes(s, r, p4, p5, p6, p7, p8, p9, p10);
}

/// Decoding yields exactly `r` once each take step is known to yield the
/// matching field of `r` and the steps consume the whole map.
proof fn lemma_decode_request_from_takes(
    s: Seq<(u8, ValueModel)>,
    r: RequestModel,
    p4: int,
    p5: int,
    p6: int,
    p7: int,
    p8: int,
    p9: int,
    p10: int,
)
    requires
        s.len() > 1,
        s[0] == (1u8, ValueModel::Text(r.rp_id)),
        s[1] == (2u8, ValueModel::Bytes(r.client_data_hash)),
        spec_take_credentials(s, 2, 3) == Ok::<_, SchemaError>((r.allow_list, p4)),
        spec_take_request_extensions(s, p4, 4) == Ok::<_, SchemaError>((r.extensions, p5)),
        spec_take_options(s, p5, 5) == Ok::<_, SchemaError>((r.options, p6)),
        spec_take_bytes(s, p6, 6) == Ok::<_, SchemaError>((r.pin_auth, p7)),
        spec_take_uint(s, p7, 7) == Ok::<_, SchemaError>((r.pin_protocol, p8)),
        spec_take_uint(s, p8, 8) == Ok::<_, SchemaError>((r.enterprise_attestation, p9)),
        spec_take_formats_preference(s, p9, 9) == Ok::<
            _,
            SchemaError,
        >((r.attestation_formats_preference, p10)),
        p10 == s.len(),
    ensures
        spec_decode_request(s) == Ok::<RequestModel, SchemaError>(r),
{
}

/// The decoder admits only well-formed requests: whatever decodes has an
/// allow list within capacity, well-formed descriptors, and well-formed
/// extension inputs.
#[verifier::rlimit(100)]
pub proof fn lemma_decoded_request_wf(s: Seq<(u8, ValueModel)>)
    requires
        spec_decode_request(s) is Ok,
    ensures
        spec_decode_request(s)->Ok_0.wf(),
{
    assert forall|sub: Seq<(ExtensionKey, ExtensionValueModel)>|
        spec_decode_extensions_input(sub) is Ok implies (#[trigger] spec_decode_extensions_input(
        sub,
    ))->Ok_0.wf() by {
        lemma_decoded_extensions_input_wf(sub);
    }
}

/// The get-assertion result.
///
/// The first three fields are mandatory on every successful execution
/// path and are assembled through [`ResponseBuilder`]; the rest are
/// optional enrichments, filled in by direct mutation afterwards.
#[derive(Debug, PartialEq, Eq)]
pub struct Response {
    /// The credential the assertion was made with.  Required.
    pub credential: PublicKeyCredentialDescriptor,
    /// The serialized authenticator data the signature covers.  Required.
    pub auth_data: Vec<u8>,
    /// The ASN.1-encoded assertion signature.  Required.
    pub signature: Vec<u8>,
    /// The user the credential belongs to, when the candidate set was
    /// ambiguous or the platform needs it.
    pub user: Option<PublicKeyCredentialUserEntity>,
    /// The total number of matching credentials; present only on the
    /// first response of a multi-credential result sequence.
    pub number_of_credentials: Option<u32>,
    /// Whether the user picked this credential among several candidates.
    pub user_selected: Option<bool>,
    /// The key that encrypts the credential's large-blob data, only if
    /// requested and authorized.
    pub large_blob_key: Option<Vec<u8>>,
    /// Extension data excluded from the signature.  Reserved.
    pub unsigned_extension_outputs: Option<UnsignedExtensionOutputs>,
    /// Whether an enterprise attestation is returned; present together
    /// with `att_stmt`.
    pub ep_att: Option<bool>,
    /// The enterprise attestation statement; present together with
    /// `ep_att`.
    pub att_stmt: Option<AttestationStatement>,
    /// The tag authenticating this response itself.
    pub response_auth: Option<Vec<u8>>,
}

/// The mathematical value of a [`Response`].
pub struct ResponseModel {
    pub credential: PublicKeyCredentialDescriptorModel,
    pub auth_data: Seq<u8>,
    pub signature: Seq<u8>,
    pub user: Option<PublicKeyCredentialUserEntityModel>,
    pub number_of_credentials: Option<u32>,
    pub user_selected: Option<bool>,
    pub large_blob_key: Option<Seq<u8>>,
    pub unsigned_extension_outputs: Option<UnsignedExtensionOutputs>,
    pub ep_att: Option<bool>,
    pub att_stmt: Option<AttestationStatementModel>,
    pub response_auth: Option<Seq<u8>>,
}

impl View for Response {
    type V = ResponseModel;

    open spec fn view(&self) -> ResponseModel {
        ResponseModel {
            credential: self.credential@,
            auth_data: self.auth_data@,
            signature: self.signature@,
            user: self.user.deep_view(),
            number_of_credentials: self.number_of_credentials,
            user_selected: self.user_selected,
            large_blob_key: bytes_option_model(self.large_blob_key),
            unsigned_extension_outputs: self.unsigned_extension_outputs,
            ep_att: self.ep_att,
            att_stmt: self.att_stmt.deep_view(),
            response_auth: bytes_option_model(self.response_auth),
        }
    }
}

impl DeepView for Response {
    type V = ResponseModel;

    open spec fn deep_view(&self) -> ResponseModel {
        self.view()
    }
}

impl ResponseModel {
    /// Every fixed-capacity buffer fits, and the fixed-length tags have
    /// their exact lengths.
    pub open spec fn wf(self) -> bool {
        &&& self.credential.wf()
        &&& self.auth_data.len() <= AUTHENTICATOR_DATA_LENGTH
        &&& self.signature.len() <= ASN1_SIGNATURE_LENGTH
        &&& self.large_blob_key matches Some(b) ==> b.len() == LARGE_BLOB_KEY_LENGTH
        &&& self.response_auth matches Some(b) ==> b.len() == RESPONSE_AUTH_LENGTH
    }

    /// Every optional enrichment is absent.
    pub open spec fn all_optional_absent(self) -> bool {
        &&& self.user is None
        &&& self.number_of_credentials is None
        &&& self.user_selected is None
        &&& self.large_blob_key is None
        &&& self.unsigned_extension_outputs is None
        &&& self.ep_att is None
        &&& self.att_stmt is None
        &&& self.response_auth is None
    }
}

/// The wire form of a response: keys 1 to 11 in declaration order,
/// absent optional fields omitted entirely.
pub open spec fn spec_encode_response(r: ResponseModel) -> Seq<(u8, ValueModel)> {
    seq![
        (1u8, ValueModel::Credential(r.credential)),
        (2u8, ValueModel::Bytes(r.auth_data)),
        (3u8, ValueModel::Bytes(r.signature)),
    ] + spec_opt_entry(
        4,
        match r.user {
            Some(u) => Some(ValueModel::User(u)),
            None => None,
        },
    ) + spec_opt_entry(
        5,
        match r.number_of_credentials {
            Some(n) => Some(ValueModel::Uint(n)),
            None => None,
        },
    ) + spec_opt_entry(
        6,
        match r.user_selected {
            Some(b) => Some(ValueModel::Bool(b)),
            None => None,
        },
    ) + spec_opt_entry(
        7,
        match r.large_blob_key {
            Some(b) => Some(ValueModel::Bytes(b)),
            None => None,
        },
    ) + spec_opt_entry(
        8,
        match r.unsigned_extension_outputs {
            Some(u) => Some(ValueModel::UnsignedOutputs(u)),
            None => None,
        },
    ) + spec_opt_entry(
        9,
        match r.ep_att {
            Some(b) => Some(ValueModel::Bool(b)),
            None => None,
        },
    ) + spec_opt_entry(
        10,
        match r.att_stmt {
            Some(a) => Some(ValueModel::AttStmt(a)),
            None => None,
        },
    ) + spec_opt_entry(
        11,
        match r.response_auth {
            Some(b) => Some(ValueModel::Bytes(b)),
            None => None,
        },
    )
}

/// One step of decoding an indexed map: an optional boolean flag under
/// the key `k` at position `i`.
pub open spec fn spec_take_bool(s: Seq<(u8, ValueModel)>, i: int, k: u8) -> Result<
    (Option<bool>, int),
    SchemaError,
> {
    if 0 <= i < s.len() && s[i].0 == k {
        if s[i].1 is Bool {
            Ok((Some(s[i].1->Bool_0), i + 1))
        } else {
            Err(SchemaError::WrongType)
        }
    } else {
        Ok((None, i))
    }
}

/// One step of decoding an indexed map: an optional user entity under
/// the key `k` at position `i`.
pub open spec fn spec_take_user(s: Seq<(u8, ValueModel)>, i: int, k: u8) -> Result<
    (Option<PublicKeyCredentialUserEntityModel>, int),
    SchemaError,
> {
    if 0 <= i < s.len() && s[i].0 == k {
        if s[i].1 is User {
            Ok((Some(s[i].1->User_0), i + 1))
        } else {
            Err(SchemaError::WrongType)
        }
    } else {
        Ok((None, i))
    }
}

/// One step of decoding an indexed map: an optional reserved
/// unsigned-extension-outputs value under the key `k` at position `i`.
pub open spec fn spec_take_unsigned_outputs(s: Seq<(u8, ValueModel)>, i: int, k: u8) -> Result<
    (Option<UnsignedExtensionOutputs>, int),
    SchemaError,
> {
    if 0 <= i < s.len() && s[i].0 == k {
        if s[i].1 is UnsignedOutputs {
            Ok((Some(s[i].1->UnsignedOutputs_0), i + 1))
        } else {
            Err(SchemaError::WrongType)
        }
    } else {
        Ok((None, i))
    }
}

/// One step of decoding an indexed map: an optional attestation
/// statement under the key `k` at position `i`.
pub open spec fn spec_take_att_stmt(s: Seq<(u8, ValueModel)>, i: int, k: u8) -> Result<
    (Option<AttestationStatementModel>, int),
    SchemaError,
> {
    if 0 <= i < s.len() && s[i].0 == k {
        if s[i].1 is AttStmt {
            Ok((Some(s[i].1->AttStmt_0), i + 1))
        } else {
            Err(SchemaError::WrongType)
        }
    } else {
        Ok((None, i))
    }
}

/// Decoding a response map: the three required fields must stand first
/// at keys 1 to 3, the optional fields may follow, each at its own key,
/// in ascending order; nothing else is admitted.
pub open spec fn spec_decode_response(s: Seq<(u8, ValueModel)>) -> Result<
    ResponseModel,
    SchemaError,
> {
    if !(s.len() > 0 && s[0].0 == 1) {
        Err(SchemaError::MissingField)
    } else if !(s[0].1 is Credential) {
        Err(SchemaError::WrongType)
    } else if !s[0].1->Credential_0.wf() {
        Err(SchemaError::TooLong)
    } else if !(s.len() > 1 && s[1].0 == 2) {
        Err(SchemaError::MissingField)
    } else if !(s[1].1 is Bytes) {
        Err(SchemaError::WrongType)
    } else if s[1].1->Bytes_0.len() > AUTHENTICATOR_DATA_LENGTH {
        Err(SchemaError::TooLong)
    } else if !(s.len() > 2 && s[2].0 == 3) {
        Err(SchemaError::MissingField)
    } else if !(s[2].1 is Bytes) {
        Err(SchemaError::WrongType)
    } else if s[2].1->Bytes_0.len() > ASN1_SIGNATURE_LENGTH {
        Err(SchemaError::TooLong)
    } else {
        match spec_take_user(s, 3, 4) {
            Err(e) => Err(e),
            Ok((user, i5)) => match spec_take_uint(s, i5, 5) {
                Err(e) => Err(e),
                Ok((number_of_credentials, i6)) => match spec_take_bool(s, i6, 6) {
                    Err(e) => Err(e),
                    Ok((user_selected, i7)) => match spec_take_bytes(s, i7, 7) {
                        Err(e) => Err(e),
                        Ok((large_blob_key, i8)) => {
                            if large_blob_key matches Some(b) && b.len()
                                != LARGE_BLOB_KEY_LENGTH {
                                Err(SchemaError::InvalidLength)
                            } else {
                                match spec_take_unsigned_outputs(s, i8, 8) {
                                    Err(e) => Err(e),
                                    Ok((unsigned_extension_outputs, i9)) => match spec_take_bool(
                                        s,
                                        i9,
                                        9,
                                    ) {
                                        Err(e) => Err(e),
                                        Ok((ep_att, i10)) => match spec_take_att_stmt(s, i10, 10) {
                                            Err(e) => Err(e),
                                            Ok((att_stmt, i11)) => match spec_take_bytes(
                                                s,
                                                i11,
                                                11,
                                            ) {
                                                Err(e) => Err(e),
                                                Ok((response_auth, i12)) => {
                                                    if response_auth matches Some(b) && b.len()
                                                        != RESPONSE_AUTH_LENGTH {
                                                        Err(SchemaError::InvalidLength)
                                                    } else if i12 == s.len() {
                                                        Ok(
                                                            ResponseModel {
                                                                credential: s[0].1->Credential_0,
                                                                auth_data: s[1].1->Bytes_0,
                                                                signature: s[2].1->Bytes_0,
                                                                user,
                                                                number_of_credentials,
                                                                user_selected,
                                                                large_blob_key,
                                                                unsigned_extension_outputs,
                                                                ep_att,
                                                                att_stmt,
                                                                response_auth,
                                                            },
                                                        )
                                                    } else {
                                                        Err(SchemaError::InvalidKey)
                                                    }
                                                },
                                            },
                                        },
                                    },
                                }
                            }
                        },
                    },
                },
            },
        }
    }
}

/// The decoded value of a decode result, for stating exec contracts.
pub open spec fn response_result_model(r: Result<Response, SchemaError>) -> Result<
    ResponseModel,
    SchemaError,
> {
    match r {
        Ok(q) => Ok(q@),
        Err(e) => Err(e),
    }
}

impl Response {
    /// Encodes this response as its indexed map.
    pub fn encode(&self) -> (m: Vec<(u8, Value)>)
        ensures
            m.deep_view() == spec_encode_response(self@),
    {
        let ghost g3: Seq<(u8, ValueModel)> = seq![
            (1u8, ValueModel::Credential(self.credential@)),
            (2u8, ValueModel::Bytes(self.auth_data@)),
            (3u8, ValueModel::Bytes(self.signature@)),
        ];
        let ghost g4: Seq<(u8, ValueModel)> = g3 + spec_opt_entry(
            4,
            match self@.user {
                Some(u) => Some(ValueModel::User(u)),
                None => None,
            },
        );
        let ghost g5: Seq<(u8, ValueModel)> = g4 + spec_opt_entry(
            5,
            match self@.number_of_credentials {
                Some(n) => Some(ValueModel::Uint(n)),
                None => None,
            },
        );
        let ghost g6: Seq<(u8, ValueModel)> = g5 + spec_opt_entry(
            6,
            match self@.user_selected {
                Some(b) => Some(ValueModel::Bool(b)),
                None => None,
            },
        );
        let ghost g7: Seq<(u8, ValueModel)> = g6 + spec_opt_entry(
            7,
            match self@.large_blob_key {
                Some(b) => Some(ValueModel::Bytes(b)),
                None => None,
            },
        );
        let ghost g8: Seq<(u8, ValueModel)> = g7 + spec_opt_entry(
            8,
            match self@.unsigned_extension_outputs {
                Some(u) => Some(ValueModel::UnsignedOutputs(u)),
                None => None,
            },
        );
        let ghost g9: Seq<(u8, ValueModel)> = g8 + spec_opt_entry(
            9,
            match self@.ep_att {
                Some(b) => Some(ValueModel::Bool(b)),
                None => None,
            },
        );
        let ghost g10: Seq<(u8, ValueModel)> = g9 + spec_opt_entry(
            10,
            match self@.att_stmt {
                Some(a) => Some(ValueModel::AttStmt(a)),
                None => None,
            },
        );
        let ghost g11: Seq<(u8, ValueModel)> = g10 + spec_opt_entry(
            11,
            match self@.response_auth {
                Some(b) => Some(ValueModel::Bytes(b)),
                None => None,
            },
        );
        let mut m: Vec<(u8, Value)> = Vec::new();
        m.push((1, Value::Credential(self.credential.clone())));
        m.push((2, Value::Bytes(copy_bytes(&self.auth_data))));
        m.push((3, Value::Bytes(copy_bytes(&self.signature))));
        proof {
            assert(m.deep_view() =~= g3);
        }
        push_opt_entry(
            &mut m,
            4,
            match &self.user {
                Some(u) => Some(Value::User(u.clone())),
                None => None,
            },
        );
        proof {
            assert(m.deep_view() == g4);
        }
        push_opt_entry(
            &mut m,
            5,
            match self.number_of_credentials {
                Some(n) => Some(Value::Uint(n)),
                None => None,
            },
        );
        proof {
            assert(m.deep_view() == g5);
        }
        push_opt_entry(
            &mut m,
            6,
            match self.user_selected {
                Some(b) => Some(Value::Bool(b)),
                None => None,
            },
        );
        proof {
            assert(m.deep_view() == g6);
        }
        push_opt_entry(
            &mut m,
            7,
            match &self.large_blob_key {
                Some(b) => Some(Value::Bytes(copy_bytes(b))),
                None => None,
            },
        );
        proof {
            assert(m.deep_view() == g7);
        }
        push_opt_entry(
            &mut m,
            8,
            match self.unsigned_extension_outputs {
                Some(u) => Some(Value::UnsignedOutputs(u)),
                None => None,
            },
        );
        proof {
            assert(m.deep_view() == g8);
        }
        push_opt_entry(
            &mut m,
            9,
            match self.ep_att {
                Some(b) => Some(Value::Bool(b)),
                None => None,
            },
        );
        proof {
            assert(m.deep_view() == g9);
        }
        push_opt_entry(
            &mut m,
            10,
            match &self.att_stmt {
                Some(a) => Some(Value::AttStmt(a.clone())),
                None => None,
            },
        );
        proof {
            assert(m.deep_view() == g10);
        }
        push_opt_entry(
            &mut m,
            11,
            match &self.response_auth {
                Some(b) => Some(Value::Bytes(copy_bytes(b))),
                None => None,
            },
        );
        proof {
            assert(m.deep_view() == g11);
            assert(g11 == spec_encode_response(self@));
        }
        m
    }

    /// Decodes an indexed map as a response, copying each field out of
    /// the map.
    #[verifier::rlimit(100)]
    pub fn decode(entries: &Vec<(u8, Value)>) -> (r: Result<Self, SchemaError>)
        ensures
            response_result_model(r) == spec_decode_response(entries.deep_view()),
    {
        if !(entries.len() > 0 && entries[0].0 == 1) {
            return Err(SchemaError::MissingField);
        }
        let credential = match &entries[0].1 {
            Value::Credential(c) => {
                if c.id.len() > MAX_CREDENTIAL_ID_LENGTH {
                    return Err(SchemaError::TooLong);
                }
                c.clone()
            },
            _ => { return Err(SchemaError::WrongType); },
        };
        if !(entries.len() > 1 && entries[1].0 == 2) {
            return Err(SchemaError::MissingField);
        }
        let auth_data = match &entries[1].1 {
            Value::Bytes(b) => {
                if b.len() > AUTHENTICATOR_DATA_LENGTH {
                    return Err(SchemaError::TooLong);
                }
                copy_bytes(b)
            },
            _ => { return Err(SchemaError::WrongType); },
        };
        if !(entries.len() > 2 && entries[2].0 == 3) {
            return Err(SchemaError::MissingField);
        }
        let signature = match &entries[2].1 {
            Value::Bytes(b) => {
                if b.len() > ASN1_SIGNATURE_LENGTH {
                    return Err(SchemaError::TooLong);
                }
                copy_bytes(b)
            },
            _ => { return Err(SchemaError::WrongType); },
        };
        let mut i: usize = 3;
        let user: Option<PublicKeyCredentialUserEntity>;
        if i < entries.len() && entries[i].0 == 4 {
            match &entries[i].1 {
                Value::User(u) => {
                    user = Some(u.clone());
                    i = i + 1;
                },
                _ => { return Err(SchemaError::WrongType); },
            }
        } else {
            user = None;
        }
        let number_of_credentials: Option<u32>;
        if i < entries.len() && entries[i].0 == 5 {
            match &entries[i].1 {
                Value::Uint(n) => {
                    number_of_credentials = Some(*n);
                    i = i + 1;
                },
                _ => { return Err(SchemaError::WrongType); },
            }
        } else {
            number_of_credentials = None;
        }
        let user_selected: Option<bool>;
        if i < entries.len() && entries[i].0 == 6 {
            match &entries[i].1 {
                Value::Bool(b) => {
                    user_selected = Some(*b);
                    i = i + 1;
                },
                _ => { return Err(SchemaError::WrongType); },
            }
        } else {
            user_selected = None;
        }
        let large_blob_key: Option<Vec<u8>>;
        if i < entries.len() && entries[i].0 == 7 {
            match &entries[i].1 {
                Value::Bytes(b) => {
                    if b.len() != LARGE_BLOB_KEY_LENGTH {
                        return Err(SchemaError::InvalidLength);
                    }
                    large_blob_key = Some(copy_bytes(b));
                    i = i + 1;
                },
                _ => { return Err(SchemaError::WrongType); },
            }
        } else {
            large_blob_key = None;
        }
        let unsigned_extension_outputs: Option<UnsignedExtensionOutputs>;
        if i < entries.len() && entries[i].0 == 8 {
            match &entries[i].1 {
                Value::UnsignedOutputs(u) => {
                    unsigned_extension_outputs = Some(*u);
                    i = i + 1;
                },
                _ => { return Err(SchemaError::WrongType); },
            }
        } else {
            unsigned_extension_outputs = None;
        }
        let ep_att: Option<bool>;
        if i < entries.len() && entries[i].0 == 9 {
            match &entries[i].1 {
                Value::Bool(b) => {
                    ep_att = Some(*b);
                    i = i + 1;
                },
                _ => { return Err(SchemaError::WrongType); },
            }
        } else {
            ep_att = None;
        }
        let att_stmt: Option<AttestationStatement>;
        if i < entries.len() && entries[i].0 == 10 {
            match &entries[i].1 {
                Value::AttStmt(a) => {
                    att_stmt = Some(a.clone());
                    i = i + 1;
                },
                _ => { return Err(SchemaError::WrongType); },
            }
        } else {
            att_stmt = None;
        }
        let response_auth: Option<Vec<u8>>;
        if i < entries.len() && entries[i].0 == 11 {
            match &entries[i].1 {
                Value::Bytes(b) => {
                    if b.len() != RESPONSE_AUTH_LENGTH {
                        return Err(SchemaError::InvalidLength);
                    }
                    response_auth = Some(copy_bytes(b));
                    i = i + 1;
                },
                _ => { return Err(SchemaError::WrongType); },
            }
        } else {
            response_auth = None;
        }
        if i != entries.len() {
            return Err(SchemaError::InvalidKey);
        }
        Ok(
            Response {
                credential,
                auth_data,
                signature,
                user,
                number_of_credentials,
                user_selected,
                large_blob_key,
                unsigned_extension_outputs,
                ep_att,
                att_stmt,
                response_auth,
            },
        )
    }

    /// Whether a present `number_of_credentials` stands where the
    /// multi-credential sequencing protocol allows it: only on the first
    /// response of a result sequence.  A violating value is still
    /// schema-valid; this check is the application-level validator's, not
    /// the decoder's.
    pub fn sequencing_ok(&self, first: bool) -> (r: bool)
        ensures
            r == (self@.number_of_credentials is Some ==> first),
    {
        first || self.number_of_credentials.is_none()
    }
}

/// Round trip: a well-formed response decodes from its own encoding,
/// unchanged; in particular exactly the present optional fields come
/// back present.
#[verifier::rlimit(100)]
pub proof fn lemma_response_round_trip(r: ResponseModel)
    requires
        r.wf(),
    ensures
        spec_decode_response(spec_encode_response(r)) == Ok::<ResponseModel, SchemaError>(r),
{
    let s = spec_encode_response(r);
    let g3 = seq![
        (1u8, ValueModel::Credential(r.credential)),
        (2u8, ValueModel::Bytes(r.auth_data)),
        (3u8, ValueModel::Bytes(r.signature)),
    ];
    let e4 = spec_opt_entry(
        4,
        match r.user {
            Some(u) => Some(ValueModel::User(u)),
            None => None,
        },
    );
    let e5 = spec_opt_entry(
        5,
        match r.number_of_credentials {
            Some(n) => Some(ValueModel::Uint(n)),
            None => None,
        },
    );
    let e6 = spec_opt_entry(
        6,
        match r.user_selected {
            Some(b) => Some(ValueModel::Bool(b)),
            None => None,
        },
    );
    let e7 = spec_opt_entry(
        7,
        match r.large_blob_key {
            Some(b) => Some(ValueModel::Bytes(b)),
            None => None,
        },
    );
    let e8 = spec_opt_entry(
        8,
        match r.unsigned_extension_outputs {
            Some(u) => Some(ValueModel::UnsignedOutputs(u)),
            None => None,
        },
    );
    let e9 = spec_opt_entry(
        9,
        match r.ep_att {
            Some(b) => Some(ValueModel::Bool(b)),
            None => None,
        },
    );
    let e10 = spec_opt_entry(
        10,
        match r.att_stmt {
            Some(a) => Some(ValueModel::AttStmt(a)),
            None => None,
        },
    );
    let e11 = spec_opt_entry(
        11,
        match r.response_auth {
            Some(b) => Some(ValueModel::Bytes(b)),
            None => None,
        },
    );
    assert(s == g3 + e4 + e5 + e6 + e7 + e8 + e9 + e10 + e11);
    let p5 = 3 + e4.len() as int;
    let p6 = p5 + e5.len();
    let p7 = p6 + e6.len();
    let p8 = p7 + e7.len();
    let p9 = p8 + e8.len();
    let p10 = p9 + e9.len();
    let p11 = p10 + e10.len();
    let p12 = p11 + e11.len();
    assert(p12 == s.len());
    assert(s[0] == (1u8, ValueModel::Credential(r.credential)));
    assert(s[1] == (2u8, ValueModel::Bytes(r.auth_data)));
    assert(s[2] == (3u8, ValueModel::Bytes(r.signature)));
    assert(spec_take_user(s, 3, 4) == Ok::<_, SchemaError>((r.user, p5))) by {
        if r.user is Some {
            assert(s[3] == e4[0]);
        } else {
            if 3 < s.len() {
                assert(s[3].0 != 4);
            }
        }
    };
    assert(spec_take_uint(s, p5, 5) == Ok::<_, SchemaError>((r.number_of_credentials, p6))) by {
        if r.number_of_credentials is Some {
            assert(s[p5] == e5[0]);
        } else {
            if p5 < s.len() {
                assert(s[p5].0 != 5);
            }
        }
    };
    assert(spec_take_bool(s, p6, 6) == Ok::<_, SchemaError>((r.user_selected, p7))) by {
        if r.user_selected is Some {
            assert(s[p6] == e6[0]);
        } else {
            if p6 < s.len() {
                assert(s[p6].0 != 6);
            }
        }
    };
    assert(spec_take_bytes(s, p7, 7) == Ok::<_, SchemaError>((r.large_blob_key, p8))) by {
        if r.large_blob_key is Some {
            assert(s[p7] == e7[0]);
        } else {
            if p7 < s.len() {
                assert(s[p7].0 != 7);
            }
        }
    };
    assert(spec_take_unsigned_outputs(s, p8, 8) == Ok::<
        _,
        SchemaError,
    >((r.unsigned_extension_outputs, p9))) by {
        if r.unsigned_extension_outputs is Some {
            assert(s[p8] == e8[0]);
        } else {
            if p8 < s.len() {
                assert(s[p8].0 != 8);
            }
        }
    };
    assert(spec_take_bool(s, p9, 9) == Ok::<_, SchemaError>((r.ep_att, p10))) by {
        if r.ep_att is Some {
            assert(s[p9] == e9[0]);
        } else {
            if p9 < s.len() {
                assert(s[p9].0 != 9);
            }
        }
    };
    assert(spec_take_att_stmt(s, p10, 10) == Ok::<_, SchemaError>((r.att_stmt, p11))) by {
        if r.att_stmt is Some {
            assert(s[p10] == e10[0]);
        } else {
            if p10 < s.len() {
                assert(s[p10].0 != 10);
            }
        }
    };
    assert(spec_take_bytes(s, p11, 11) == Ok::<_, SchemaError>((r.response_auth, p12))) by {
        if r.response_auth is Some {
            assert(s[p11] == e11[0]);
        } else {
            assert(p11 == s.len());
        }
    };
    lemma_decode_response_from_takes(s, r, p5, p6, p7, p8, p9, p10, p11, p12);
}

/// Decoding yields exactly `r` once each take step is known to yield the
/// matching field of `r` and the steps consume the whole map.
proof fn lemma_decode_response_from_takes(
    s: Seq<(u8, ValueModel)>,
    r: ResponseModel,
    p5: int,
    p6: int,
    p7: int,
    p8: int,
    p9: int,
    p10: int,
    p11: int,
    p12: int,
)
    requires
        r.wf(),
        s.len() > 2,
        s[0] == (1u8, ValueModel::Credential(r.credential)),
        s[1] == (2u8, ValueModel::Bytes(r.auth_data)),
        s[2] == (3u8, ValueModel::Bytes(r.signature)),
        spec_take_user(s, 3, 4) == Ok::<_, SchemaError>((r.user, p5)),
        spec_take_uint(s, p5, 5) == Ok::<_, SchemaError>((r.number_of_credentials, p6)),
        spec_take_bool(s, p6, 6) == Ok::<_, SchemaError>((r.user_selected, p7)),
        spec_take_bytes(s, p7, 7) == Ok::<_, SchemaError>((r.large_blob_key, p8)),
        spec_take_unsigned_outputs(s, p8, 8) == Ok::<
            _,
            SchemaError,
        >((r.unsigned_extension_outputs, p9)),
        spec_take_bool(s, p9, 9) == Ok::<_, SchemaError>((r.ep_att, p10)),
        spec_take_att_stmt(s, p10, 10) == Ok::<_, SchemaError>((r.att_stmt, p11)),
        spec_take_bytes(s, p11, 11) == Ok::<_, SchemaError>((r.response_auth, p12)),
        p12 == s.len(),
    ensures
        spec_decode_response(s) == Ok::<ResponseModel, SchemaError>(r),
{
}

/// The decoder admits only well-formed responses: whatever decodes has
/// every buffer within its capacity and every fixed-length tag exact.
#[verifier::rlimit(100)]
pub proof fn lemma_decoded_response_wf(s: Seq<(u8, ValueModel)>)
    requires
        spec_decode_response(s) is Ok,
    ensures
        spec_decode_response(s)->Ok_0.wf(),
{
}

/// Omission: a response whose optional fields are all absent encodes as
/// the minimum-length map, holding exactly the three mandatory fields at
/// the keys 1 to 3.
pub proof fn lemma_response_minimal_encoding(r: ResponseModel)
    requires
        r.all_optional_absent(),
    ensures
        spec_encode_response(r) == seq![
            (1u8, ValueModel::Credential(r.credential)),
            (2u8, ValueModel::Bytes(r.auth_data)),
            (3u8, ValueModel::Bytes(r.signature)),
        ],
{
    assert(spec_encode_response(r) =~= seq![
        (1u8, ValueModel::Credential(r.credential)),
        (2u8, ValueModel::Bytes(r.auth_data)),
        (3u8, ValueModel::Bytes(r.signature)),
    ]);
}

/// The staged first half of a [`Response`]: the three fields every
/// successful execution path must supply.
///
/// Finalizing through [`ResponseBuilder::build`] is the only intended way
/// to construct a response; it fills every optional field with "absent",
/// and optional enrichment happens by direct mutation afterwards.
#[derive(Debug, PartialEq, Eq)]
pub struct ResponseBuilder {
    pub credential: PublicKeyCredentialDescriptor,
    pub auth_data: Vec<u8>,
    pub signature: Vec<u8>,
}

/// The mathematical value of a [`ResponseBuilder`].
pub struct ResponseBuilderModel {
    pub credential: PublicKeyCredentialDescriptorModel,
    pub auth_data: Seq<u8>,
    pub signature: Seq<u8>,
}

impl View for ResponseBuilder {
    type V = ResponseBuilderModel;

    open spec fn view(&self) -> ResponseBuilderModel {
        ResponseBuilderModel {
            credential: self.credential@,
            auth_data: self.auth_data@,
            signature: self.signature@,
        }
    }
}

impl DeepView for ResponseBuilder {
    type V = ResponseBuilderModel;

    open spec fn deep_view(&self) -> ResponseBuilderModel {
        self.view()
    }
}

impl ResponseBuilder {
    /// Finalizes the mandatory core: the response holds exactly the
    /// builder's three fields, and every optional field is absent.  No
    /// validation happens here; nothing optional is known yet.
    pub fn build(self) -> (r: Response)
        ensures
            r@.credential == self@.credential,
            r@.auth_data == self@.auth_data,
            r@.signature == self@.signature,
            r@.all_optional_absent(),
    {
        Response {
            credential: self.credential,
            auth_data: self.auth_data,
            signature: self.signature,
            user: None,
            number_of_credentials: None,
            user_selected: None,
            large_blob_key: None,
            unsigned_extension_outputs: None,
            ep_att: None,
            att_stmt: None,
            response_auth: None,
        }
    }
}

/// The get-assertion response never carries new credential material: its
/// attested-credential-data part is empty and serializes to nothing.
pub struct NoAttestedCredentialData;

impl SerializeAttestedCredentialData for NoAttestedCredentialData {
    /// No bytes at all.
    open spec fn serialized(&self) -> Seq<u8> {
        Seq::empty()
    }

    fn serialize(&self, buffer: &mut SerializedAuthenticatorData) -> (r: Result<
        (),
        SchemaError,
    >) {
        proof {
            assert(buffer@ + self.serialized() =~= buffer@);
        }
        Ok(())
    }
}

} // verus!
